use vstd::prelude::*;

verus! {

/// Bytes in a frame header: the payload length, little-endian.
pub const HEADER_LEN: usize = 8;

/// `256` to the power `n`.
pub open spec fn pow256(n: nat) -> nat
    decreases n,
{
    if n == 0 {
        1
    } else {
        256 * pow256((n - 1) as nat)
    }
}

/// The number that the bytes `s` write in little-endian order.
pub open spec fn le_value(s: Seq<u8>) -> nat
    decreases s.len(),
{
    if s.len() == 0 {
        0
    } else {
        s[0] as nat + 256 * le_value(s.drop_first())
    }
}

/// The payload length that a buffer starting with a full header announces.
pub open spec fn announced_len(s: Seq<u8>) -> nat {
    le_value(s.take(HEADER_LEN as int))
}

/// Whether `s` starts with a whole frame.
pub open spec fn has_frame(s: Seq<u8>) -> bool {
    s.len() >= HEADER_LEN && s.len() - HEADER_LEN >= announced_len(s)
}

/// The payload of the frame at the start of `s`.
pub open spec fn frame_payload(s: Seq<u8>) -> Seq<u8> {
    s.subrange(HEADER_LEN as int, HEADER_LEN + announced_len(s))
}

/// What is left of `s` after the frame at its start.
pub open spec fn after_frame(s: Seq<u8>) -> Seq<u8> {
    s.subrange(HEADER_LEN + announced_len(s), s.len() as int)
}

proof fn lemma_le_value_bound(s: Seq<u8>)
    ensures
        le_value(s) < pow256(s.len()),
    decreases s.len(),
{
    if s.len() > 0 {
        lemma_le_value_bound(s.drop_first());
        let r = le_value(s.drop_first());
        let p = pow256((s.len() - 1) as nat);
        assert(s[0] as nat + 256 * r < 256 * p) by (nonlinear_arith)
            requires
                r < p,
                s[0] < 256,
        ;
    }
}

/// Reads the payload length from the header at the start of `b`.
fn read_len(b: &Vec<u8>) -> (r: u64)
    requires
        b@.len() >= HEADER_LEN,
    ensures
        r == announced_len(b@),
{
    let ghost h = b@.take(HEADER_LEN as int);
    let mut acc: u64 = 0;
    let mut i: usize = HEADER_LEN;
    proof {
        assert(pow256(8) == 0x1_0000_0000_0000_0000) by {
            reveal_with_fuel(pow256, 9);
        }
    }
    while i > 0
        invariant
            i <= HEADER_LEN,
            b@.len() >= HEADER_LEN,
            h == b@.take(HEADER_LEN as int),
            acc == le_value(h.subrange(i as int, HEADER_LEN as int)),
            pow256(8) == 0x1_0000_0000_0000_0000,
        decreases i,
    {
        let ghost tail = h.subrange(i as int, HEADER_LEN as int);
        let ghost s = h.subrange(i - 1, HEADER_LEN as int);
        proof {
            assert(s.drop_first() =~= tail);
            lemma_le_value_bound(s);
            lemma_pow256_mono(s.len(), 8);
        }
        i = i - 1;
        acc = b[i] as u64 + 256 * acc;
    }
    proof {
        assert(h.subrange(0, HEADER_LEN as int) =~= h);
    }
    acc
}

proof fn lemma_pow256_mono(a: nat, b: nat)
    requires
        a <= b,
    ensures
        pow256(a) <= pow256(b),
    decreases b,
{
    if a < b {
        lemma_pow256_mono(a, (b - 1) as nat);
    }
}

/// The `k` bytes that write `n` in little-endian order.
pub open spec fn le_bytes(n: nat, k: nat) -> Seq<u8>
    decreases k,
{
    if k == 0 {
        Seq::empty()
    } else {
        seq![(n % 256) as u8].add(le_bytes(n / 256, (k - 1) as nat))
    }
}

/// The bytes of a frame carrying `payload`.
pub open spec fn frame_bytes(payload: Seq<u8>) -> Seq<u8> {
    le_bytes(payload.len(), HEADER_LEN as nat) + payload
}

proof fn lemma_le_round_trip(n: nat, k: nat)
    requires
        n < pow256(k),
    ensures
        le_bytes(n, k).len() == k,
        le_value(le_bytes(n, k)) == n,
    decreases k,
{
    if k > 0 {
        let p = pow256((k - 1) as nat);
        assert(n / 256 < p) by (nonlinear_arith)
            requires
                n < 256 * p,
        ;
        lemma_le_round_trip(n / 256, (k - 1) as nat);
        let s = le_bytes(n, k);
        assert(s.drop_first() =~= le_bytes(n / 256, (k - 1) as nat));
        assert(n % 256 + 256 * (n / 256) == n) by (nonlinear_arith);
    }
}

/// A frame written after pending bytes that end on a frame boundary is
/// read back whole: its payload comes out unchanged and what follows it is
/// left pending.
pub proof fn lemma_frame_round_trip(payload: Seq<u8>, rest: Seq<u8>)
    requires
        payload.len() < pow256(HEADER_LEN as nat),
    ensures
        has_frame(frame_bytes(payload) + rest),
        frame_payload(frame_bytes(payload) + rest) == payload,
        after_frame(frame_bytes(payload) + rest) == rest,
{
    let s = frame_bytes(payload) + rest;
    lemma_le_round_trip(payload.len(), HEADER_LEN as nat);
    assert(s.take(HEADER_LEN as int) =~= le_bytes(payload.len(), HEADER_LEN as nat));
    assert(frame_payload(s) =~= payload);
    assert(after_frame(s) =~= rest);
}

/// Frames written one after another are read back one after another, each
/// with its payload unchanged.
pub proof fn lemma_frames_read_in_order(p: Seq<u8>, q: Seq<u8>, rest: Seq<u8>)
    requires
        p.len() < pow256(HEADER_LEN as nat),
        q.len() < pow256(HEADER_LEN as nat),
    ensures
        frame_payload(frame_bytes(p) + frame_bytes(q) + rest) == p,
        frame_payload(after_frame(frame_bytes(p) + frame_bytes(q) + rest)) == q,
        after_frame(after_frame(frame_bytes(p) + frame_bytes(q) + rest)) == rest,
{
    let s = frame_bytes(p) + frame_bytes(q) + rest;
    assert(s =~= frame_bytes(p) + (frame_bytes(q) + rest));
    lemma_frame_round_trip(p, frame_bytes(q) + rest);
    lemma_frame_round_trip(q, rest);
}

/// Bytes read off a connection that have not yet formed a whole frame.
/// A frame is a header of eight bytes, the payload length in little-endian
/// order, followed by that many bytes of payload.
pub struct FrameBuffer {
    pending: Vec<u8>,
}

impl View for FrameBuffer {
    type V = Seq<u8>;

    closed spec fn view(&self) -> Seq<u8> {
        self.pending@
    }
}

impl FrameBuffer {
    /// A buffer holding nothing.
    pub fn new() -> (r: FrameBuffer)
        ensures
            r@ == Seq::<u8>::empty(),
    {
        FrameBuffer { pending: Vec::new() }
    }

    /// Whether no byte is pending.
    pub fn is_empty(&self) -> (r: bool)
        ensures
            r == (self@.len() == 0),
    {
        self.pending.len() == 0
    }

    /// Appends the bytes just read.
    pub fn push(&mut self, bytes: &[u8])
        ensures
            final(self)@ == old(self)@ + bytes@,
    {
        let mut i: usize = 0;
        while i < bytes.len()
            invariant
                i <= bytes@.len(),
                self.pending@ == old(self)@ + bytes@.take(i as int),
            decreases bytes.len() - i,
        {
            self.pending.push(bytes[i]);
            i = i + 1;
            proof {
                assert(old(self)@ + bytes@.take(i as int) =~= old(self)@ + bytes@.take(i - 1).push(bytes@[i - 1]));
            }
        }
        proof {
            assert(bytes@.take(i as int) =~= bytes@);
        }
    }

    /// Takes the payload of the first frame when it has arrived whole, and
    /// `None` while more bytes are needed.
    pub fn next_frame(&mut self) -> (r: Option<Vec<u8>>)
        ensures
            has_frame(old(self)@) ==> r is Some && r->0@ == frame_payload(old(self)@)
                && final(self)@ == after_frame(old(self)@),
            !has_frame(old(self)@) ==> r is None && final(self)@ == old(self)@,
    {
        if self.pending.len() < HEADER_LEN {
            return None;
        }
        let n = read_len(&self.pending);
        if ((self.pending.len() - HEADER_LEN) as u64) < n {
            return None;
        }
        let end = HEADER_LEN + n as usize;
        let mut payload: Vec<u8> = Vec::new();
        let mut i: usize = HEADER_LEN;
        while i < end
            invariant
                HEADER_LEN <= i <= end,
                end <= self.pending@.len(),
                payload@ == self.pending@.subrange(HEADER_LEN as int, i as int),
            decreases end - i,
        {
            payload.push(self.pending[i]);
            i = i + 1;
            proof {
                assert(payload@ =~= self.pending@.subrange(HEADER_LEN as int, i as int));
            }
        }
        let mut rest: Vec<u8> = Vec::new();
        let mut j: usize = end;
        while j < self.pending.len()
            invariant
                end <= j <= self.pending@.len(),
                rest@ == self.pending@.subrange(end as int, j as int),
            decreases self.pending@.len() - j,
        {
            rest.push(self.pending[j]);
            j = j + 1;
            proof {
                assert(rest@ =~= self.pending@.subrange(end as int, j as int));
            }
        }
        self.pending = rest;
        Some(payload)
    }
}

} // verus!
