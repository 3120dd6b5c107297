use skywalking_agent::config::{heartbeat_events, heartbeat_settings, worker_threads};
use skywalking_agent::connection::{receive_step, LoopControl, ReceiveOutcome, StepReport};
use skywalking_agent::frame::FrameBuffer;
use skywalking_agent::lifecycle::{Action, Event, Lifecycle, Phase, EXIT_FAILURE, EXIT_OK};
use skywalking_agent::queue::{EnqueueOutcome, NextOutcome, RelayQueue};

fn frame(payload: &[u8]) -> Vec<u8> {
    let mut v = (payload.len() as u64).to_le_bytes().to_vec();
    v.extend_from_slice(payload);
    v
}

#[test]
fn full_queue_drops_then_drains_in_order() {
    let mut q: RelayQueue<&str> = RelayQueue::new(2);
    assert_eq!(q.try_enqueue("A"), EnqueueOutcome::Enqueued);
    assert_eq!(q.try_enqueue("B"), EnqueueOutcome::Enqueued);
    assert_eq!(q.try_enqueue("C"), EnqueueOutcome::Dropped);
    assert_eq!(q.len(), 2);
    assert_eq!(q.try_next(), Some("A"));
    assert_eq!(q.try_next(), Some("B"));
    assert_eq!(q.try_next(), None);
}

#[test]
fn dropped_item_is_not_retried() {
    let mut q: RelayQueue<u32> = RelayQueue::new(1);
    assert_eq!(q.try_enqueue(1), EnqueueOutcome::Enqueued);
    assert_eq!(q.try_enqueue(2), EnqueueOutcome::Dropped);
    assert_eq!(q.try_next(), Some(1));
    assert_eq!(q.try_next(), None);
    assert_eq!(q.try_enqueue(3), EnqueueOutcome::Enqueued);
    assert_eq!(q.try_next(), Some(3));
}

#[test]
fn items_with_room_arrive_in_order() {
    let mut q: RelayQueue<u32> = RelayQueue::new(255);
    for i in 0..255u32 {
        assert_eq!(q.try_enqueue(i), EnqueueOutcome::Enqueued);
    }
    assert_eq!(q.try_enqueue(255), EnqueueOutcome::Dropped);
    for i in 0..255u32 {
        assert_eq!(q.try_next(), Some(i));
    }
    assert_eq!(q.try_next(), None);
}

#[test]
fn closed_queue_refuses_but_drains() {
    let mut q: RelayQueue<u32> = RelayQueue::new(4);
    assert_eq!(q.poll_next(), NextOutcome::Pending);
    q.try_enqueue(7);
    q.close();
    assert!(q.is_closed());
    assert_eq!(q.try_enqueue(8), EnqueueOutcome::ChannelClosed);
    assert_eq!(q.poll_next(), NextOutcome::Item(7));
    assert_eq!(q.poll_next(), NextOutcome::Closed);
    assert_eq!(q.capacity(), 4);
}

#[test]
fn one_frame_then_close() {
    let mut buf = FrameBuffer::new();
    buf.push(&frame(b"segment"));
    let payload = buf.next_frame().expect("a whole frame");
    assert_eq!(payload, b"segment".to_vec());
    assert!(buf.next_frame().is_none());
    assert!(buf.is_empty());

    let mut q: RelayQueue<Vec<u8>> = RelayQueue::new(255);
    let (c, r) = receive_step(&mut q, ReceiveOutcome::Item(payload));
    assert_eq!((c, r), (LoopControl::Continue, StepReport::Forwarded));
    let (c, r) = receive_step(&mut q, ReceiveOutcome::EndOfStream);
    assert_eq!((c, r), (LoopControl::Stop, StepReport::Ended));
    assert_eq!(q.len(), 1);
    assert_eq!(q.try_next(), Some(b"segment".to_vec()));
}

#[test]
fn malformed_frame_does_not_end_connection() {
    let mut q: RelayQueue<u32> = RelayQueue::new(8);
    assert_eq!(receive_step(&mut q, ReceiveOutcome::Malformed), (LoopControl::Continue, StepReport::Skipped));
    assert_eq!(q.len(), 0);
    assert_eq!(receive_step(&mut q, ReceiveOutcome::Item(5)), (LoopControl::Continue, StepReport::Forwarded));
    assert_eq!(receive_step(&mut q, ReceiveOutcome::Item(6)), (LoopControl::Continue, StepReport::Forwarded));
    assert_eq!(q.try_next(), Some(5));
    assert_eq!(q.try_next(), Some(6));
}

#[test]
fn end_of_stream_leaves_other_connections() {
    let mut q: RelayQueue<(u8, u32)> = RelayQueue::new(8);
    assert_eq!(receive_step(&mut q, ReceiveOutcome::Item((1, 10))).0, LoopControl::Continue);
    assert_eq!(receive_step(&mut q, ReceiveOutcome::EndOfStream).0, LoopControl::Stop);
    assert_eq!(receive_step(&mut q, ReceiveOutcome::Item((2, 20))).0, LoopControl::Continue);
    assert_eq!(receive_step(&mut q, ReceiveOutcome::Item((2, 21))).0, LoopControl::Continue);
    assert_eq!(q.try_next(), Some((1, 10)));
    assert_eq!(q.try_next(), Some((2, 20)));
    assert_eq!(q.try_next(), Some((2, 21)));
}

#[test]
fn full_queue_keeps_connection_open() {
    let mut q: RelayQueue<u32> = RelayQueue::new(1);
    receive_step(&mut q, ReceiveOutcome::Item(1));
    assert_eq!(receive_step(&mut q, ReceiveOutcome::Item(2)), (LoopControl::Continue, StepReport::Dropped));
}

#[test]
fn closed_queue_ends_connection() {
    let mut q: RelayQueue<u32> = RelayQueue::new(1);
    q.close();
    assert_eq!(receive_step(&mut q, ReceiveOutcome::Item(1)), (LoopControl::Stop, StepReport::QueueClosed));
}

#[test]
fn frames_split_across_reads() {
    let mut buf = FrameBuffer::new();
    let mut bytes = frame(&[1, 2, 3]);
    bytes.extend(frame(&[]));
    bytes.extend(frame(&[9]));
    buf.push(&bytes[..5]);
    assert!(buf.next_frame().is_none());
    buf.push(&bytes[5..10]);
    assert!(buf.next_frame().is_none());
    buf.push(&bytes[10..]);
    assert_eq!(buf.next_frame(), Some(vec![1, 2, 3]));
    assert_eq!(buf.next_frame(), Some(vec![]));
    assert_eq!(buf.next_frame(), Some(vec![9]));
    assert_eq!(buf.next_frame(), None);
    assert!(buf.is_empty());
}

#[test]
fn frame_length_is_little_endian() {
    let mut buf = FrameBuffer::new();
    let mut bytes = vec![2, 1, 0, 0, 0, 0, 0, 0];
    bytes.extend(std::iter::repeat(7u8).take(257));
    buf.push(&bytes);
    assert!(buf.next_frame().is_none());
    buf.push(&[8]);
    let p = buf.next_frame().expect("258 bytes of payload");
    assert_eq!(p.len(), 258);
    assert_eq!(p[257], 8);
}

#[test]
fn huge_announced_length_waits() {
    let mut buf = FrameBuffer::new();
    buf.push(&[0xff; 12]);
    assert!(buf.next_frame().is_none());
    assert!(!buf.is_empty());
}

#[test]
fn second_instance_exits_without_binding() {
    let mut l = Lifecycle::new();
    assert_eq!(l.step(Event::LockHeld), Action::Exit { remove_socket: false, code: EXIT_FAILURE });
    assert_eq!(l.phase, Phase::Stopped);
    assert_eq!(l.step(Event::LockAcquired), Action::Nothing);
    assert_eq!(l.step(Event::SocketBound), Action::Nothing);
    assert!(!l.socket_present);
}

#[test]
fn signal_shutdown_removes_socket() {
    let mut l = Lifecycle::new();
    assert_eq!(l.step(Event::LockAcquired), Action::Bind);
    assert_eq!(l.step(Event::SocketBound), Action::Serve);
    assert!(l.socket_present);
    assert_eq!(l.step(Event::Interrupt), Action::Flush);
    assert_eq!(l.step(Event::Flushed), Action::Exit { remove_socket: true, code: EXIT_OK });
    assert!(!l.socket_present);
}

#[test]
fn pipeline_failure_exits_nonzero() {
    let mut l = Lifecycle::new();
    l.step(Event::LockAcquired);
    l.step(Event::SocketBound);
    assert_eq!(l.step(Event::PipelineFailed), Action::Flush);
    assert_eq!(l.step(Event::Terminate), Action::Exit { remove_socket: true, code: EXIT_FAILURE });
    assert_eq!(l.phase, Phase::Stopped);
}

#[test]
fn bind_failure_exits_without_socket() {
    let mut l = Lifecycle::new();
    l.step(Event::LockAcquired);
    assert_eq!(l.step(Event::BindFailed), Action::Exit { remove_socket: false, code: EXIT_FAILURE });
    let mut m = Lifecycle::new();
    assert_eq!(m.step(Event::LockFailed), Action::Exit { remove_socket: false, code: EXIT_FAILURE });
}

#[test]
fn worker_thread_count() {
    assert_eq!(worker_threads(4, Some(16)), 4);
    assert_eq!(worker_threads(0, Some(16)), 16);
    assert_eq!(worker_threads(-3, None), 1);
    assert_eq!(worker_threads(0, Some(0)), 1);
}

#[test]
fn heartbeat_cadence() {
    assert_eq!(heartbeat_events(3, 1), 3);
    assert_eq!(heartbeat_events(7, 3), 2);
    assert_eq!(heartbeat_settings(1, 3), Some((1, 3)));
    assert_eq!(heartbeat_settings(0, 3), None);
    assert_eq!(heartbeat_settings(30, -1), None);
}
