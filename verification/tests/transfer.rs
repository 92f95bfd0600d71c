use zfsrpc::bridge::{PipeBridge, MIN_CAPACITY};
use zfsrpc::error::TransferError;
use zfsrpc::receiver::{receive_stream, Receiver};
use zfsrpc::segment::Segment;
use zfsrpc::session::{
    join_outcome, process_outcome, run_receive_process_session, run_receive_session,
    run_send_session, ProcessExit,
};
use zfsrpc::transmitter::{transmit, Transmitter};

fn payload(len: usize) -> Vec<u8> {
    let mut data = Vec::with_capacity(len);
    for i in 0..len {
        data.push((i % 251) as u8);
    }
    data
}

fn segment(name: &str, sequence: u64, buffer: Vec<u8>) -> Segment {
    Segment::new(name.to_string(), sequence, buffer)
}

#[test]
fn bridge_capacity_has_a_floor() {
    let bridge = PipeBridge::open(16);
    assert_eq!(bridge.capacity(), MIN_CAPACITY);
    let bridge = PipeBridge::open(65536);
    assert_eq!(bridge.capacity(), 65536);
}

#[test]
fn bridge_reads_back_what_was_written() {
    let mut bridge = PipeBridge::open(MIN_CAPACITY);
    let data = payload(100);
    bridge.write_all(&data).unwrap();
    assert_eq!(bridge.pending(), 100);
    let chunk = bridge.read_chunk(40);
    assert_eq!(chunk, &data[..40]);
    let chunk = bridge.read_chunk(1000);
    assert_eq!(chunk, &data[40..]);
    assert_eq!(bridge.pending(), 0);
}

#[test]
fn bridge_write_after_read_close_reports_closure() {
    let mut bridge = PipeBridge::open(MIN_CAPACITY);
    bridge.close_read();
    let data = payload(10);
    assert!(bridge.write_all(&data).is_err());
}

#[test]
fn round_trip_reproduces_the_byte_stream() {
    let name = String::from("tank/data@snap");
    let data = payload(3 * MIN_CAPACITY + 123);

    let mut out_bridge = PipeBridge::open(0);
    out_bridge.write_all(&data).unwrap();
    out_bridge.close_write();
    let segments = transmit(&name, &mut out_bridge);

    assert_eq!(segments.len(), 4);
    let mut concatenated: Vec<u8> = Vec::new();
    for (i, seg) in segments.iter().enumerate() {
        assert_eq!(seg.name, name);
        assert_eq!(seg.sequence, i as u64);
        assert!(!seg.buffer.is_empty());
        assert!(seg.buffer.len() <= MIN_CAPACITY);
        concatenated.extend_from_slice(&seg.buffer);
    }
    assert_eq!(concatenated, data);

    let mut in_bridge = PipeBridge::open(0);
    let (receiver, outcome) = receive_stream(&mut in_bridge, &segments);
    assert!(outcome.is_ok());
    let _ = receiver;
    let delivered = in_bridge.drain();
    assert_eq!(delivered, data);
}

#[test]
fn empty_inbound_stream_is_a_valid_empty_transfer() {
    let mut bridge = PipeBridge::open(0);
    let segments: Vec<Segment> = Vec::new();
    let outcome = run_receive_session(&mut bridge, &segments, Ok(()));
    assert_eq!(outcome, Ok(()));
    assert_eq!(bridge.drain(), Vec::<u8>::new());
}

#[test]
fn sequence_gap_fails_at_the_third_segment() {
    let mut bridge = PipeBridge::open(0);
    let segments = vec![
        segment("tank/data", 0, vec![1, 2]),
        segment("tank/data", 1, vec![3, 4]),
        segment("tank/data", 3, vec![5, 6]),
    ];
    let (receiver, outcome) = receive_stream(&mut bridge, &segments);
    assert_eq!(
        outcome,
        Err(TransferError::SequenceMismatch { expected: 2, received: 3 })
    );
    let _ = receiver;
    // The first two payloads were already written; the offending one was not.
    let delivered = bridge.drain();
    assert_eq!(delivered, vec![1, 2, 3, 4]);
}

#[test]
fn first_segment_fixes_the_numbering_base() {
    let mut bridge = PipeBridge::open(0);
    let segments = vec![
        segment("tank/data", 5, vec![1]),
        segment("tank/data", 6, vec![2]),
        segment("tank/data", 7, vec![3]),
    ];
    let (_, outcome) = receive_stream(&mut bridge, &segments);
    assert!(outcome.is_ok());

    let mut bridge = PipeBridge::open(0);
    let segments = vec![
        segment("tank/data", 5, vec![1]),
        segment("tank/data", 7, vec![3]),
    ];
    let (_, outcome) = receive_stream(&mut bridge, &segments);
    assert_eq!(
        outcome,
        Err(TransferError::SequenceMismatch { expected: 6, received: 7 })
    );
}

#[test]
fn mismatch_closes_the_write_half_in_the_same_call() {
    let mut bridge = PipeBridge::open(0);
    let mut receiver = Receiver::new();
    receiver
        .accept(&mut bridge, &segment("tank/data", 0, vec![9]))
        .unwrap();
    let err = receiver
        .accept(&mut bridge, &segment("tank/data", 4, vec![8]))
        .unwrap_err();
    assert_eq!(err, TransferError::SequenceMismatch { expected: 1, received: 4 });
    // The consumer behind the bridge now unblocks: it reads what was
    // delivered and then observes end of stream.
    assert_eq!(bridge.drain(), vec![9]);
    let eof = bridge.read_chunk(64);
    assert!(eof.is_empty());
}

#[test]
fn stream_closure_unblocks_the_draining_worker() {
    let mut bridge = PipeBridge::open(0);
    let mut receiver = Receiver::new();
    for (i, chunk) in [vec![1u8, 2], vec![3], vec![4, 5, 6]].into_iter().enumerate() {
        receiver
            .accept(&mut bridge, &segment("tank/data", i as u64, chunk))
            .unwrap();
    }
    // The network stream terminates here; the receiver signals end of
    // stream, and the blocking worker's read loop finishes.
    receiver.stream_closed(&mut bridge);
    let delivered = bridge.drain();
    assert_eq!(delivered, vec![1, 2, 3, 4, 5, 6]);
    assert!(bridge.read_chunk(64).is_empty());
}

#[test]
fn native_failure_wins_over_clean_transport() {
    let mut bridge = PipeBridge::open(0);
    let segments = vec![
        segment("tank/data", 0, vec![1]),
        segment("tank/data", 1, vec![2]),
    ];
    let outcome = run_receive_session(
        &mut bridge,
        &segments,
        Err(String::from("dataset busy")),
    );
    assert_eq!(
        outcome,
        Err(TransferError::NativeOperationFailed { detail: String::from("dataset busy") })
    );

    assert_eq!(
        join_outcome(Err(String::from("io error")), Ok(())),
        Err(TransferError::NativeOperationFailed { detail: String::from("io error") })
    );
    assert_eq!(join_outcome(Ok(()), Ok(())), Ok(()));
    assert_eq!(
        join_outcome(Ok(()), Err(TransferError::ResourceError)),
        Err(TransferError::ResourceError)
    );
}

#[test]
fn send_session_reports_the_producer_failure() {
    let name = String::from("tank/data");
    let data = payload(10);
    let mut bridge = PipeBridge::open(0);
    bridge.write_all(&data).unwrap();
    bridge.close_write();
    let (segments, outcome) = run_send_session(&name, &mut bridge, Err(String::from("torn")));
    // The stream was still drained so the producer could not block...
    assert_eq!(segments.len(), 1);
    assert_eq!(segments[0].buffer, data);
    // ...but the session is reported as failed.
    assert_eq!(
        outcome,
        Err(TransferError::NativeOperationFailed { detail: String::from("torn") })
    );
}

#[test]
fn transmitter_counts_from_zero() {
    let mut transmitter = Transmitter::new(String::from("tank/data"));
    let first = transmitter.next_segment(vec![1, 2, 3]);
    let second = transmitter.next_segment(vec![4]);
    assert_eq!(first.sequence, 0);
    assert_eq!(second.sequence, 1);
    assert_eq!(first.name, "tank/data");
    assert_eq!(first.buffer, vec![1, 2, 3]);
}

#[test]
fn process_exit_zero_is_success() {
    let mut bridge = PipeBridge::open(0);
    let segments = vec![
        segment("tank/data", 0, vec![1]),
        segment("tank/data", 1, vec![2]),
        segment("tank/data", 2, vec![3]),
    ];
    let outcome = run_receive_process_session(&mut bridge, &segments, ProcessExit::Exited(0));
    assert_eq!(outcome, Ok(()));
}

#[test]
fn process_exit_one_is_a_process_failure() {
    let mut bridge = PipeBridge::open(0);
    let segments = vec![segment("tank/data", 0, vec![1])];
    let outcome = run_receive_process_session(&mut bridge, &segments, ProcessExit::Exited(1));
    assert_eq!(outcome, Err(TransferError::ProcessExitFailure { code: 1 }));
}

#[test]
fn signal_termination_is_reported_distinctly() {
    assert_eq!(
        process_outcome(ProcessExit::Signaled(9)),
        Err(TransferError::ProcessSignaled { signal: 9 })
    );
    assert_eq!(process_outcome(ProcessExit::Exited(0)), Ok(()));
    assert_eq!(
        process_outcome(ProcessExit::Exited(2)),
        Err(TransferError::ProcessExitFailure { code: 2 })
    );
}

#[test]
fn error_categories_name_the_failure() {
    let err = TransferError::SequenceMismatch { expected: 1, received: 2 };
    assert_eq!(err.category(), "sequence mismatch");
    assert_eq!(TransferError::ResourceError.category(), "resource error");
    assert_eq!(
        TransferError::TransportError { detail: String::from("reset") }.category(),
        "transport error"
    );
}
