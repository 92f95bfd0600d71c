//! Session endings: how the two sides' outcomes combine.
//!
//! Each transfer runs two parties at once — the network-facing task and
//! the blocking worker (the native call, or the external process).  Both
//! outcomes are collected; neither silently swallows the other's failure,
//! and the blocking side's verdict is authoritative when it completes,
//! because only it can confirm that the dataset was actually read or
//! written correctly.

use vstd::prelude::*;

use crate::bridge::PipeBridge;
use crate::error::TransferError;
use crate::receiver::receive_stream;
use crate::segment::{
    concat_buffers, first_mismatch, is_first_mismatch, seg_views, well_sequenced, Segment,
};
use crate::transmitter::transmit;

verus! {

/// How the external consuming process ended.
pub enum ProcessExit {
    /// The process exited on its own with this status code.
    Exited(i32),
    /// The process was terminated by this signal.
    Signaled(i32),
}

/// Combines the blocking worker's outcome with the network side's.  The
/// native outcome wins: a native failure fails the session even when every
/// segment moved cleanly; only with the native side content does the
/// transport's own result decide.
pub fn join_outcome(native: Result<(), String>, transport: Result<(), TransferError>) -> (r:
    Result<(), TransferError>)
    ensures
        native matches Err(detail) ==> r matches Err(e) && e
            matches TransferError::NativeOperationFailed { detail: d } && d@ == detail@,
        native is Ok && transport is Ok ==> r is Ok,
        native is Ok ==> (transport matches Err(e) ==> r == Err::<(), TransferError>(e)),
{
    match native {
        Err(detail) => Err(TransferError::NativeOperationFailed { detail }),
        Ok(()) => transport,
    }
}

/// Reads the external process's exit as a session outcome: exit status
/// zero is success, any other exit status is a process failure carrying
/// that code, and a signal-terminated process is reported distinctly.
pub fn process_outcome(exit: ProcessExit) -> (r: Result<(), TransferError>)
    ensures
        exit == ProcessExit::Exited(0) ==> r is Ok,
        exit matches ProcessExit::Exited(code) ==> (code != 0 ==> r == Err::<(),
            TransferError,
        >(TransferError::ProcessExitFailure { code })),
        exit matches ProcessExit::Signaled(signal) ==> r == Err::<(), TransferError>(
            TransferError::ProcessSignaled { signal },
        ),
{
    match exit {
        ProcessExit::Exited(0) => Ok(()),
        ProcessExit::Exited(code) => Err(TransferError::ProcessExitFailure { code }),
        ProcessExit::Signaled(signal) => Err(TransferError::ProcessSignaled { signal }),
    }
}

/// One whole receiving session against the native consumer: the inbound
/// stream is validated and written into the bridge, end of stream is
/// signaled, and the blocking consumer's outcome — handed in by the caller
/// that joined its worker — settles the session.  A sequence mismatch
/// short-circuits before any joining; an empty stream with a content
/// native side is a successful, empty transfer.
pub fn run_receive_session(
    bridge: &mut PipeBridge,
    segments: &Vec<Segment>,
    native: Result<(), String>,
) -> (r: Result<(), TransferError>)
    requires
        old(bridge).wf(),
        !old(bridge).write_closed(),
        !old(bridge).read_closed(),
        forall|i: int|
            0 <= i < segments@.len() ==> (#[trigger] segments@[i])@.sequence < u64::MAX,
    ensures
        final(bridge).wf(),
        final(bridge).write_closed(),
        r is Ok <==> well_sequenced(seg_views(segments@)) && native is Ok,
        r is Ok ==> final(bridge).contents() == old(bridge).contents() + concat_buffers(
            seg_views(segments@),
        ),
        !well_sequenced(seg_views(segments@)) ==> ({
            let views = seg_views(segments@);
            let k = first_mismatch(views);
            &&& is_first_mismatch(views, k)
            &&& r == Err::<(), TransferError>(
                TransferError::SequenceMismatch {
                    expected: (views[0].sequence + k) as u64,
                    received: views[k].sequence,
                },
            )
            &&& final(bridge).contents() == old(bridge).contents() + concat_buffers(
                views.take(k),
            )
        }),
        well_sequenced(seg_views(segments@)) ==> (native matches Err(detail) ==> r matches Err(
            e,
        ) && e matches TransferError::NativeOperationFailed { detail: d } && d@ == detail@),
{
    let (mut receiver, transport) = receive_stream(bridge, segments);
    match transport {
        Err(e) => Err(e),
        Ok(()) => receiver.join(native),
    }
}

/// One whole sending session: the bytes the native producer wrote into the
/// bridge are drained into sequenced segments even when the producer
/// failed — so its writes never block — and the producer's outcome, handed
/// in by the caller that joined its worker, settles the session.
pub fn run_send_session(name: &String, bridge: &mut PipeBridge, native: Result<(), String>) -> (r:
    (Vec<Segment>, Result<(), TransferError>))
    requires
        old(bridge).wf(),
        old(bridge).write_closed(),
    ensures
        final(bridge).wf(),
        final(bridge).contents() == Seq::<u8>::empty(),
        concat_buffers(seg_views(r.0@)) == old(bridge).contents(),
        forall|i: int|
            0 <= i < r.0@.len() ==> {
                &&& (#[trigger] r.0@[i])@.name == name@
                &&& r.0@[i]@.sequence == i
                &&& 0 < r.0@[i]@.buffer.len() <= old(bridge).capacity_spec()
            },
        r.1 is Ok <==> native is Ok,
        native matches Err(detail) ==> r.1 matches Err(e) && e
            matches TransferError::NativeOperationFailed { detail: d } && d@ == detail@,
{
    let segments = transmit(name, bridge);
    let outcome = join_outcome(native, Ok(()));
    (segments, outcome)
}

/// One whole receiving session against the fallback external-process
/// consumer.  The segment protocol is the one of [`run_receive_session`];
/// only the blocking half differs, and the process's exit status takes the
/// native outcome's place.
pub fn run_receive_process_session(
    bridge: &mut PipeBridge,
    segments: &Vec<Segment>,
    exit: ProcessExit,
) -> (r: Result<(), TransferError>)
    requires
        old(bridge).wf(),
        !old(bridge).write_closed(),
        !old(bridge).read_closed(),
        forall|i: int|
            0 <= i < segments@.len() ==> (#[trigger] segments@[i])@.sequence < u64::MAX,
    ensures
        final(bridge).wf(),
        final(bridge).write_closed(),
        r is Ok <==> well_sequenced(seg_views(segments@)) && exit == ProcessExit::Exited(0),
        r is Ok ==> final(bridge).contents() == old(bridge).contents() + concat_buffers(
            seg_views(segments@),
        ),
        !well_sequenced(seg_views(segments@)) ==> ({
            let views = seg_views(segments@);
            let k = first_mismatch(views);
            &&& r == Err::<(), TransferError>(
                TransferError::SequenceMismatch {
                    expected: (views[0].sequence + k) as u64,
                    received: views[k].sequence,
                },
            )
        }),
        well_sequenced(seg_views(segments@)) ==> (exit matches ProcessExit::Exited(code) ==> (
        code != 0 ==> r == Err::<(), TransferError>(TransferError::ProcessExitFailure { code }))),
        well_sequenced(seg_views(segments@)) ==> (exit matches ProcessExit::Signaled(signal)
            ==> r == Err::<(), TransferError>(TransferError::ProcessSignaled { signal })),
{
    let (_receiver, transport) = receive_stream(bridge, segments);
    match transport {
        Err(e) => Err(e),
        Ok(()) => process_outcome(exit),
    }
}

} // verus!
