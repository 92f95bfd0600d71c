//! The segment receiver: the session's state machine on the receiving
//! side.
//!
//! The receiver consumes the inbound segments one by one.  The first
//! arrival fixes the session name and the expected numbering; each later
//! segment is accepted only when its sequence number is the expected one,
//! and its payload is then written into the bridge.  A mismatch fails the
//! session at once: the bridge's write half is closed within the same call
//! so the blocking consumer unblocks, and nothing of the offending segment
//! is written.  When the inbound stream ends normally the receiver closes
//! the write half and waits to be joined with the blocking consumer, whose
//! result is the session's authoritative outcome.
//!
//! The states run `AwaitingFirstSegment -> Receiving -> Draining ->
//! Joined`; a mismatch jumps from `Receiving` straight to a failed
//! `Joined`.

use vstd::prelude::*;

use crate::bridge::PipeBridge;
use crate::error::TransferError;
use crate::segment::{
    concat_buffers, consecutive_from, first_mismatch, is_first_mismatch,
    lemma_concat_buffers_push, lemma_first_mismatch_unique, seg_views, well_sequenced, Segment,
    SegmentView,
};

verus! {

/// Where a receiving session stands.
pub enum ReceiveState {
    /// No segment has arrived yet.
    AwaitingFirstSegment,
    /// The first segment fixed the session name; `expected_sequence` is the
    /// number the next segment must carry.
    Receiving { name: String, expected_sequence: u64 },
    /// The inbound stream is exhausted and the write half is closed; the
    /// blocking consumer is being waited on.
    Draining,
    /// Terminal: the session's outcome is settled.
    Joined { success: bool },
}

/// The receiving side of one transfer session.
pub struct Receiver {
    state: ReceiveState,
    accepted: Ghost<Seq<SegmentView>>,
}

impl Receiver {
    /// The segments accepted so far, in arrival order.
    pub closed spec fn accepted(&self) -> Seq<SegmentView> {
        self.accepted@
    }

    /// No segment has arrived yet.
    pub closed spec fn is_awaiting(&self) -> bool {
        self.state is AwaitingFirstSegment
    }

    /// The session is in progress.
    pub closed spec fn is_receiving(&self) -> bool {
        self.state is Receiving
    }

    /// The inbound stream ended; the blocking consumer is being joined.
    pub closed spec fn is_draining(&self) -> bool {
        self.state is Draining
    }

    /// The session is over.
    pub closed spec fn is_joined(&self) -> bool {
        self.state is Joined
    }

    /// Whether a finished session succeeded.
    pub closed spec fn joined_success(&self) -> bool {
        self.state matches ReceiveState::Joined { success } && success
    }

    /// The name the first segment carried.
    pub closed spec fn session_name(&self) -> Seq<char> {
        match self.state {
            ReceiveState::Receiving { ref name, .. } => name@,
            _ => Seq::<char>::empty(),
        }
    }

    /// The sequence number the next segment must carry.
    pub closed spec fn expected(&self) -> u64 {
        match self.state {
            ReceiveState::Receiving { expected_sequence, .. } => expected_sequence,
            _ => 0,
        }
    }

    /// The state machine's bookkeeping invariant: the accepted segments
    /// rise by exactly one from the first arrival's number, and the
    /// expected number continues them.
    pub closed spec fn wf(&self) -> bool {
        match self.state {
            ReceiveState::AwaitingFirstSegment => self.accepted@.len() == 0,
            ReceiveState::Receiving { ref name, expected_sequence } => {
                &&& self.accepted@.len() > 0
                &&& name@ == self.accepted@[0].name
                &&& consecutive_from(self.accepted@, self.accepted@[0].sequence as int)
                &&& expected_sequence as int == self.accepted@[0].sequence
                    + self.accepted@.len()
            },
            ReceiveState::Draining => well_sequenced(self.accepted@),
            ReceiveState::Joined { .. } => well_sequenced(self.accepted@),
        }
    }

    /// A new session, before any segment has arrived.
    pub fn new() -> (r: Receiver)
        ensures
            r.wf(),
            r.is_awaiting(),
            r.accepted() == Seq::<SegmentView>::empty(),
    {
        Receiver { state: ReceiveState::AwaitingFirstSegment, accepted: Ghost(Seq::empty()) }
    }

    /// Sequence numbers of accepted segments strictly increase by exactly
    /// one: any two accepted positions are that far apart.
    pub proof fn lemma_accepted_strictly_increasing(&self, i: int, j: int)
        requires
            self.wf(),
            self.is_receiving(),
            0 <= i <= j < self.accepted().len(),
        ensures
            self.accepted()[j].sequence == self.accepted()[i].sequence + (j - i),
    {
    }

    /// The sequence number the next segment must carry.
    pub fn expected_sequence(&self) -> (e: u64)
        requires
            self.is_receiving(),
        ensures
            e == self.expected(),
    {
        match &self.state {
            ReceiveState::Receiving { expected_sequence, .. } => *expected_sequence,
            _ => 0,
        }
    }

    /// Consumes one inbound segment.  A first arrival opens the session;
    /// a matching sequence number is accepted and its payload written into
    /// the bridge; a mismatch fails the session at once, closing the
    /// bridge's write half in this same call and writing nothing.
    pub fn accept(&mut self, bridge: &mut PipeBridge, seg: &Segment) -> (r: Result<
        (),
        TransferError,
    >)
        requires
            old(self).wf(),
            old(self).is_awaiting() || old(self).is_receiving(),
            old(bridge).wf(),
            !old(bridge).write_closed(),
            !old(bridge).read_closed(),
            seg@.sequence < u64::MAX,
        ensures
            final(self).wf(),
            final(bridge).wf(),
            final(bridge).capacity_spec() == old(bridge).capacity_spec(),
            !final(bridge).read_closed(),
            old(self).is_awaiting() ==> {
                &&& r is Ok
                &&& final(self).is_receiving()
                &&& final(self).session_name() == seg@.name
                &&& final(self).expected() == seg@.sequence + 1
                &&& final(self).accepted() == Seq::<SegmentView>::empty().push(seg@)
                &&& final(bridge).contents() == old(bridge).contents() + seg@.buffer
                &&& !final(bridge).write_closed()
            },
            old(self).is_receiving() && seg@.sequence == old(self).expected() ==> {
                &&& r is Ok
                &&& final(self).is_receiving()
                &&& final(self).session_name() == old(self).session_name()
                &&& final(self).expected() == old(self).expected() + 1
                &&& final(self).accepted() == old(self).accepted().push(seg@)
                &&& final(bridge).contents() == old(bridge).contents() + seg@.buffer
                &&& !final(bridge).write_closed()
            },
            old(self).is_receiving() && seg@.sequence != old(self).expected() ==> {
                &&& r == Err::<(), TransferError>(
                    TransferError::SequenceMismatch {
                        expected: old(self).expected(),
                        received: seg@.sequence,
                    },
                )
                &&& final(self).is_joined()
                &&& !final(self).joined_success()
                &&& final(self).accepted() == old(self).accepted()
                &&& final(bridge).contents() == old(bridge).contents()
                &&& final(bridge).write_closed()
            },
    {
        let expected_now: Option<u64> = match &self.state {
            ReceiveState::Receiving { expected_sequence, .. } => Some(*expected_sequence),
            _ => None,
        };
        match expected_now {
            None => {
                let write = bridge.write_all(&seg.buffer);
                proof {
                    assert(write is Ok);
                }
                self.state = ReceiveState::Receiving {
                    name: seg.name.clone(),
                    expected_sequence: seg.sequence + 1,
                };
                proof {
                    self.accepted@ = self.accepted@.push(seg@);
                }
                Ok(())
            },
            Some(expected) => {
                if seg.sequence == expected {
                    let write = bridge.write_all(&seg.buffer);
                    proof {
                        assert(write is Ok);
                    }
                    match &mut self.state {
                        ReceiveState::Receiving { expected_sequence, .. } => {
                            *expected_sequence = seg.sequence + 1;
                        },
                        _ => (),
                    }
                    proof {
                        self.accepted@ = self.accepted@.push(seg@);
                    }
                    Ok(())
                } else {
                    bridge.close_write();
                    self.state = ReceiveState::Joined { success: false };
                    Err(TransferError::SequenceMismatch { expected, received: seg.sequence })
                }
            },
        }
    }

    /// The inbound stream ended normally: close the bridge's write half so
    /// the blocking consumer sees end of stream, and wait to be joined.
    /// An immediately closed stream — no segment at all — takes this path
    /// too and is a valid, empty transfer.
    pub fn stream_closed(&mut self, bridge: &mut PipeBridge)
        requires
            old(self).wf(),
            old(self).is_awaiting() || old(self).is_receiving(),
            old(bridge).wf(),
        ensures
            final(self).wf(),
            final(self).is_draining(),
            final(self).accepted() == old(self).accepted(),
            final(bridge).wf(),
            final(bridge).capacity_spec() == old(bridge).capacity_spec(),
            final(bridge).contents() == old(bridge).contents(),
            final(bridge).write_closed(),
            final(bridge).read_closed() == old(bridge).read_closed(),
    {
        bridge.close_write();
        self.state = ReceiveState::Draining;
    }

    /// Joins the blocking consumer.  Its result is authoritative: the
    /// session fails whenever the native side failed, even though every
    /// segment arrived in order.
    pub fn join(&mut self, native: Result<(), String>) -> (r: Result<(), TransferError>)
        requires
            old(self).wf(),
            old(self).is_draining(),
        ensures
            final(self).wf(),
            final(self).is_joined(),
            final(self).accepted() == old(self).accepted(),
            final(self).joined_success() <==> native is Ok,
            native is Ok <==> r is Ok,
            native matches Err(detail) ==> r matches Err(e)
                && e matches TransferError::NativeOperationFailed { detail: d } && d@ == detail@,
    {
        match native {
            Ok(()) => {
                self.state = ReceiveState::Joined { success: true };
                Ok(())
            },
            Err(detail) => {
                self.state = ReceiveState::Joined { success: false };
                Err(TransferError::NativeOperationFailed { detail })
            },
        }
    }
}

/// Feeds a whole inbound stream through a fresh receiver into the bridge,
/// then signals end of stream.  Success is owed exactly on a well
/// sequenced stream (the empty stream included); on the first break in the
/// numbering the session fails with that mismatch, the payloads before the
/// break already written, and nothing more.
pub fn receive_stream(bridge: &mut PipeBridge, segments: &Vec<Segment>) -> (r: (
    Receiver,
    Result<(), TransferError>,
))
    requires
        old(bridge).wf(),
        !old(bridge).write_closed(),
        !old(bridge).read_closed(),
        forall|i: int|
            0 <= i < segments@.len() ==> (#[trigger] segments@[i])@.sequence < u64::MAX,
    ensures
        r.0.wf(),
        final(bridge).wf(),
        final(bridge).capacity_spec() == old(bridge).capacity_spec(),
        final(bridge).write_closed(),
        r.1 is Ok <==> well_sequenced(seg_views(segments@)),
        r.1 is Ok ==> {
            &&& r.0.is_draining()
            &&& r.0.accepted() == seg_views(segments@)
            &&& final(bridge).contents() == old(bridge).contents() + concat_buffers(
                seg_views(segments@),
            )
        },
        r.1 matches Err(e) ==> ({
            let views = seg_views(segments@);
            let k = first_mismatch(views);
            &&& is_first_mismatch(views, k)
            &&& e == TransferError::SequenceMismatch {
                expected: (views[0].sequence + k) as u64,
                received: views[k].sequence,
            }
            &&& r.0.accepted() == views.take(k)
            &&& final(bridge).contents() == old(bridge).contents() + concat_buffers(
                views.take(k),
            )
        }),
{
    let ghost views = seg_views(segments@);
    let ghost before = bridge.contents();
    let mut receiver = Receiver::new();
    let mut i: usize = 0;
    while i < segments.len()
        invariant
            receiver.wf(),
            bridge.wf(),
            !bridge.write_closed(),
            !bridge.read_closed(),
            bridge.capacity_spec() == old(bridge).capacity_spec(),
            i <= segments@.len(),
            views == seg_views(segments@),
            before == old(bridge).contents(),
            forall|j: int|
                0 <= j < segments@.len() ==> (#[trigger] segments@[j])@.sequence < u64::MAX,
            receiver.accepted() == views.take(i as int),
            i == 0 ==> receiver.is_awaiting(),
            i > 0 ==> receiver.is_receiving() && receiver.expected() as int == views[0].sequence
                + i,
            bridge.contents() =~= before + concat_buffers(views.take(i as int)),
        decreases segments@.len() - i,
    {
        let seg = &segments[i];
        let ghost prefix = receiver.accepted();
        if i == 0 {
            let outcome = receiver.accept(bridge, seg);
            proof {
                assert(outcome is Ok);
                assert(views.take(1) =~= Seq::<SegmentView>::empty().push(views[0]));
                lemma_concat_buffers_push(Seq::<SegmentView>::empty(), views[0]);
                assert(concat_buffers(views.take(0)) =~= Seq::<u8>::empty());
                assert(before + concat_buffers(views.take(0)) =~= before);
                assert(bridge.contents() =~= before + concat_buffers(views.take(1)));
            }
        } else {
            if seg.sequence == receiver.expected_sequence() {
                let outcome = receiver.accept(bridge, seg);
                proof {
                    assert(outcome is Ok);
                    assert(views.take(i + 1) =~= views.take(i as int).push(views[i as int]));
                    lemma_concat_buffers_push(views.take(i as int), views[i as int]);
                    assert(bridge.contents() =~= before + concat_buffers(views.take(i + 1)));
                }
            } else {
                let outcome = receiver.accept(bridge, seg);
                let err = match outcome {
                    Err(e) => e,
                    Ok(()) => {
                        proof {
                            assert(false);
                        }
                        TransferError::ResourceError
                    },
                };
                proof {
                    let k = i as int;
                    assert(views == seg_views(segments@));
                    assert(is_first_mismatch(views, k));
                    lemma_first_mismatch_unique(views, k);
                    assert(err == TransferError::SequenceMismatch {
                        expected: (views[0].sequence + k) as u64,
                        received: views[k].sequence,
                    });
                    assert(receiver.accepted() == views.take(k));
                    assert(bridge.contents() == before + concat_buffers(views.take(k)));
                    assert(first_mismatch(views) == k);
                    assert(views.take(first_mismatch(views)) == views.take(k));
                    assert(bridge.contents() == before + concat_buffers(
                        views.take(first_mismatch(views)),
                    ));
                    assert(!well_sequenced(views));
                }
                return (receiver, Err(err));
            }
        }
        i = i + 1;
        proof {
            if i > 1 {
                assert(views.take(i as int)[0] == views[0]);
            }
        }
    }
    proof {
        assert(views.take(views.len() as int) =~= views);
        if views.len() > 0 {
            assert(consecutive_from(views, views[0].sequence as int));
        }
        assert(well_sequenced(views));
    }
    receiver.stream_closed(bridge);
    (receiver, Ok(()))
}

} // verus!
