//! The segment transmitter.
//!
//! The transmitter drives the sending side of a session: it reads the
//! bridge in capacity-sized chunks and wraps each non-empty chunk in a
//! segment carrying the session's name and the next sequence number,
//! starting at zero.  End of stream ends the emission; no trailing empty
//! segment is produced.  The native producer runs beside it on its own
//! worker and is joined separately (see the session module).

use vstd::prelude::*;

use crate::bridge::PipeBridge;
use crate::segment::{concat_buffers, lemma_concat_buffers_push, seg_views, Segment};

verus! {

/// The sending side's sequence state: the session name and the number the
/// next segment will carry.
pub struct Transmitter {
    name: String,
    sequence: u64,
}

impl Transmitter {
    /// The session name every emitted segment carries.
    pub closed spec fn name_spec(&self) -> Seq<char> {
        self.name@
    }

    /// The sequence number the next segment will carry.
    pub closed spec fn sequence_spec(&self) -> u64 {
        self.sequence
    }

    /// Starts a session: the first segment will carry sequence number zero.
    pub fn new(name: String) -> (t: Transmitter)
        ensures
            t.name_spec() == name@,
            t.sequence_spec() == 0,
    {
        Transmitter { name, sequence: 0 }
    }

    /// Wraps one non-empty chunk in the next segment of the session.
    pub fn next_segment(&mut self, chunk: Vec<u8>) -> (seg: Segment)
        requires
            chunk@.len() > 0,
            old(self).sequence_spec() < u64::MAX,
        ensures
            final(self).name_spec() == old(self).name_spec(),
            final(self).sequence_spec() == old(self).sequence_spec() + 1,
            seg@.name == old(self).name_spec(),
            seg@.sequence == old(self).sequence_spec(),
            seg@.buffer == chunk@,
    {
        let seg = Segment::new(self.name.clone(), self.sequence, chunk);
        self.sequence = self.sequence + 1;
        seg
    }
}

/// Drains the bridge into the session's outbound segments: every segment
/// carries `name`, the sequence numbers count up from zero, every buffer is
/// non-empty and at most one capacity long, and the buffers concatenated in
/// order are exactly the bytes that were in flight.
pub fn transmit(name: &String, bridge: &mut PipeBridge) -> (segs: Vec<Segment>)
    requires
        old(bridge).wf(),
        old(bridge).write_closed(),
    ensures
        final(bridge).wf(),
        final(bridge).write_closed(),
        final(bridge).capacity_spec() == old(bridge).capacity_spec(),
        final(bridge).contents() == Seq::<u8>::empty(),
        concat_buffers(seg_views(segs@)) == old(bridge).contents(),
        forall|i: int|
            0 <= i < segs@.len() ==> {
                &&& (#[trigger] segs@[i])@.name == name@
                &&& segs@[i]@.sequence == i
                &&& 0 < segs@[i]@.buffer.len() <= old(bridge).capacity_spec()
            },
{
    let ghost before = bridge.contents();
    let _pending = bridge.pending();
    let mut transmitter = Transmitter::new(name.clone());
    let mut segs: Vec<Segment> = Vec::new();
    loop
        invariant
            bridge.wf(),
            bridge.write_closed(),
            bridge.capacity_spec() == old(bridge).capacity_spec(),
            transmitter.name_spec() == name@,
            transmitter.sequence_spec() == segs@.len(),
            before.len() <= usize::MAX,
            segs@.len() + bridge.contents().len() <= before.len(),
            concat_buffers(seg_views(segs@)) + bridge.contents() =~= before,
            forall|i: int|
                0 <= i < segs@.len() ==> {
                    &&& (#[trigger] segs@[i])@.name == name@
                    &&& segs@[i]@.sequence == i
                    &&& 0 < segs@[i]@.buffer.len() <= old(bridge).capacity_spec()
                },
        ensures
            bridge.wf(),
            bridge.write_closed(),
            bridge.capacity_spec() == old(bridge).capacity_spec(),
            bridge.contents().len() == 0,
            concat_buffers(seg_views(segs@)) + bridge.contents() =~= before,
            forall|i: int|
                0 <= i < segs@.len() ==> {
                    &&& (#[trigger] segs@[i])@.name == name@
                    &&& segs@[i]@.sequence == i
                    &&& 0 < segs@[i]@.buffer.len() <= old(bridge).capacity_spec()
                },
        decreases bridge.contents().len(),
    {
        let capacity = bridge.capacity();
        proof {
            bridge.lemma_wf_capacity();
        }
        let chunk = bridge.read_chunk(capacity);
        if chunk.len() == 0 {
            break;
        }
        let ghost prev_views = seg_views(segs@);
        let seg = transmitter.next_segment(chunk);
        proof {
            lemma_concat_buffers_push(prev_views, seg@);
            assert(seg_views(segs@.push(seg)) =~= prev_views.push(seg@));
        }
        segs.push(seg);
        proof {
            assert(concat_buffers(seg_views(segs@)) + bridge.contents()
                =~= before);
        }
    }
    proof {
        assert(bridge.contents() =~= Seq::<u8>::empty());
        let ghost all = concat_buffers(seg_views(segs@));
        assert(all + bridge.contents() =~= all);
    }
    segs
}

} // verus!
