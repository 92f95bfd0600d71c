//! The unit of transfer.
//!
//! A segment carries the dataset name, a sequence number and one chunk of
//! the byte stream.  Within one session the sequence numbers rise by exactly
//! one from the first segment's value and the name never changes; the end of
//! the stream is signaled by closure of the channel, not by a sentinel
//! segment.

use vstd::prelude::*;

verus! {

/// One sequenced chunk of a transferred byte stream.
#[derive(Debug)]
pub struct Segment {
    /// The dataset or snapshot the stream belongs to.
    pub name: String,
    /// Position of this segment in the session, counted from the first
    /// segment's value.
    pub sequence: u64,
    /// The chunk of payload bytes.
    pub buffer: Vec<u8>,
}

/// The mathematical image of a [`Segment`].
pub struct SegmentView {
    pub name: Seq<char>,
    pub sequence: u64,
    pub buffer: Seq<u8>,
}

impl View for Segment {
    type V = SegmentView;

    open spec fn view(&self) -> SegmentView {
        SegmentView { name: self.name@, sequence: self.sequence, buffer: self.buffer@ }
    }
}

impl Segment {
    /// Builds a segment from its three parts.
    pub fn new(name: String, sequence: u64, buffer: Vec<u8>) -> (seg: Segment)
        ensures
            seg@.name == name@,
            seg@.sequence == sequence,
            seg@.buffer == buffer@,
    {
        Segment { name, sequence, buffer }
    }
}

/// The mathematical image of a sequence of segments.
pub open spec fn seg_views(segs: Seq<Segment>) -> Seq<SegmentView> {
    segs.map_values(|s: Segment| s@)
}

/// Holds when the sequence numbers of `segs` rise by exactly one from
/// `first`: `segs[i].sequence == first + i`.
pub open spec fn consecutive_from(segs: Seq<SegmentView>, first: int) -> bool {
    forall|i: int| 0 <= i < segs.len() ==> #[trigger] segs[i].sequence == first + i
}

/// Holds when the whole inbound sequence obeys the session numbering
/// invariant: empty, or rising by one from its first segment's value.
pub open spec fn well_sequenced(segs: Seq<SegmentView>) -> bool {
    segs.len() == 0 || consecutive_from(segs, segs[0].sequence as int)
}

/// Holds when position `k` is the first break in the numbering: the
/// segments before `k` rise by one from the first segment's value and the
/// one at `k` does not continue them.
pub open spec fn is_first_mismatch(segs: Seq<SegmentView>, k: int) -> bool {
    &&& 1 <= k < segs.len()
    &&& consecutive_from(segs.take(k), segs[0].sequence as int)
    &&& segs[k].sequence != segs[0].sequence + k
}

/// A stream numbered upward from zero — as the transmitter emits it — is
/// well sequenced, so the receiver accepts it whole: together with the
/// transmitter's and receiver's own contracts, a transmitted byte sequence
/// is reproduced exactly on the receiving side.
pub proof fn lemma_numbered_from_zero_well_sequenced(segs: Seq<SegmentView>)
    requires
        forall|i: int| 0 <= i < segs.len() ==> (#[trigger] segs[i]).sequence == i,
    ensures
        well_sequenced(segs),
{
}

/// The position of the first break in the numbering, when there is one:
/// the unique `k` with `is_first_mismatch(segs, k)`.
pub open spec fn first_mismatch(segs: Seq<SegmentView>) -> int {
    choose|k: int| is_first_mismatch(segs, k)
}

/// At most one position can be the first break in the numbering, so
/// `first_mismatch` names exactly the position found.
pub proof fn lemma_first_mismatch_unique(segs: Seq<SegmentView>, k: int)
    requires
        is_first_mismatch(segs, k),
    ensures
        first_mismatch(segs) == k,
{
    let k2 = choose|j: int| is_first_mismatch(segs, j);
    assert(is_first_mismatch(segs, k2));
    if k2 < k {
        assert(segs.take(k)[k2].sequence == segs[0].sequence + k2);
        assert(segs.take(k)[k2] == segs[k2]);
    } else if k < k2 {
        assert(segs.take(k2)[k].sequence == segs[0].sequence + k);
        assert(segs.take(k2)[k] == segs[k]);
    }
}

/// The payload of `segs`: the buffers concatenated in order.
pub open spec fn concat_buffers(segs: Seq<SegmentView>) -> Seq<u8>
    decreases segs.len(),
{
    if segs.len() == 0 {
        Seq::<u8>::empty()
    } else {
        segs[0].buffer + concat_buffers(segs.skip(1))
    }
}

/// Appending a segment appends its buffer to the concatenated payload.
pub proof fn lemma_concat_buffers_push(segs: Seq<SegmentView>, seg: SegmentView)
    ensures
        concat_buffers(segs.push(seg)) == concat_buffers(segs) + seg.buffer,
    decreases segs.len(),
{
    if segs.len() == 0 {
        let pushed = segs.push(seg);
        assert(pushed.skip(1) =~= Seq::<SegmentView>::empty());
        assert(pushed[0] == seg);
        assert(concat_buffers(pushed) == seg.buffer + concat_buffers(Seq::<SegmentView>::empty()));
        assert(concat_buffers(segs.push(seg)) =~= concat_buffers(segs) + seg.buffer);
    } else {
        assert(segs.push(seg).skip(1) =~= segs.skip(1).push(seg));
        lemma_concat_buffers_push(segs.skip(1), seg);
        assert(concat_buffers(segs.push(seg)) =~= concat_buffers(segs) + seg.buffer);
    }
}

} // verus!
