//! The pipe bridge: a bounded in-process byte channel.
//!
//! The bridge connects the blocking execution context (the native storage
//! call, or the external process) to the asynchronous one (the segment
//! transmitter or receiver).  Its capacity is fixed when it is opened, from
//! the operating system's probe of the channel's maximum atomic transfer
//! size, and sets the chunk size of the session's segments.
//!
//! This model keeps the two halves in one value and serializes their
//! operations; the interleaving of the two execution contexts is the
//! runtime's business and stays outside the crate.  Closing the write half
//! is the sole termination signal: a read on an empty bridge whose write
//! half is closed returns zero bytes (end of stream) rather than an error,
//! and a write after the read half is closed reports closure to the writer.

use vstd::prelude::*;

use crate::error::TransferError;

verus! {

/// The fallback chunk size when the operating system's probe reports a
/// pathologically small capacity.
pub const MIN_CAPACITY: usize = 512;

/// A bounded in-process byte channel with a read half and a write half.
pub struct PipeBridge {
    capacity: usize,
    buffer: Vec<u8>,
    head: usize,
    write_closed: bool,
    read_closed: bool,
}

impl PipeBridge {
    /// The bytes written but not yet read, oldest first.
    pub closed spec fn contents(&self) -> Seq<u8> {
        self.buffer@.skip(self.head as int)
    }

    /// The chunk size fixed when the bridge was opened.
    pub closed spec fn capacity_spec(&self) -> usize {
        self.capacity
    }

    /// Whether the write half has been closed.
    pub closed spec fn write_closed(&self) -> bool {
        self.write_closed
    }

    /// Whether the read half has been closed.
    pub closed spec fn read_closed(&self) -> bool {
        self.read_closed
    }

    /// Internal consistency: the read position lies inside the buffer and
    /// the capacity is positive.
    pub closed spec fn wf(&self) -> bool {
        self.head <= self.buffer@.len() && self.capacity >= 1
    }

    /// A well-formed bridge always has a positive capacity.
    pub proof fn lemma_wf_capacity(&self)
        requires
            self.wf(),
        ensures
            self.capacity_spec() >= 1,
    {
    }

    /// Opens a bridge sized by the operating system's probe of the
    /// channel's maximum atomic transfer size, raised to [`MIN_CAPACITY`]
    /// when the probe reports less.
    pub fn open(probed: usize) -> (bridge: PipeBridge)
        ensures
            bridge.wf(),
            bridge.capacity_spec() == if probed >= MIN_CAPACITY {
                probed
            } else {
                MIN_CAPACITY
            },
            bridge.contents() == Seq::<u8>::empty(),
            !bridge.write_closed(),
            !bridge.read_closed(),
    {
        let capacity: usize = if probed >= MIN_CAPACITY {
            probed
        } else {
            MIN_CAPACITY
        };
        let bridge = PipeBridge {
            capacity,
            buffer: Vec::new(),
            head: 0,
            write_closed: false,
            read_closed: false,
        };
        assert(bridge.contents() =~= Seq::<u8>::empty());
        bridge
    }

    /// The chunk size fixed when the bridge was opened.
    pub fn capacity(&self) -> (c: usize)
        ensures
            c == self.capacity_spec(),
    {
        self.capacity
    }

    /// How many bytes are in flight.
    pub fn pending(&self) -> (n: usize)
        requires
            self.wf(),
        ensures
            n == self.contents().len(),
    {
        self.buffer.len() - self.head
    }

    /// Writes the whole of `data` into the bridge, or reports that the
    /// read half was closed: the peer aborted, and the writer must treat
    /// the closure as fatal.
    pub fn write_all(&mut self, data: &Vec<u8>) -> (r: Result<(), TransferError>)
        requires
            old(self).wf(),
            !old(self).write_closed(),
        ensures
            final(self).wf(),
            final(self).capacity_spec() == old(self).capacity_spec(),
            final(self).write_closed() == old(self).write_closed(),
            final(self).read_closed() == old(self).read_closed(),
            r is Ok <==> !old(self).read_closed(),
            r is Ok ==> final(self).contents() == old(self).contents() + data@,
            r is Err ==> final(self).contents() == old(self).contents()
                && r == Err::<(), TransferError>(TransferError::ResourceError),
    {
        if self.read_closed {
            return Err(TransferError::ResourceError);
        }
        let ghost before = self.contents();
        let mut i: usize = 0;
        while i < data.len()
            invariant
                i <= data@.len(),
                self.head <= self.buffer@.len(),
                self.capacity == old(self).capacity,
                self.write_closed == old(self).write_closed,
                self.read_closed == old(self).read_closed,
                self.head == old(self).head,
                self.contents() =~= before + data@.take(i as int),
            decreases data@.len() - i,
        {
            let ghost prev = self.buffer@;
            self.buffer.push(data[i]);
            proof {
                assert(self.buffer@ =~= prev.push(data@[i as int]));
                assert(self.buffer@.skip(self.head as int) =~= prev.skip(self.head as int).push(
                    data@[i as int],
                ));
                assert(data@.take(i + 1) =~= data@.take(i as int).push(data@[i as int]));
                assert(self.buffer@.skip(self.head as int) =~= before + data@.take(i + 1));
            }
            i = i + 1;
        }
        assert(data@.take(data@.len() as int) =~= data@);
        Ok(())
    }

    /// Reads at most `max` bytes from the front of the bridge.  An empty
    /// result is the end-of-stream signal and comes only once the write
    /// half is closed; a read that would block (nothing in flight, write
    /// half still open) is outside this sequential model.
    pub fn read_chunk(&mut self, max: usize) -> (chunk: Vec<u8>)
        requires
            old(self).wf(),
            max >= 1,
            old(self).contents().len() > 0 || old(self).write_closed(),
        ensures
            final(self).wf(),
            final(self).capacity_spec() == old(self).capacity_spec(),
            final(self).write_closed() == old(self).write_closed(),
            final(self).read_closed() == old(self).read_closed(),
            chunk@.len() == if old(self).contents().len() < max as int {
                old(self).contents().len() as int
            } else {
                max as int
            },
            chunk@ == old(self).contents().take(chunk@.len() as int),
            final(self).contents() == old(self).contents().skip(chunk@.len() as int),
    {
        let ghost before = self.contents();
        let pending = self.buffer.len() - self.head;
        let count = if pending < max {
            pending
        } else {
            max
        };
        let mut chunk: Vec<u8> = Vec::new();
        let mut i: usize = 0;
        while i < count
            invariant
                i <= count,
                self.head + count <= self.buffer@.len(),
                self.buffer@.len() <= usize::MAX,
                self.head == old(self).head,
                self.buffer == old(self).buffer,
                self.capacity == old(self).capacity,
                self.write_closed == old(self).write_closed,
                self.read_closed == old(self).read_closed,
                before == self.buffer@.skip(self.head as int),
                chunk@ =~= before.take(i as int),
            decreases count - i,
        {
            let ghost prev = chunk@;
            chunk.push(self.buffer[self.head + i]);
            proof {
                assert(self.buffer@[self.head + i] == before[i as int]);
                assert(before.take(i + 1) =~= before.take(i as int).push(before[i as int]));
                assert(chunk@ =~= before.take(i + 1));
            }
            i = i + 1;
        }
        self.head = self.head + count;
        assert(self.contents() =~= before.skip(count as int));
        chunk
    }

    /// Closes the write half.  Whatever is still in flight stays readable;
    /// the next read past it observes end of stream.
    pub fn close_write(&mut self)
        requires
            old(self).wf(),
        ensures
            final(self).wf(),
            final(self).capacity_spec() == old(self).capacity_spec(),
            final(self).contents() == old(self).contents(),
            final(self).write_closed(),
            final(self).read_closed() == old(self).read_closed(),
    {
        self.write_closed = true;
    }

    /// Closes the read half, signaling cancellation to the writer: its
    /// next write observes the closure.
    pub fn close_read(&mut self)
        requires
            old(self).wf(),
        ensures
            final(self).wf(),
            final(self).capacity_spec() == old(self).capacity_spec(),
            final(self).contents() == old(self).contents(),
            final(self).write_closed() == old(self).write_closed(),
            final(self).read_closed(),
    {
        self.read_closed = true;
    }

    /// The blocking consumer's read loop once the write half is closed: it
    /// reads capacity-sized chunks until it observes end of stream, and
    /// terminates.  The result is exactly what was in flight.
    pub fn drain(&mut self) -> (bytes: Vec<u8>)
        requires
            old(self).wf(),
            old(self).write_closed(),
        ensures
            final(self).wf(),
            final(self).capacity_spec() == old(self).capacity_spec(),
            final(self).write_closed(),
            final(self).read_closed() == old(self).read_closed(),
            bytes@ == old(self).contents(),
            final(self).contents() == Seq::<u8>::empty(),
    {
        let ghost before = self.contents();
        let mut bytes: Vec<u8> = Vec::new();
        loop
            invariant
                self.wf(),
                self.write_closed(),
                self.read_closed() == old(self).read_closed(),
                self.capacity_spec() == old(self).capacity_spec(),
                bytes@ + self.contents() =~= before,
            ensures
                self.wf(),
                self.write_closed(),
                self.read_closed() == old(self).read_closed(),
                self.capacity_spec() == old(self).capacity_spec(),
                bytes@ + self.contents() =~= before,
                self.contents().len() == 0,
            decreases self.contents().len(),
        {
            let chunk = self.read_chunk(self.capacity);
            if chunk.len() == 0 {
                break;
            }
            let mut j: usize = 0;
            let ghost bytes_before = bytes@;
            while j < chunk.len()
                invariant
                    j <= chunk@.len(),
                    bytes@ =~= bytes_before + chunk@.take(j as int),
                decreases chunk@.len() - j,
            {
                bytes.push(chunk[j]);
                assert(bytes@ =~= bytes_before + chunk@.take(j + 1));
                j = j + 1;
            }
            assert(chunk@.take(chunk@.len() as int) =~= chunk@);
            assert(bytes@ + self.contents() =~= before);
        }
        proof {
            assert(self.contents() =~= Seq::<u8>::empty());
            assert(bytes@ =~= bytes@ + self.contents());
        }
        bytes
    }
}

} // verus!
