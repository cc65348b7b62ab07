//! The staging belt: one host-visible buffer with two independent monotonic
//! cursors. Host writes land at the write cursor; recorded device-side
//! copies read from the copy cursor. All bytes in `[0, write_cursor)` hold
//! staged data and all copies recorded so far read from `[0, copy_cursor)`.
//! Both cursors reset only once every copy of a batch has been recorded; the
//! caller must fence the command buffer before reusing the belt, which is
//! why copies already recorded still read the bytes they were given even
//! after the cursors reset.

use vstd::prelude::*;

use crate::buffer::Buffer;
use crate::buffer::spec_splice;
use crate::commands::Commands;
use crate::commands::RecordedCommand;
use crate::commands::spec_ensure_image;
use crate::commands::spec_ensure_ops;
use crate::commands::spec_layers_of;
use crate::image::Image;
use crate::sync_state::ImageLayout;
use crate::sync_state::spec_transfer_destination;
use crate::types::MemoryLocation;

verus! {

/// Why a belt operation failed.
#[derive(Clone, Copy, PartialEq, Eq, Structural, Debug)]
pub enum BeltError {
    /// The write would run past the belt's fixed capacity. Capacity is sized
    /// once to a batch's planned uploads, so this is a caller sizing bug.
    CapacityExceeded,
}

/// A bump-allocated host-visible transfer buffer for one batch of uploads.
pub struct StagingBelt {
    /// The host-visible buffer the belt writes into and copies out of.
    pub buffer: Buffer,
    /// Where the next host write lands.
    pub write_cursor: u64,
    /// Where the next recorded device-side copy reads from.
    pub copy_cursor: u64,
}

/// Where the write cursor stands after one write of `len` bytes against
/// capacity `cap`: advanced on success, unchanged when the write would
/// overflow.
pub open spec fn spec_write_cursor_step(cursor: int, len: int, cap: int) -> int {
    if cursor + len <= cap {
        cursor + len
    } else {
        cursor
    }
}

/// The sum of the byte lengths of a sequence of writes.
pub open spec fn spec_total_len(writes: Seq<Seq<u8>>) -> int
    decreases writes.len(),
{
    if writes.len() == 0 {
        0
    } else {
        spec_total_len(writes.drop_last()) + writes.last().len()
    }
}

/// Where the write cursor stands after a sequence of writes.
pub open spec fn spec_cursor_after_writes(cursor: int, writes: Seq<Seq<u8>>, cap: int) -> int
    decreases writes.len(),
{
    if writes.len() == 0 {
        cursor
    } else {
        spec_write_cursor_step(
            spec_cursor_after_writes(cursor, writes.drop_last(), cap),
            writes.last().len() as int,
            cap,
        )
    }
}

/// For any sequence of writes whose total size fits the capacity, every
/// write succeeds and the final write cursor equals the sum of the written
/// byte lengths.
pub proof fn lemma_belt_writes_accumulate(writes: Seq<Seq<u8>>, cap: int)
    requires
        spec_total_len(writes) <= cap,
    ensures
        spec_cursor_after_writes(0, writes, cap) == spec_total_len(writes),
    decreases writes.len(),
{
    if writes.len() > 0 {
        lemma_total_len_nonnegative(writes.drop_last());
        lemma_belt_writes_accumulate(writes.drop_last(), cap);
    }
}

/// The total length of a sequence of writes is never negative.
pub proof fn lemma_total_len_nonnegative(writes: Seq<Seq<u8>>)
    ensures
        spec_total_len(writes) >= 0,
    decreases writes.len(),
{
    if writes.len() > 0 {
        lemma_total_len_nonnegative(writes.drop_last());
    }
}

impl StagingBelt {
    /// A well-formed belt: its buffer is a well-formed upload buffer and
    /// both cursors lie within the capacity.
    pub open spec fn wf(self) -> bool {
        &&& self.buffer.wf()
        &&& self.buffer.attributes.location == MemoryLocation::CpuToGpu
        &&& self.write_cursor <= self.spec_capacity()
        &&& self.copy_cursor <= self.spec_capacity()
    }

    /// The belt's fixed capacity: its buffer's declared size.
    pub open spec fn spec_capacity(self) -> u64 {
        self.buffer.attributes.size
    }

    /// The belt's fixed capacity in bytes.
    pub fn capacity(&self) -> (r: u64)
        ensures
            r == self.spec_capacity(),
    {
        self.buffer.attributes.size
    }

    /// Adopts an upload buffer as a fresh belt with both cursors at zero.
    pub fn new(buffer: Buffer) -> (belt: StagingBelt)
        requires
            buffer.wf(),
            buffer.attributes.location == MemoryLocation::CpuToGpu,
        ensures
            belt.wf(),
            belt.buffer == buffer,
            belt.write_cursor == 0,
            belt.copy_cursor == 0,
    {
        StagingBelt { buffer, write_cursor: 0, copy_cursor: 0 }
    }

    /// Appends host data at the write cursor and advances it by the data's
    /// length. Fails with `CapacityExceeded`, mutating neither cursor nor
    /// buffer, when the write would run past the capacity.
    pub fn write(&mut self, data: &Vec<u8>) -> (r: Result<(), BeltError>)
        requires
            old(self).wf(),
        ensures
            final(self).wf(),
            final(self).copy_cursor == old(self).copy_cursor,
            final(self).buffer.handle == old(self).buffer.handle,
            final(self).buffer.address == old(self).buffer.address,
            final(self).buffer.attributes == old(self).buffer.attributes,
            final(self).write_cursor == spec_write_cursor_step(
                old(self).write_cursor as int,
                data@.len() as int,
                old(self).spec_capacity() as int,
            ),
            old(self).write_cursor + data@.len() <= old(self).spec_capacity() ==> {
                &&& r is Ok
                &&& final(self).write_cursor == old(self).write_cursor + data@.len()
                &&& final(self).buffer.data@ == spec_splice(
                    old(self).buffer.data@,
                    old(self).write_cursor as int,
                    data@,
                )
            },
            old(self).write_cursor + data@.len() > old(self).spec_capacity() ==> {
                &&& r == Result::<(), BeltError>::Err(BeltError::CapacityExceeded)
                &&& final(self).write_cursor == old(self).write_cursor
                &&& final(self).buffer.data@ == old(self).buffer.data@
            },
    {
        let len = data.len();
        let cap = self.buffer.attributes.size;
        if (len as u64) > cap - self.write_cursor {
            return Err(BeltError::CapacityExceeded);
        }
        let r = self.buffer.write(data, self.write_cursor);
        match r {
            Ok(()) => {
                self.write_cursor = self.write_cursor + len as u64;
                Ok(())
            },
            Err(_) => {
                proof {
                    assert(false);
                }
                Err(BeltError::CapacityExceeded)
            },
        }
    }

    /// Records a device-side copy of the destination's whole declared size
    /// from the belt at the copy cursor, then advances the copy cursor by
    /// that size.
    pub fn copy_to(&mut self, buffer: &Buffer, commands: &mut Commands)
        requires
            old(self).wf(),
            old(self).copy_cursor + buffer.attributes.size <= old(self).spec_capacity(),
        ensures
            final(self).wf(),
            final(self).buffer == old(self).buffer,
            final(self).write_cursor == old(self).write_cursor,
            final(self).copy_cursor == old(self).copy_cursor + buffer.attributes.size,
            final(commands).command_buffer == old(commands).command_buffer,
            final(commands).ops@ == old(commands).ops@.push(
                RecordedCommand::CopyBuffer {
                    src: old(self).buffer.handle,
                    dst: buffer.handle,
                    src_offset: old(self).copy_cursor,
                    size: buffer.attributes.size,
                },
            ),
    {
        commands.copy_buffer(&self.buffer, buffer, self.copy_cursor);
        self.copy_cursor = self.copy_cursor + buffer.attributes.size;
    }

    /// Records a device-side copy from the belt at the copy cursor into the
    /// whole image (lazily transitioned to transfer-destination), then
    /// advances the copy cursor by the image's byte size: width times height
    /// times four bytes per texel.
    pub fn copy_image_to(&mut self, image: &mut Image, commands: &mut Commands)
        requires
            old(self).wf(),
            old(image).attributes.extent.width * old(image).attributes.extent.height * 4
                <= u32::MAX,
            old(self).copy_cursor + old(image).attributes.extent.width * old(
                image,
            ).attributes.extent.height * 4 <= old(self).spec_capacity(),
        ensures
            final(self).wf(),
            final(self).buffer == old(self).buffer,
            final(self).write_cursor == old(self).write_cursor,
            final(self).copy_cursor == old(self).copy_cursor + old(image).attributes.extent.width
                * old(image).attributes.extent.height * 4,
            *final(image) == spec_ensure_image(*old(image), spec_transfer_destination()),
            final(commands).command_buffer == old(commands).command_buffer,
            final(commands).ops@ == spec_ensure_ops(
                old(commands).ops@,
                *old(image),
                spec_transfer_destination(),
            ).push(
                RecordedCommand::CopyBufferToImage {
                    src: old(self).buffer.handle,
                    src_offset: old(self).copy_cursor,
                    dst: old(image).handle,
                    dst_layout: ImageLayout::TransferDstOptimal,
                    extent: old(image).attributes.extent,
                    layers: spec_layers_of(*old(image)),
                },
            ),
    {
        let size = image.attributes.extent.width * image.attributes.extent.height * 4;
        commands.copy_buffer_to_image(&self.buffer, image, self.copy_cursor);
        self.copy_cursor = self.copy_cursor + size as u64;
    }

    /// Stages a vertex/index pair: writes the vertex bytes and records their
    /// copy into the vertex buffer, then the same for the index bytes. The
    /// cursors must have room for both; then both writes succeed.
    pub fn stage_geometry(
        &mut self,
        vertex_data: &Vec<u8>,
        vertex_buffer: &Buffer,
        index_data: &Vec<u8>,
        index_buffer: &Buffer,
        commands: &mut Commands,
    ) -> (r: Result<(), BeltError>)
        requires
            old(self).wf(),
            old(self).write_cursor + vertex_data@.len() + index_data@.len() <= old(
                self,
            ).spec_capacity(),
            old(self).copy_cursor + vertex_buffer.attributes.size + index_buffer.attributes.size
                <= old(self).spec_capacity(),
        ensures
            final(self).wf(),
            r is Ok,
            final(self).write_cursor == old(self).write_cursor + vertex_data@.len()
                + index_data@.len(),
            final(self).copy_cursor == old(self).copy_cursor + vertex_buffer.attributes.size
                + index_buffer.attributes.size,
            final(self).buffer.attributes == old(self).buffer.attributes,
            final(self).buffer.handle == old(self).buffer.handle,
            final(self).buffer.data@ == spec_splice(
                spec_splice(old(self).buffer.data@, old(self).write_cursor as int, vertex_data@),
                old(self).write_cursor + vertex_data@.len(),
                index_data@,
            ),
            final(commands).command_buffer == old(commands).command_buffer,
            final(commands).ops@ == old(commands).ops@.push(
                RecordedCommand::CopyBuffer {
                    src: old(self).buffer.handle,
                    dst: vertex_buffer.handle,
                    src_offset: old(self).copy_cursor,
                    size: vertex_buffer.attributes.size,
                },
            ).push(
                RecordedCommand::CopyBuffer {
                    src: old(self).buffer.handle,
                    dst: index_buffer.handle,
                    src_offset: (old(self).copy_cursor + vertex_buffer.attributes.size) as u64,
                    size: index_buffer.attributes.size,
                },
            ),
    {
        let r1 = self.write(vertex_data);
        match r1 {
            Ok(()) => (),
            Err(_) => {
                proof {
                    assert(false);
                }
                return Err(BeltError::CapacityExceeded);
            },
        }
        self.copy_to(vertex_buffer, commands);
        let r2 = self.write(index_data);
        match r2 {
            Ok(()) => (),
            Err(_) => {
                proof {
                    assert(false);
                }
                return Err(BeltError::CapacityExceeded);
            },
        }
        self.copy_to(index_buffer, commands);
        Ok(())
    }

    /// Resets both cursors to zero for the next batch. Must only be called
    /// once all copies of the batch have been recorded, against a command
    /// buffer the caller fences before reusing the belt.
    pub fn done(&mut self)
        ensures
            *final(self) == (StagingBelt { write_cursor: 0, copy_cursor: 0, ..*old(self) }),
    {
        self.write_cursor = 0;
        self.copy_cursor = 0;
    }
}

} // verus!
