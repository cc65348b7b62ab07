//! The buffer model: a linear device resource with declared size, usage and
//! memory location. For host-mappable locations the model carries the bytes
//! the host has written; the unverified driver mirrors them into the mapped
//! device memory. Writes to non-mappable buffers fail here exactly as the
//! mapping fails on the device: there is no hidden staging fallback.

use vstd::prelude::*;

use crate::types::BUFFER_USAGE_SHADER_DEVICE_ADDRESS;
use crate::types::MemoryLocation;

verus! {

/// The attributes a buffer is created with.
#[derive(Clone, Copy, PartialEq, Eq, Structural, Debug)]
pub struct BufferAttributes {
    pub size: u64,
    pub usage: u32,
    pub location: MemoryLocation,
}

/// Why a buffer operation failed.
#[derive(Clone, Copy, PartialEq, Eq, Structural, Debug)]
pub enum BufferError {
    /// The buffer's memory is not host-mappable, so the host cannot write it.
    Mapping,
}

/// `s` with the bytes starting at `at` replaced by `d`.
pub open spec fn spec_splice(s: Seq<u8>, at: int, d: Seq<u8>) -> Seq<u8> {
    s.subrange(0, at) + d + s.subrange(at + d.len(), s.len() as int)
}

/// A device buffer together with the host's view of its bytes.
#[derive(Clone, PartialEq, Eq, Debug)]
pub struct Buffer {
    /// Opaque identifier of the device buffer object.
    pub handle: u64,
    /// The device-visible address, or zero when the usage does not declare
    /// one.
    pub address: u64,
    pub attributes: BufferAttributes,
    /// The bytes the host has written; sized to the buffer for host-mappable
    /// locations and empty otherwise.
    pub data: Vec<u8>,
}

impl Buffer {
    /// A well-formed buffer carries host bytes exactly when its memory is
    /// host-mappable, and carries an address only when its usage declares
    /// one.
    pub open spec fn wf(self) -> bool {
        &&& self.attributes.location.spec_is_host_mappable() ==> self.data@.len()
            == self.attributes.size
        &&& !self.attributes.location.spec_is_host_mappable() ==> self.data@.len() == 0
        &&& (self.attributes.usage & BUFFER_USAGE_SHADER_DEVICE_ADDRESS) == 0 ==> self.address == 0
    }

    /// Adopts a freshly created buffer. The driver passes the queried device
    /// address; it is kept only when the usage declares one. Host-mappable
    /// buffers start with all bytes zero, as freshly allocated upload memory
    /// is treated here.
    pub fn new(handle: u64, device_address: u64, attributes: BufferAttributes) -> (buf: Buffer)
        requires
            attributes.size <= usize::MAX,
        ensures
            buf.wf(),
            buf.handle == handle,
            buf.attributes == attributes,
            buf.address == if (attributes.usage & BUFFER_USAGE_SHADER_DEVICE_ADDRESS) != 0 {
                device_address
            } else {
                0u64
            },
            attributes.location.spec_is_host_mappable() ==> buf.data@ == Seq::<u8>::new(
                attributes.size as nat,
                |i: int| 0u8,
            ),
    {
        let address: u64 = if (attributes.usage & BUFFER_USAGE_SHADER_DEVICE_ADDRESS) != 0 {
            device_address
        } else {
            0
        };
        let mut data: Vec<u8> = Vec::new();
        if attributes.location.is_host_mappable() {
            let n = attributes.size as usize;
            let mut i: usize = 0;
            while i < n
                invariant
                    i <= n,
                    data@ == Seq::<u8>::new(i as nat, |j: int| 0u8),
                decreases n - i,
            {
                data.push(0);
                proof {
                    assert(data@ =~= Seq::<u8>::new((i + 1) as nat, |j: int| 0u8));
                }
                i = i + 1;
            }
        }
        Buffer { handle, address, attributes, data }
    }

    /// Writes `data` at `byte_offset`. Succeeds exactly when the buffer's
    /// memory is host-mappable; otherwise fails with `Mapping` and changes
    /// nothing. The write must lie within the buffer's declared size.
    pub fn write(&mut self, data: &Vec<u8>, byte_offset: u64) -> (r: Result<(), BufferError>)
        requires
            old(self).wf(),
            byte_offset + data@.len() <= old(self).attributes.size,
        ensures
            final(self).wf(),
            final(self).handle == old(self).handle,
            final(self).address == old(self).address,
            final(self).attributes == old(self).attributes,
            old(self).attributes.location.spec_is_host_mappable() ==> {
                &&& r is Ok
                &&& final(self).data@ == spec_splice(old(self).data@, byte_offset as int, data@)
            },
            !old(self).attributes.location.spec_is_host_mappable() ==> {
                &&& r == Result::<(), BufferError>::Err(BufferError::Mapping)
                &&& *final(self) == *old(self)
            },
    {
        if !self.attributes.location.is_host_mappable() {
            return Err(BufferError::Mapping);
        }
        let buf_len = self.data.len();
        proof {
            assert(old(self).attributes.size == buf_len);
        }
        let offset = byte_offset as usize;
        let n = data.len();
        let mut i: usize = 0;
        while i < n
            invariant
                old(self).wf(),
                old(self).attributes.location.spec_is_host_mappable(),
                i <= n,
                n == data@.len(),
                offset == byte_offset,
                byte_offset + n <= old(self).attributes.size,
                old(self).attributes.size <= usize::MAX,
                offset + n <= self.data@.len(),
                self.handle == old(self).handle,
                self.address == old(self).address,
                self.attributes == old(self).attributes,
                self.data@.len() == old(self).data@.len(),
                forall|j: int| 0 <= j < offset ==> self.data@[j] == old(self).data@[j],
                forall|j: int| 0 <= j < i ==> self.data@[offset + j] == data@[j],
                forall|j: int|
                    offset + n <= j < self.data@.len() ==> self.data@[j] == old(self).data@[j],
            decreases n - i,
        {
            let b = data[i];
            self.data.set(offset + i, b);
            i = i + 1;
        }
        proof {
            assert(self.data@ =~= spec_splice(old(self).data@, byte_offset as int, data@));
        }
        Ok(())
    }
}

} // verus!
