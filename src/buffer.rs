//! Buffers: what kind of data they hold, how they are updated, and the checked byte copy
//! that every update goes through.
use vstd::prelude::*;

use crate::error::Error;

verus! {

/// The kind of data a buffer holds.
#[derive(Clone, Copy, Debug, PartialEq, Eq, Structural)]
pub enum BufferType {
    Vertex,
    /// 16-bit indices.
    Index16,
    /// 32-bit indices.
    Index32,
    Uniform,
    Storage,
}

/// How a buffer is expected to be updated, which decides where its memory lives.
#[derive(Clone, Copy, Debug, PartialEq, Eq, Structural)]
pub enum BufferUsage {
    /// Set once or rarely; each write goes through a temporary staging buffer into memory
    /// only the device can read.
    Staged,
    /// Set seldom; writes go through a staging buffer created on the first write and kept.
    StagedPersistent,
    /// Updated often; host-visible memory is mapped for each write.
    Mapped,
    /// Updated every frame; host-visible memory stays mapped for the buffer's lifetime and
    /// each write flushes the range it touched.
    MappedPersistent,
}

/// How one write reaches the buffer's memory. Byte ranges are given by offset and size.
#[derive(Clone, Copy, Debug, PartialEq, Eq, Structural)]
pub enum WritePlan {
    /// Create a mapped staging buffer of `size` bytes, fill it, copy it to `offset` of the
    /// buffer, wait for the copy and destroy the staging buffer.
    StageTemporary { size: u64, offset: u64 },
    /// Create the persistent staging buffer of the buffer's full size first when
    /// `create_staging` is set; then map it, fill it, copy `size` bytes to `offset` and unmap.
    StagePersistent { create_staging: bool, size: u64, offset: u64 },
    /// Map the buffer's memory, fill the range at `offset`, unmap.
    MapTemporary { size: u64, offset: u64 },
    /// Fill the persistently mapped range at `offset` and flush `size` bytes there.
    WriteAndFlush { size: u64, offset: u64 },
}

/// Raw buffer usage flags.
pub const USAGE_TRANSFER_SRC: u32 = 0x1;
pub const USAGE_TRANSFER_DST: u32 = 0x2;
pub const USAGE_UNIFORM_BUFFER: u32 = 0x10;
pub const USAGE_STORAGE_BUFFER: u32 = 0x20;
pub const USAGE_INDEX_BUFFER: u32 = 0x40;
pub const USAGE_VERTEX_BUFFER: u32 = 0x80;

/// Where a buffer's memory lives.
#[derive(Clone, Copy, Debug, PartialEq, Eq, Structural)]
pub enum MemoryLocation {
    /// Device-local memory only the device reads; filled through staging copies.
    GpuOnly,
    /// Host-visible memory the device reads directly.
    CpuToGpu,
}

pub open spec fn usage_flags_spec(ty: BufferType, usage: BufferUsage) -> u32 {
    (match ty {
        BufferType::Vertex => USAGE_VERTEX_BUFFER,
        BufferType::Index16 | BufferType::Index32 => USAGE_INDEX_BUFFER,
        BufferType::Uniform => USAGE_UNIFORM_BUFFER,
        BufferType::Storage => USAGE_STORAGE_BUFFER,
    }) | (match usage {
        BufferUsage::Staged | BufferUsage::StagedPersistent => USAGE_TRANSFER_DST,
        BufferUsage::Mapped | BufferUsage::MappedPersistent => 0,
    })
}

/// Raw usage flags of a buffer: what its type binds it as, and, when it is filled through
/// staging copies, a transfer destination.
pub fn usage_flags(ty: BufferType, usage: BufferUsage) -> (r: u32)
    ensures
        r == usage_flags_spec(ty, usage),
{
    let base = match ty {
        BufferType::Vertex => USAGE_VERTEX_BUFFER,
        BufferType::Index16 | BufferType::Index32 => USAGE_INDEX_BUFFER,
        BufferType::Uniform => USAGE_UNIFORM_BUFFER,
        BufferType::Storage => USAGE_STORAGE_BUFFER,
    };
    let transfer = match usage {
        BufferUsage::Staged | BufferUsage::StagedPersistent => USAGE_TRANSFER_DST,
        BufferUsage::Mapped | BufferUsage::MappedPersistent => 0,
    };
    base | transfer
}

/// Staged buffers live in device-local memory, mapped ones in host-visible memory.
pub fn memory_location(usage: BufferUsage) -> (r: MemoryLocation)
    ensures
        r == (if usage == BufferUsage::Staged || usage == BufferUsage::StagedPersistent {
            MemoryLocation::GpuOnly
        } else {
            MemoryLocation::CpuToGpu
        }),
{
    match usage {
        BufferUsage::Staged | BufferUsage::StagedPersistent => MemoryLocation::GpuOnly,
        BufferUsage::Mapped | BufferUsage::MappedPersistent => MemoryLocation::CpuToGpu,
    }
}

/// Only persistently mapped buffers are created mapped.
pub fn created_mapped(usage: BufferUsage) -> (r: bool)
    ensures
        r == (usage == BufferUsage::MappedPersistent),
{
    match usage {
        BufferUsage::MappedPersistent => true,
        _ => false,
    }
}

/// A write of `size` bytes at `offset` stays within `capacity` bytes.
pub open spec fn fits(size: int, offset: int, capacity: int) -> bool {
    offset + size <= capacity
}

/// The plan for a write of `size` bytes at `offset` into a buffer of this usage.
pub open spec fn plan_spec(usage: BufferUsage, has_staging: bool, size: u64, offset: u64) -> WritePlan {
    match usage {
        BufferUsage::Staged => WritePlan::StageTemporary { size, offset },
        BufferUsage::StagedPersistent => WritePlan::StagePersistent { create_staging: !has_staging, size, offset },
        BufferUsage::Mapped => WritePlan::MapTemporary { size, offset },
        BufferUsage::MappedPersistent => WritePlan::WriteAndFlush { size, offset },
    }
}

/// `memory` after `data` was copied to it at `offset`.
pub open spec fn written(memory: Seq<u8>, offset: int, data: Seq<u8>) -> Seq<u8> {
    memory.take(offset) + data + memory.skip(offset + data.len())
}

/// A buffer's description: its capacity in bytes, type, usage, and whether its persistent
/// staging buffer exists. The device memory itself belongs to the caller.
pub struct Buffer {
    size: u64,
    ty: BufferType,
    usage: BufferUsage,
    has_staging: bool,
}

impl Buffer {
    pub closed spec fn spec_size(&self) -> u64 {
        self.size
    }

    pub closed spec fn spec_ty(&self) -> BufferType {
        self.ty
    }

    pub closed spec fn spec_usage(&self) -> BufferUsage {
        self.usage
    }

    pub closed spec fn spec_has_staging(&self) -> bool {
        self.has_staging
    }

    /// A buffer of exactly `size` bytes, without a staging buffer.
    pub fn new(ty: BufferType, usage: BufferUsage, size: u64) -> (r: Self)
        ensures
            r.spec_size() == size,
            r.spec_ty() == ty,
            r.spec_usage() == usage,
            !r.spec_has_staging(),
    {
        Buffer { size, ty, usage, has_staging: false }
    }

    /// Decides how a write of `size` bytes at `offset` is carried out. A write that would
    /// exceed the capacity fails with `BufferOverflow`, reporting the requested size and the
    /// capacity, and changes nothing. The first persistent-staging write asks for the staging
    /// buffer to be created; it is reused afterwards.
    pub fn write(&mut self, size: u64, offset: u64) -> (r: Result<WritePlan, Error>)
        ensures
            fits(size as int, offset as int, old(self).spec_size() as int) ==> r == Ok::<WritePlan, Error>(
                plan_spec(old(self).spec_usage(), old(self).spec_has_staging(), size, offset),
            ),
            !fits(size as int, offset as int, old(self).spec_size() as int) ==> r == Err::<WritePlan, Error>(
                Error::BufferOverflow { size, max_size: old(self).spec_size() },
            ),
            final(self).spec_size() == old(self).spec_size(),
            final(self).spec_ty() == old(self).spec_ty(),
            final(self).spec_usage() == old(self).spec_usage(),
            final(self).spec_has_staging() == (old(self).spec_has_staging() || (fits(
                size as int,
                offset as int,
                old(self).spec_size() as int,
            ) && old(self).spec_usage() == BufferUsage::StagedPersistent)),
    {
        if size > self.size || offset > self.size - size {
            return Err(Error::BufferOverflow { size, max_size: self.size });
        }
        match self.usage {
            BufferUsage::Staged => Ok(WritePlan::StageTemporary { size, offset }),
            BufferUsage::StagedPersistent => {
                let create = !self.has_staging;
                self.has_staging = true;
                Ok(WritePlan::StagePersistent { create_staging: create, size, offset })
            },
            BufferUsage::Mapped => Ok(WritePlan::MapTemporary { size, offset }),
            BufferUsage::MappedPersistent => Ok(WritePlan::WriteAndFlush { size, offset }),
        }
    }

    /// Copies `data` into the buffer's mapped memory at `offset`. The bytes there afterwards
    /// are exactly `data` and no other byte changes; a copy that does not fit fails with
    /// `BufferOverflow` and leaves the memory untouched.
    pub fn fill(&self, memory: &mut [u8], offset: u64, data: &[u8]) -> (r: Result<(), Error>)
        requires
            old(memory)@.len() == self.spec_size(),
        ensures
            r is Ok <==> fits(data@.len() as int, offset as int, self.spec_size() as int),
            r is Ok ==> final(memory)@ == written(old(memory)@, offset as int, data@),
            r matches Err(e) ==> final(memory)@ == old(memory)@ && e == (Error::BufferOverflow {
                size: data@.len() as u64,
                max_size: self.spec_size(),
            }),
    {
        fill_region(memory, offset, data)
    }

    /// The capacity in bytes.
    pub fn size(&self) -> (r: u64)
        ensures
            r == self.spec_size(),
    {
        self.size
    }

    /// The buffer type.
    pub fn ty(&self) -> (r: BufferType)
        ensures
            r == self.spec_ty(),
    {
        self.ty
    }

    /// The usage pattern.
    pub fn usage(&self) -> (r: BufferUsage)
        ensures
            r == self.spec_usage(),
    {
        self.usage
    }

    /// Whether the persistent staging buffer exists, and must be destroyed with the buffer.
    pub fn has_staging(&self) -> (r: bool)
        ensures
            r == self.spec_has_staging(),
    {
        self.has_staging
    }
}

/// Copies `data` into `memory` at `offset`, or fails with `BufferOverflow` (the size of
/// `data`, the length of `memory`) when it does not fit, leaving `memory` untouched.
pub fn fill_region(memory: &mut [u8], offset: u64, data: &[u8]) -> (r: Result<(), Error>)
    requires
        old(memory)@.len() <= u64::MAX,
    ensures
        r is Ok <==> fits(data@.len() as int, offset as int, old(memory)@.len() as int),
        r is Ok ==> final(memory)@ == written(old(memory)@, offset as int, data@),
        r matches Err(e) ==> final(memory)@ == old(memory)@ && e == (Error::BufferOverflow {
            size: data@.len() as u64,
            max_size: old(memory)@.len() as u64,
        }),
{
    let len = memory.len();
    let cap = len as u64;
    if data.len() as u64 > cap || offset > cap - data.len() as u64 {
        return Err(Error::BufferOverflow { size: data.len() as u64, max_size: cap });
    }
    let start = offset as usize;
    let ghost before = memory@;
    let mut i: usize = 0;
    while i < data.len()
        invariant
            i <= data@.len(),
            start + data@.len() <= before.len(),
            before.len() == len,
            memory@.len() == before.len(),
            forall|j: int| 0 <= j < start ==> memory@[j] == before[j],
            forall|j: int| 0 <= j < i ==> memory@[start + j] == data@[j],
            forall|j: int| start + i <= j < before.len() ==> memory@[j] == before[j],
        decreases data@.len() - i,
    {
        memory[start + i] = data[i];
        i = i + 1;
    }
    assert(memory@ =~= written(before, offset as int, data@));
    Ok(())
}

/// Whatever is written within the capacity reads back unchanged, and bytes outside the written
/// range keep their value.
pub proof fn lemma_written_reads_back(memory: Seq<u8>, offset: int, data: Seq<u8>)
    requires
        0 <= offset,
        offset + data.len() <= memory.len(),
    ensures
        written(memory, offset, data).len() == memory.len(),
        written(memory, offset, data).subrange(offset, offset + data.len()) == data,
        forall|j: int| 0 <= j < memory.len() && !(offset <= j < offset + data.len())
            ==> #[trigger] written(memory, offset, data)[j] == memory[j],
{
    let w = written(memory, offset, data);
    assert(w.subrange(offset, offset + data.len()) =~= data);
}

} // verus!
