use vulkan_sandbox::buffer::{
    created_mapped, fill_region, memory_location, usage_flags, Buffer, BufferType, BufferUsage, MemoryLocation,
    WritePlan,
};
use vulkan_sandbox::error::Error;

#[test]
fn write_one_byte_too_large_overflows() {
    let mut buffer = Buffer::new(BufferType::Uniform, BufferUsage::MappedPersistent, 64);
    match buffer.write(65, 0) {
        Err(Error::BufferOverflow { size, max_size }) => {
            assert_eq!(size, 65);
            assert_eq!(max_size, 64);
        }
        other => panic!("unexpected {:?}", other),
    }
}

#[test]
fn write_past_end_through_offset_overflows() {
    let mut buffer = Buffer::new(BufferType::Vertex, BufferUsage::Mapped, 16);
    assert!(matches!(buffer.write(8, 9), Err(Error::BufferOverflow { size: 8, max_size: 16 })));
    assert_eq!(buffer.write(8, 8).unwrap(), WritePlan::MapTemporary { size: 8, offset: 8 });
}

#[test]
fn plans_follow_usage() {
    let mut staged = Buffer::new(BufferType::Index16, BufferUsage::Staged, 32);
    assert_eq!(staged.write(32, 0).unwrap(), WritePlan::StageTemporary { size: 32, offset: 0 });
    let mut mapped = Buffer::new(BufferType::Storage, BufferUsage::MappedPersistent, 32);
    assert_eq!(mapped.write(4, 12).unwrap(), WritePlan::WriteAndFlush { size: 4, offset: 12 });
    assert_eq!(mapped.ty(), BufferType::Storage);
    assert_eq!(mapped.usage(), BufferUsage::MappedPersistent);
    assert_eq!(mapped.size(), 32);
}

#[test]
fn persistent_staging_is_created_once() {
    let mut buffer = Buffer::new(BufferType::Index32, BufferUsage::StagedPersistent, 128);
    assert!(!buffer.has_staging());
    assert!(buffer.write(200, 0).is_err());
    assert!(!buffer.has_staging());
    assert_eq!(
        buffer.write(64, 0).unwrap(),
        WritePlan::StagePersistent { create_staging: true, size: 64, offset: 0 }
    );
    assert!(buffer.has_staging());
    assert_eq!(
        buffer.write(64, 64).unwrap(),
        WritePlan::StagePersistent { create_staging: false, size: 64, offset: 64 }
    );
}

#[test]
fn written_bytes_read_back() {
    let buffer = Buffer::new(BufferType::Uniform, BufferUsage::Mapped, 8);
    let mut memory = vec![0u8; 8];
    buffer.fill(&mut memory, 2, &[9, 8, 7]).unwrap();
    assert_eq!(memory, vec![0, 0, 9, 8, 7, 0, 0, 0]);
    buffer.fill(&mut memory, 0, &[1, 2, 3, 4, 5, 6, 7, 8]).unwrap();
    assert_eq!(memory, vec![1, 2, 3, 4, 5, 6, 7, 8]);
}

#[test]
fn overflowing_fill_leaves_memory_untouched() {
    let buffer = Buffer::new(BufferType::Uniform, BufferUsage::Mapped, 4);
    let mut memory = vec![5u8; 4];
    match buffer.fill(&mut memory, 0, &[1, 2, 3, 4, 5]) {
        Err(Error::BufferOverflow { size, max_size }) => assert_eq!((size, max_size), (5, 4)),
        other => panic!("unexpected {:?}", other),
    }
    assert_eq!(memory, vec![5, 5, 5, 5]);
    assert!(fill_region(&mut memory, 3, &[1, 1]).is_err());
    assert_eq!(memory, vec![5, 5, 5, 5]);
    assert!(fill_region(&mut memory, 4, &[]).is_ok());
}

#[test]
fn usage_flags_follow_type_and_usage() {
    assert_eq!(usage_flags(BufferType::Vertex, BufferUsage::Staged), 0x80 | 0x2);
    assert_eq!(usage_flags(BufferType::Index16, BufferUsage::StagedPersistent), 0x40 | 0x2);
    assert_eq!(usage_flags(BufferType::Uniform, BufferUsage::Mapped), 0x10);
    assert_eq!(usage_flags(BufferType::Storage, BufferUsage::MappedPersistent), 0x20);
    assert_eq!(memory_location(BufferUsage::Staged), MemoryLocation::GpuOnly);
    assert_eq!(memory_location(BufferUsage::Mapped), MemoryLocation::CpuToGpu);
    assert!(created_mapped(BufferUsage::MappedPersistent));
    assert!(!created_mapped(BufferUsage::Mapped));
}
