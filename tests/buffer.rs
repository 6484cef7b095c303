use miel::gfx::buffer::{
    check_upload_size, upload_data, BufferBuilder, BufferDataUploadError, MemoryLocation,
    BUFFER_USAGE_TRANSFER_SRC, BUFFER_USAGE_UNIFORM_BUFFER, BUFFER_USAGE_VERTEX_BUFFER,
};

#[test]
fn oversized_payload_is_refused_untouched() {
    let mut memory = vec![7u8; 4];
    let data = [1u8, 2, 3, 4, 5];
    assert_eq!(
        upload_data(Some(&mut memory[..]), 4, &data),
        Err(BufferDataUploadError::SizeMismatch { data_size: 5, buffer_size: 4 })
    );
    assert_eq!(memory, vec![7u8; 4]);
    assert_eq!(
        check_upload_size(5, 4),
        Err(BufferDataUploadError::SizeMismatch { data_size: 5, buffer_size: 4 })
    );
    assert_eq!(check_upload_size(4, 4), Ok(()));
}

#[test]
fn payload_is_copied_to_the_start() {
    let mut memory = vec![9u8; 6];
    let data = [1u8, 2, 3];
    assert_eq!(upload_data(Some(&mut memory[..]), 6, &data), Ok(()));
    assert_eq!(memory, vec![1, 2, 3, 9, 9, 9]);
    assert_eq!(upload_data(Some(&mut memory[..]), 6, &[]), Ok(()));
    assert_eq!(memory, vec![1, 2, 3, 9, 9, 9]);
}

#[test]
fn unmapped_memory_is_reported() {
    assert_eq!(upload_data(None, 6, &[1, 2]), Err(BufferDataUploadError::MemoryMapping));
    assert_eq!(
        upload_data(None, 1, &[1, 2]),
        Err(BufferDataUploadError::SizeMismatch { data_size: 2, buffer_size: 1 })
    );
}

#[test]
fn builder_defaults() {
    let b = BufferBuilder::default(64);
    assert_eq!(b.size, 64);
    assert_eq!(b.usage, BUFFER_USAGE_UNIFORM_BUFFER);
    assert_eq!(b.memory_location, MemoryLocation::CpuToGpu);
    assert_eq!(b.name, "unnamed buffer");
    let s = BufferBuilder::staging_buffer_default(8)
        .with_usage(BUFFER_USAGE_TRANSFER_SRC | BUFFER_USAGE_VERTEX_BUFFER)
        .with_memory_location(MemoryLocation::GpuOnly)
        .with_name("verts");
    assert_eq!(s.size, 8);
    assert_eq!(s.usage, 0x81);
    assert_eq!(s.memory_location, MemoryLocation::GpuOnly);
    assert_eq!(s.name, "verts");
}
