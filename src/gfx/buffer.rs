//! Buffer descriptions and the checked copy of bytes into a buffer's
//! CPU-visible memory.
use vstd::prelude::*;

verus! {

/// Buffer usage bits, with the native API's values.
pub const BUFFER_USAGE_TRANSFER_SRC: u32 = 0x1;
pub const BUFFER_USAGE_TRANSFER_DST: u32 = 0x2;
pub const BUFFER_USAGE_UNIFORM_BUFFER: u32 = 0x10;
pub const BUFFER_USAGE_INDEX_BUFFER: u32 = 0x40;
pub const BUFFER_USAGE_VERTEX_BUFFER: u32 = 0x80;

/// Where a buffer's memory lives, as the memory allocator names it.
#[derive(Debug, Clone, Copy, PartialEq, Eq, Structural)]
pub enum MemoryLocation {
    Unknown,
    GpuOnly,
    CpuToGpu,
    GpuToCpu,
}

/// Why bytes could not be copied into a buffer.
#[derive(Debug, Clone, Copy, PartialEq, Eq, Structural)]
pub enum BufferDataUploadError {
    SizeConversion(usize),
    SizeMismatch { data_size: usize, buffer_size: u64 },
    MemoryMapping,
}

/// Checks that `data_size` bytes fit in an allocation of `buffer_size` bytes.
pub fn check_upload_size(data_size: usize, buffer_size: u64) -> (r: Result<(), BufferDataUploadError>)
    ensures
        data_size <= buffer_size ==> r == Ok::<(), BufferDataUploadError>(()),
        data_size > buffer_size ==> r == Err::<(), _>(
            BufferDataUploadError::SizeMismatch { data_size, buffer_size },
        ),
{
    if data_size as u64 > buffer_size {
        Err(BufferDataUploadError::SizeMismatch { data_size, buffer_size })
    } else {
        Ok(())
    }
}

/// Copies `data` to the start of a buffer's mapped memory. Fails, writing
/// nothing, when the payload is larger than the buffer (`SizeMismatch`) or
/// when the memory is not mapped (`MemoryMapping`); otherwise the first
/// `data.len()` bytes become `data` and the rest are left as they were.
pub fn upload_data(mapped: Option<&mut [u8]>, buffer_size: u64, data: &[u8]) -> (r: Result<
    (),
    BufferDataUploadError,
>)
    requires
        mapped matches Some(m) ==> m@.len() == buffer_size,
    ensures
        data@.len() > buffer_size ==> r == Err::<(), _>(
            BufferDataUploadError::SizeMismatch { data_size: data@.len() as usize, buffer_size },
        ),
        data@.len() <= buffer_size && mapped is None ==> r == Err::<(), _>(
            BufferDataUploadError::MemoryMapping,
        ),
        data@.len() <= buffer_size && mapped is Some ==> r == Ok::<(), BufferDataUploadError>(()),
        mapped matches Some(m) ==> {
            let n = final(m)@;
            if data@.len() <= buffer_size {
                &&& n.len() == m@.len()
                &&& forall|k: int| 0 <= k < data@.len() ==> n[k] == data@[k]
                &&& forall|k: int| data@.len() <= k < n.len() ==> n[k] == m@[k]
            } else {
                n == m@
            }
        },
{
    let n = data.len();
    if n as u64 > buffer_size {
        return Err(BufferDataUploadError::SizeMismatch { data_size: n, buffer_size });
    }
    match mapped {
        None => Err(BufferDataUploadError::MemoryMapping),
        Some(m) => {
            let ghost m0 = m@;
            let mut i: usize = 0;
            while i < n
                invariant
                    n == data@.len(),
                    n <= m0.len(),
                    m@.len() == m0.len(),
                    i <= n,
                    forall|k: int| 0 <= k < i ==> m@[k] == data@[k],
                    forall|k: int| i <= k < m0.len() ==> m@[k] == m0[k],
                decreases n - i,
            {
                m[i] = data[i];
                i = i + 1;
            }
            Ok(())
        },
    }
}

/// What a buffer is created with: its size in bytes, usage bits, memory
/// location and a name for the allocator's bookkeeping.
#[derive(Debug, Clone)]
pub struct BufferBuilder {
    pub size: u64,
    pub usage: u32,
    pub memory_location: MemoryLocation,
    pub name: String,
}

impl BufferBuilder {
    /// The same as `uniform_buffer_default`.
    pub fn default(size: u64) -> (r: Self)
        ensures
            r.size == size,
            r.usage == BUFFER_USAGE_UNIFORM_BUFFER,
            r.memory_location == MemoryLocation::CpuToGpu,
            r.name@ == "unnamed buffer"@,
    {
        Self::uniform_buffer_default(size)
    }

    /// A CPU-writable uniform buffer.
    pub fn uniform_buffer_default(size: u64) -> (r: Self)
        ensures
            r.size == size,
            r.usage == BUFFER_USAGE_UNIFORM_BUFFER,
            r.memory_location == MemoryLocation::CpuToGpu,
            r.name@ == "unnamed buffer"@,
    {
        BufferBuilder {
            size,
            usage: BUFFER_USAGE_UNIFORM_BUFFER,
            memory_location: MemoryLocation::CpuToGpu,
            name: "unnamed buffer".to_owned(),
        }
    }

    /// A CPU-writable buffer that transfers are copied from.
    pub fn staging_buffer_default(size: u64) -> (r: Self)
        ensures
            r.size == size,
            r.usage == BUFFER_USAGE_TRANSFER_SRC,
            r.memory_location == MemoryLocation::CpuToGpu,
            r.name@ == "unnamed staging buffer"@,
    {
        BufferBuilder {
            size,
            usage: BUFFER_USAGE_TRANSFER_SRC,
            memory_location: MemoryLocation::CpuToGpu,
            name: "unnamed staging buffer".to_owned(),
        }
    }

    pub fn with_usage(self, usage: u32) -> (r: Self)
        ensures
            r == (Self { usage, ..self }),
    {
        let mut s = self;
        s.usage = usage;
        s
    }

    pub fn with_memory_location(self, memory_location: MemoryLocation) -> (r: Self)
        ensures
            r == (Self { memory_location, ..self }),
    {
        let mut s = self;
        s.memory_location = memory_location;
        s
    }

    pub fn with_name(self, name: &str) -> (r: Self)
        ensures
            r.name@ == name@,
            r.size == self.size,
            r.usage == self.usage,
            r.memory_location == self.memory_location,
    {
        let mut s = self;
        s.name = name.to_owned();
        s
    }
}

} // verus!
