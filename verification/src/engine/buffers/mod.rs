use vstd::prelude::*;

use crate::device::DeviceContext;

pub mod modelvertex;

verus! {

/// The usage tag a buffer is created with.
#[derive(Clone, Copy, Debug, PartialEq, Eq, Structural)]
pub enum BufferUsage {
    Vertex,
    Index,
    Uniform,
}

/// The width of the entries of an index buffer, fixed per mesh at creation.
#[derive(Clone, Copy, Debug, PartialEq, Eq, Structural)]
pub enum IndexFormat {
    Uint16,
    Uint32,
}

/// The format of one vertex attribute.
#[derive(Clone, Copy, Debug, PartialEq, Eq, Structural)]
pub enum VertexFormat {
    Float32x2,
    Float32x3,
}

/// A single attribute within a vertex: where the shader sees it, where it
/// starts inside the vertex, and its format.
#[derive(Clone, Copy, Debug, PartialEq, Eq, Structural)]
pub struct VertexAttribute {
    pub shader_location: u32,
    pub offset: u32,
    pub format: VertexFormat,
}

/// The layout of one vertex buffer: the distance between vertices and the
/// attributes packed into each one.
#[derive(Debug)]
pub struct VertexBufferLayout {
    pub array_stride: u32,
    pub attributes: Vec<VertexAttribute>,
}

/// How many bytes a value of the given vertex format occupies.
pub open spec fn vertex_format_size_spec(f: VertexFormat) -> u32 {
    match f {
        VertexFormat::Float32x2 => 8,
        VertexFormat::Float32x3 => 12,
    }
}

pub fn vertex_format_size(f: VertexFormat) -> (n: u32)
    ensures
        n == vertex_format_size_spec(f),
{
    match f {
        VertexFormat::Float32x2 => 8,
        VertexFormat::Float32x3 => 12,
    }
}

/// A vertex type that can describe its own buffer layout.
pub trait Vertex {
    /// The attributes the layout carries.
    spec fn attributes_spec() -> Seq<VertexAttribute>;

    /// The distance in bytes between consecutive vertices.
    spec fn stride_spec() -> u32;

    fn desc() -> (layout: VertexBufferLayout)
        ensures
            layout.array_stride == Self::stride_spec(),
            layout.attributes@ == Self::attributes_spec(),
    ;
}

/// An index type that can name its index width.
pub trait Index {
    /// The index width entries of this type are bound with.
    spec fn format_spec() -> IndexFormat;

    fn desc() -> (format: IndexFormat)
        ensures
            format == Self::format_spec(),
    ;
}

impl Index for u16 {
    open spec fn format_spec() -> IndexFormat {
        IndexFormat::Uint16
    }

    fn desc() -> IndexFormat {
        IndexFormat::Uint16
    }
}

impl Index for u32 {
    open spec fn format_spec() -> IndexFormat {
        IndexFormat::Uint32
    }

    fn desc() -> IndexFormat {
        IndexFormat::Uint32
    }
}

/// A typed GPU buffer: the number standing for the underlying handle, the
/// usage tag, and the device-side byte contents, uploaded in full when the
/// buffer is created.
///
/// Vertex and index buffers are write-once at creation; only uniform buffers
/// take a later partial overwrite through the queue.
#[derive(Debug)]
pub struct GpuBuffer {
    pub id: u64,
    pub usage: BufferUsage,
    pub data: Vec<u8>,
}

impl GpuBuffer {
    /// The bytes the device-side allocation holds.
    pub open spec fn contents(self) -> Seq<u8> {
        self.data@
    }

    pub fn len(&self) -> (n: usize)
        ensures
            n == self.contents().len(),
    {
        self.data.len()
    }

    /// Reads a byte range back, as mapping the buffer would return it.
    pub fn read_bytes(&self, offset: usize, count: usize) -> (r: Vec<u8>)
        requires
            offset + count <= self.contents().len(),
        ensures
            r@ == self.contents().subrange(offset as int, offset as int + count as int),
    {
        let total = self.data.len();
        let mut r: Vec<u8> = Vec::new();
        let mut i: usize = 0;
        while i < count
            invariant
                i <= count,
                total == self.contents().len(),
                offset + count <= self.contents().len(),
                r@ =~= self.contents().subrange(offset as int, offset as int + i as int),
        decreases count - i,
        {
            r.push(self.data[offset + i]);
            proof {
                assert(r@ =~= self.contents().subrange(offset as int, offset as int + (i + 1) as int));
            }
            i = i + 1;
        }
        r
    }

    /// Overwrites part of the buffer through the queue. Only uniform buffers
    /// support this: vertex and index buffers are immutable after creation.
    pub fn write(&mut self, offset: usize, bytes: &Vec<u8>)
        requires
            old(self).usage == BufferUsage::Uniform,
            offset + bytes@.len() <= old(self).contents().len(),
        ensures
            final(self).id == old(self).id,
            final(self).usage == old(self).usage,
            final(self).contents() == old(self).contents().take(offset as int) + bytes@
                + old(self).contents().skip(offset as int + bytes@.len() as int),
            final(self).contents().len() == old(self).contents().len(),
    {
        let total = self.data.len();
        let mut data: Vec<u8> = Vec::new();
        let mut i: usize = 0;
        while i < offset
            invariant
                i <= offset,
                total == self.data@.len(),
                offset + bytes@.len() <= self.data@.len(),
                data@ =~= self.data@.take(i as int),
            decreases offset - i,
        {
            data.push(self.data[i]);
            proof {
                assert(data@ =~= self.data@.take((i + 1) as int));
            }
            i = i + 1;
        }
        let mut j: usize = 0;
        while j < bytes.len()
            invariant
                j <= bytes@.len(),
                total == self.data@.len(),
                offset + bytes@.len() <= self.data@.len(),
                data@ =~= self.data@.take(offset as int) + bytes@.take(j as int),
            decreases bytes@.len() - j,
        {
            data.push(bytes[j]);
            proof {
                assert(data@ =~= self.data@.take(offset as int) + bytes@.take((j + 1) as int));
            }
            j = j + 1;
        }
        let mut k: usize = offset + bytes.len();
        while k < self.data.len()
            invariant
                total == self.data@.len(),
                offset + bytes@.len() <= k <= self.data@.len(),
                data@ =~= self.data@.take(offset as int) + bytes@
                    + self.data@.subrange(offset as int + bytes@.len() as int, k as int),
            decreases self.data@.len() - k,
        {
            data.push(self.data[k]);
            proof {
                assert(data@ =~= self.data@.take(offset as int) + bytes@
                    + self.data@.subrange(offset as int + bytes@.len() as int, (k + 1) as int));
            }
            k = k + 1;
        }
        proof {
            assert(self.data@.subrange(offset as int + bytes@.len() as int, self.data@.len() as int)
                =~= self.data@.skip(offset as int + bytes@.len() as int));
            assert(data@.len() == self.data@.len());
        }
        self.data = data;
    }
}

impl DeviceContext {
    /// Allocates device memory sized to the payload, uploads the payload
    /// through the queue at once, and tags the buffer with its usage.
    pub fn create_buffer(&mut self, data: Vec<u8>, usage: BufferUsage) -> (b: GpuBuffer)
        requires
            old(self).next_id < u64::MAX,
        ensures
            b.id == old(self).next_id,
            b.usage == usage,
            b.contents() == data@,
            final(self).next_id == old(self).next_id + 1,
            final(self).config == old(self).config,
    {
        let id = self.next_id;
        self.next_id = self.next_id + 1;
        GpuBuffer { id, usage, data }
    }
}

} // verus!
