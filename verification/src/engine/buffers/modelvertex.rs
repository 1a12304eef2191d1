use vstd::prelude::*;

use crate::camera::Vec3Bits;
use crate::device::DeviceContext;
use crate::encoding::{words_to_bytes, words_to_bytes_spec};
use crate::engine::buffers::{
    vertex_format_size_spec, BufferUsage, GpuBuffer, Vertex, VertexAttribute, VertexBufferLayout,
    VertexFormat,
};

verus! {

/// A two-component vector held as IEEE-754 single-precision bit patterns.
#[derive(Clone, Copy, Debug, PartialEq, Eq, Structural)]
pub struct Vec2Bits {
    pub x: u32,
    pub y: u32,
}

/// One vertex of a loaded model: position, normal and texture coordinate,
/// each component an IEEE-754 single-precision bit pattern. The loader
/// collaborator converts its decoded floats to these words before handing
/// geometry to the core.
#[derive(Clone, Copy, Debug, PartialEq, Eq, Structural)]
pub struct ModelVertex {
    pub position: Vec3Bits,
    pub normal: Vec3Bits,
    pub tex_coords: Vec2Bits,
}

/// The eight 32-bit words of one vertex, in the order the vertex layout
/// declares them: position, normal, texture coordinate.
pub open spec fn vertex_words(v: ModelVertex) -> Seq<u32> {
    seq![
        v.position.x,
        v.position.y,
        v.position.z,
        v.normal.x,
        v.normal.y,
        v.normal.z,
        v.tex_coords.x,
        v.tex_coords.y,
    ]
}

/// The words of a whole vertex list, vertex after vertex.
pub open spec fn vertices_words(vs: Seq<ModelVertex>) -> Seq<u32>
    decreases vs.len(),
{
    if vs.len() == 0 {
        Seq::empty()
    } else {
        vertices_words(vs.drop_last()) + vertex_words(vs.last())
    }
}

proof fn lemma_vertices_words_take_succ(vs: Seq<ModelVertex>, i: int)
    requires
        0 <= i < vs.len(),
    ensures
        vertices_words(vs.take(i + 1)) == vertices_words(vs.take(i)) + vertex_words(vs[i]),
{
    assert(vs.take(i + 1).drop_last() =~= vs.take(i));
    assert(vs.take(i + 1).last() == vs[i]);
}

impl Vertex for ModelVertex {
    /// Position at the start, normal after it, texture coordinate last,
    /// at shader locations 0, 1 and 2.
    open spec fn attributes_spec() -> Seq<VertexAttribute> {
        seq![
            VertexAttribute { shader_location: 0, offset: 0, format: VertexFormat::Float32x3 },
            VertexAttribute { shader_location: 1, offset: 12, format: VertexFormat::Float32x3 },
            VertexAttribute { shader_location: 2, offset: 24, format: VertexFormat::Float32x2 },
        ]
    }

    open spec fn stride_spec() -> u32 {
        32
    }

    fn desc() -> (layout: VertexBufferLayout)
        ensures
            layout.array_stride == Self::stride_spec(),
            layout.attributes@ == Self::attributes_spec(),
    {
        let mut attributes: Vec<VertexAttribute> = Vec::new();
        attributes.push(VertexAttribute {
            shader_location: 0,
            offset: 0,
            format: VertexFormat::Float32x3,
        });
        attributes.push(VertexAttribute {
            shader_location: 1,
            offset: 12,
            format: VertexFormat::Float32x3,
        });
        attributes.push(VertexAttribute {
            shader_location: 2,
            offset: 24,
            format: VertexFormat::Float32x2,
        });
        proof {
            assert(attributes@ =~= Self::attributes_spec());
        }
        VertexBufferLayout { array_stride: 32, attributes }
    }
}

/// The declared attribute offsets are exactly the running sums of the
/// attribute sizes, and the stride covers the whole vertex: the layout is
/// densely packed.
pub proof fn lemma_model_vertex_layout_packed()
    ensures
        ModelVertex::attributes_spec()[0].offset == 0,
        ModelVertex::attributes_spec()[1].offset == vertex_format_size_spec(
            ModelVertex::attributes_spec()[0].format,
        ),
        ModelVertex::attributes_spec()[2].offset == ModelVertex::attributes_spec()[1].offset
            + vertex_format_size_spec(ModelVertex::attributes_spec()[1].format),
        ModelVertex::stride_spec() == ModelVertex::attributes_spec()[2].offset
            + vertex_format_size_spec(ModelVertex::attributes_spec()[2].format),
{
}

impl ModelVertex {
    /// Serializes the vertex list into its byte image and uploads it into a
    /// freshly created vertex buffer.
    pub fn new_buffer(gpu: &mut DeviceContext, vertices: &Vec<ModelVertex>) -> (b: GpuBuffer)
        requires
            old(gpu).next_id < u64::MAX,
        ensures
            b.id == old(gpu).next_id,
            b.usage == BufferUsage::Vertex,
            b.contents() == words_to_bytes_spec(vertices_words(vertices@)),
            final(gpu).next_id == old(gpu).next_id + 1,
            final(gpu).config == old(gpu).config,
    {
        let mut words: Vec<u32> = Vec::new();
        let mut i: usize = 0;
        proof {
            assert(vertices@.take(0) =~= Seq::<ModelVertex>::empty());
        }
        while i < vertices.len()
            invariant
                i <= vertices@.len(),
                words@ == vertices_words(vertices@.take(i as int)),
            decreases vertices@.len() - i,
        {
            let v = vertices[i];
            words.push(v.position.x);
            words.push(v.position.y);
            words.push(v.position.z);
            words.push(v.normal.x);
            words.push(v.normal.y);
            words.push(v.normal.z);
            words.push(v.tex_coords.x);
            words.push(v.tex_coords.y);
            proof {
                lemma_vertices_words_take_succ(vertices@, i as int);
                assert(words@ =~= vertices_words(vertices@.take(i as int + 1)));
            }
            i = i + 1;
        }
        proof {
            assert(vertices@.take(vertices@.len() as int) =~= vertices@);
        }
        let bytes = words_to_bytes(&words);
        gpu.create_buffer(bytes, BufferUsage::Vertex)
    }
}

} // verus!
