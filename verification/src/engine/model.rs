use vstd::prelude::*;

use crate::device::DeviceContext;
use crate::encoding::{words_to_bytes, words_to_bytes_spec};
use crate::engine::bindgroups::{texture::texture_layout_entries, BindGroups, BindSet};
use crate::engine::buffers::modelvertex::{vertices_words, ModelVertex};
use crate::engine::buffers::{BufferUsage, GpuBuffer, IndexFormat};
use crate::engine::texture::Texture;
use crate::engine::{count_draws, count_pipeline_binds, lemma_count_draws_add,
    lemma_count_pipeline_binds_add, PassCommand, Renderable};
use crate::error::RenderError;

verus! {

/// One surface appearance group: its name, the diffuse texture, and the
/// bind set binding that texture for the fragment stage.
#[derive(Debug)]
pub struct Material {
    pub name: String,
    pub diffuse_texture: Texture,
    pub bind_group: BindSet,
}

impl Material {
    /// Binds the diffuse texture against the declared texture layout. The
    /// material owns both the texture and the resulting bind set.
    pub fn new(name: String, diffuse_texture: Texture, gpu: &mut DeviceContext, bindgroups: &BindGroups) -> (m: Material)
        requires
            old(gpu).next_id < u64::MAX,
            bindgroups.texture.bind_group_layout.entries@ == texture_layout_entries(),
        ensures
            m.name == name,
            m.diffuse_texture == diffuse_texture,
            m.bind_group.id == old(gpu).next_id,
            m.bind_group.layout_entries@ == texture_layout_entries(),
            final(gpu).next_id == old(gpu).next_id + 1,
            final(gpu).config == old(gpu).config,
    {
        let bind_group = bindgroups.texture.create_bind_group(gpu, &diffuse_texture);
        Material { name, diffuse_texture, bind_group }
    }
}

/// One connected geometry chunk of a loaded model: its buffers, how many
/// indices to draw, and which of the model's materials it uses.
#[derive(Debug)]
pub struct Mesh {
    pub name: String,
    pub vertex_buffer: GpuBuffer,
    pub index_buffer: GpuBuffer,
    pub index_count: u32,
    pub material: usize,
}

/// The decoded geometry of one mesh chunk, as the asset-loading
/// collaborator hands it over: vertices, a triangulated single-index list,
/// and the material the chunk names, if any.
#[derive(Debug)]
pub struct MeshData {
    pub name: String,
    pub vertices: Vec<ModelVertex>,
    pub indices: Vec<u32>,
    pub material_id: Option<usize>,
}

/// The material a mesh chunk resolves to: the one it names, or the first
/// material when the file named none.
pub open spec fn resolved_material(d: MeshData) -> int {
    match d.material_id {
        Some(m) => m as int,
        None => 0,
    }
}

/// Whether one mesh chunk can be built: its index list fits a 32-bit
/// count, and its material index points into the model's material list.
pub open spec fn mesh_data_ok(d: MeshData, n_materials: int) -> bool {
    &&& resolved_material(d) < n_materials
    &&& d.indices@.len() <= u32::MAX
}

/// Whether every chunk of a model can be built.
pub open spec fn meshes_ok(ds: Seq<MeshData>, n_materials: int) -> bool {
    forall|i: int| 0 <= i < ds.len() ==> mesh_data_ok(#[trigger] ds[i], n_materials)
}

/// The typed failure one bad chunk reports: an out-of-range material index
/// takes precedence over an oversized index list.
pub open spec fn mesh_error(d: MeshData, n_materials: int) -> RenderError {
    if !(resolved_material(d) < n_materials) {
        RenderError::MaterialIndexOutOfRange
    } else {
        RenderError::TooManyIndices
    }
}

/// The failure model construction reports: the one for the first chunk,
/// in file order, that cannot be built.
pub open spec fn first_mesh_violation(ds: Seq<MeshData>, n_materials: int) -> RenderError
    decreases ds.len(),
{
    if ds.len() == 0 {
        arbitrary()
    } else if !mesh_data_ok(ds[0], n_materials) {
        mesh_error(ds[0], n_materials)
    } else {
        first_mesh_violation(ds.drop_first(), n_materials)
    }
}

proof fn lemma_first_mesh_violation_at(ds: Seq<MeshData>, n_materials: int, n: int)
    requires
        0 <= n < ds.len(),
        forall|i: int| 0 <= i < n ==> mesh_data_ok(#[trigger] ds[i], n_materials),
        !mesh_data_ok(ds[n], n_materials),
    ensures
        first_mesh_violation(ds, n_materials) == mesh_error(ds[n], n_materials),
    decreases n,
{
    if n > 0 {
        let rest = ds.drop_first();
        assert forall|i: int| 0 <= i < n - 1 implies mesh_data_ok(#[trigger] rest[i], n_materials) by {
            assert(rest[i] == ds[i + 1]);
        }
        assert(rest[n - 1] == ds[n]);
        lemma_first_mesh_violation_at(rest, n_materials, n - 1);
    }
}

/// How a built mesh corresponds to the decoded chunk it came from.
pub open spec fn mesh_matches(mesh: Mesh, d: MeshData) -> bool {
    &&& mesh.name == d.name
    &&& mesh.index_count == d.indices@.len()
    &&& mesh.material == resolved_material(d)
    &&& mesh.vertex_buffer.usage == BufferUsage::Vertex
    &&& mesh.vertex_buffer.contents() == words_to_bytes_spec(vertices_words(d.vertices@))
    &&& mesh.index_buffer.usage == BufferUsage::Index
    &&& mesh.index_buffer.contents() == words_to_bytes_spec(d.indices@)
}

/// A loaded model: its name, its geometry chunks, and the materials the
/// chunks share by index. Owns its meshes and materials exclusively.
#[derive(Debug)]
pub struct Model {
    pub name: String,
    pub meshes: Vec<Mesh>,
    pub materials: Vec<Material>,
}

impl Model {
    /// Assembles a model from decoded geometry and already-built
    /// materials, uploading one vertex and one index buffer per chunk. A
    /// chunk whose material index is out of range, or whose index list
    /// cannot be counted in 32 bits, is a typed failure: nothing is
    /// uploaded in that case.
    pub fn new(
        name: String,
        gpu: &mut DeviceContext,
        meshes_data: Vec<MeshData>,
        materials: Vec<Material>,
    ) -> (r: Result<Model, RenderError>)
        requires
            old(gpu).next_id + 2 * meshes_data@.len() <= u64::MAX,
        ensures
            r is Ok <==> meshes_ok(meshes_data@, materials@.len() as int),
            r matches Ok(m) ==> {
                &&& m.name == name
                &&& m.materials == materials
                &&& m.meshes@.len() == meshes_data@.len()
                &&& forall|i: int|
                    0 <= i < meshes_data@.len() ==> mesh_matches(
                        #[trigger] m.meshes@[i],
                        meshes_data@[i],
                    )
                &&& m.wf()
                &&& final(gpu).next_id == old(gpu).next_id + 2 * meshes_data@.len()
                &&& final(gpu).config == old(gpu).config
            },
            r matches Err(e) ==> {
                &&& e == first_mesh_violation(meshes_data@, materials@.len() as int)
                &&& *final(gpu) == *old(gpu)
            },
    {
        let n_materials = materials.len();
        let mut v: usize = 0;
        while v < meshes_data.len()
            invariant
                v <= meshes_data@.len(),
                n_materials == materials@.len(),
                forall|i: int|
                    0 <= i < v ==> mesh_data_ok(#[trigger] meshes_data@[i], n_materials as int),
            decreases meshes_data@.len() - v,
        {
            let d = &meshes_data[v];
            let mat: usize = match d.material_id {
                Some(m) => m,
                None => 0,
            };
            if mat >= n_materials {
                proof {
                    lemma_first_mesh_violation_at(meshes_data@, n_materials as int, v as int);
                }
                return Err(RenderError::MaterialIndexOutOfRange);
            }
            if d.indices.len() > u32::MAX as usize {
                proof {
                    lemma_first_mesh_violation_at(meshes_data@, n_materials as int, v as int);
                }
                return Err(RenderError::TooManyIndices);
            }
            v = v + 1;
        }
        let mut meshes: Vec<Mesh> = Vec::new();
        let mut i: usize = 0;
        while i < meshes_data.len()
            invariant
                i <= meshes_data@.len(),
                n_materials == materials@.len(),
                meshes_ok(meshes_data@, n_materials as int),
                old(gpu).next_id + 2 * meshes_data@.len() <= u64::MAX,
                gpu.next_id == old(gpu).next_id + 2 * i,
                gpu.config == old(gpu).config,
                meshes@.len() == i,
                forall|j: int|
                    0 <= j < i ==> mesh_matches(#[trigger] meshes@[j], meshes_data@[j]),
            decreases meshes_data@.len() - i,
        {
            let d = &meshes_data[i];
            proof {
                assert(mesh_data_ok(meshes_data@[i as int], n_materials as int));
            }
            let vertex_buffer = ModelVertex::new_buffer(gpu, &d.vertices);
            let index_bytes = words_to_bytes(&d.indices);
            let index_buffer = gpu.create_buffer(index_bytes, BufferUsage::Index);
            let mat: usize = match d.material_id {
                Some(m) => m,
                None => 0,
            };
            let mesh = Mesh {
                name: d.name.clone(),
                vertex_buffer,
                index_buffer,
                index_count: d.indices.len() as u32,
                material: mat,
            };
            meshes.push(mesh);
            i = i + 1;
        }
        let model = Model { name, meshes, materials };
        proof {
            assert forall|k: int| 0 <= k < model.meshes@.len() implies (
            #[trigger] model.meshes@[k]).material < model.materials@.len() by {
                assert(mesh_matches(model.meshes@[k], meshes_data@[k]));
                assert(mesh_data_ok(meshes_data@[k], n_materials as int));
            }
        }
        Ok(model)
    }
}

/// The draw commands of one mesh: the material's bind set first whenever
/// the material differs from the previous mesh's, then the vertex buffer
/// at slot 0, the 32-bit index buffer, and one indexed draw.
pub open spec fn mesh_commands(m: Model, i: int) -> Seq<PassCommand> {
    let mesh = m.meshes@[i];
    let bind: Seq<PassCommand> = if i == 0 || m.meshes@[i - 1].material != mesh.material {
        seq![
            PassCommand::SetBindGroup {
                index: 0,
                bind_set: m.materials@[mesh.material as int].bind_group.id,
            },
        ]
    } else {
        Seq::empty()
    };
    bind + seq![
        PassCommand::SetVertexBuffer { slot: 0, buffer: mesh.vertex_buffer.id },
        PassCommand::SetIndexBuffer { buffer: mesh.index_buffer.id, format: IndexFormat::Uint32 },
        PassCommand::DrawIndexed { index_count: mesh.index_count },
    ]
}

/// The draw commands of a model's first `n` meshes, in mesh order.
pub open spec fn model_commands_upto(m: Model, n: int) -> Seq<PassCommand>
    decreases n,
{
    if n <= 0 {
        Seq::empty()
    } else {
        model_commands_upto(m, n - 1) + mesh_commands(m, n - 1)
    }
}

/// The whole command stream a model records.
pub open spec fn model_draw_commands(m: Model) -> Seq<PassCommand> {
    model_commands_upto(m, m.meshes@.len() as int)
}

impl Renderable for Model {
    /// Every chunk's material index points into the material list.
    open spec fn wf(&self) -> bool {
        forall|i: int|
            0 <= i < self.meshes@.len() ==> (#[trigger] self.meshes@[i]).material
                < self.materials@.len()
    }

    open spec fn draw_commands(&self) -> Seq<PassCommand> {
        model_draw_commands(*self)
    }

    fn record_draw(&self) -> (cmds: Vec<PassCommand>)
    {
        let mut cmds: Vec<PassCommand> = Vec::new();
        let mut i: usize = 0;
        while i < self.meshes.len()
            invariant
                i <= self.meshes@.len(),
                self.wf(),
                cmds@ == model_commands_upto(*self, i as int),
            decreases self.meshes@.len() - i,
        {
            let mesh = &self.meshes[i];
            if i == 0 || self.meshes[i - 1].material != mesh.material {
                cmds.push(PassCommand::SetBindGroup {
                    index: 0,
                    bind_set: self.materials[mesh.material].bind_group.id,
                });
            }
            cmds.push(PassCommand::SetVertexBuffer { slot: 0, buffer: mesh.vertex_buffer.id });
            cmds.push(PassCommand::SetIndexBuffer {
                buffer: mesh.index_buffer.id,
                format: IndexFormat::Uint32,
            });
            cmds.push(PassCommand::DrawIndexed { index_count: mesh.index_count });
            proof {
                assert(cmds@ =~= model_commands_upto(*self, i as int) + mesh_commands(
                    *self,
                    i as int,
                ));
            }
            i = i + 1;
        }
        cmds
    }
}

proof fn lemma_mesh_commands_counts(m: Model, i: int)
    ensures
        count_draws(mesh_commands(m, i)) == 1,
        count_pipeline_binds(mesh_commands(m, i)) == 0,
{
    reveal_with_fuel(count_draws, 5);
    reveal_with_fuel(count_pipeline_binds, 5);
    let mesh = m.meshes@[i];
    let bind: Seq<PassCommand> = if i == 0 || m.meshes@[i - 1].material != mesh.material {
        seq![
            PassCommand::SetBindGroup {
                index: 0,
                bind_set: m.materials@[mesh.material as int].bind_group.id,
            },
        ]
    } else {
        Seq::empty()
    };
    let tail = seq![
        PassCommand::SetVertexBuffer { slot: 0, buffer: mesh.vertex_buffer.id },
        PassCommand::SetIndexBuffer { buffer: mesh.index_buffer.id, format: IndexFormat::Uint32 },
        PassCommand::DrawIndexed { index_count: mesh.index_count },
    ];
    assert(tail.drop_last() =~= seq![
        PassCommand::SetVertexBuffer { slot: 0, buffer: mesh.vertex_buffer.id },
        PassCommand::SetIndexBuffer { buffer: mesh.index_buffer.id, format: IndexFormat::Uint32 },
    ]);
    assert(tail.drop_last().drop_last() =~= seq![
        PassCommand::SetVertexBuffer { slot: 0, buffer: mesh.vertex_buffer.id },
    ]);
    assert(tail.drop_last().drop_last().drop_last() =~= Seq::<PassCommand>::empty());
    assert(count_draws(tail) == 1);
    assert(count_pipeline_binds(tail) == 0);
    if bind.len() == 1 {
        assert(bind.drop_last() =~= Seq::<PassCommand>::empty());
        assert(count_draws(bind) == 0);
        assert(count_pipeline_binds(bind) == 0);
    } else {
        assert(count_draws(bind) == 0);
        assert(count_pipeline_binds(bind) == 0);
    }
    lemma_count_draws_add(bind, tail);
    lemma_count_pipeline_binds_add(bind, tail);
    assert(mesh_commands(m, i) == bind + tail);
}

proof fn lemma_model_commands_upto_counts(m: Model, n: int)
    requires
        0 <= n,
    ensures
        count_draws(model_commands_upto(m, n)) == n,
        count_pipeline_binds(model_commands_upto(m, n)) == 0,
    decreases n,
{
    if n > 0 {
        lemma_model_commands_upto_counts(m, n - 1);
        lemma_mesh_commands_counts(m, n - 1);
        lemma_count_draws_add(model_commands_upto(m, n - 1), mesh_commands(m, n - 1));
        lemma_count_pipeline_binds_add(model_commands_upto(m, n - 1), mesh_commands(m, n - 1));
    }
}

/// A model's command stream issues exactly one indexed draw per owned
/// mesh, and never rebinds the pipeline.
pub proof fn lemma_model_draw_counts(m: Model)
    ensures
        count_draws(model_draw_commands(m)) == m.meshes@.len(),
        count_pipeline_binds(model_draw_commands(m)) == 0,
{
    lemma_model_commands_upto_counts(m, m.meshes@.len() as int);
}

} // verus!
