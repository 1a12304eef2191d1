use vstd::prelude::*;

use crate::device::DeviceContext;
use crate::engine::bindgroups::{
    bindings_satisfy, entry_filled, kind_matches, slot_bound, BindLayout, BindSet, BindingKind,
    BoundResource, LayoutEntry, ResourceBinding, ShaderStage,
};
use crate::engine::buffers::{BufferUsage, GpuBuffer};
use crate::error::RenderError;

verus! {

/// The declared shape of the camera bind set: one uniform-buffer slot at
/// binding 0, visible to the vertex stage.
pub open spec fn camera_layout_entries() -> Seq<LayoutEntry> {
    seq![
        LayoutEntry {
            binding: 0,
            visibility: ShaderStage::Vertex,
            kind: BindingKind::UniformBuffer,
        },
    ]
}

/// Declares the bind layout through which the camera's uniform buffer
/// reaches the vertex stage.
#[derive(Debug)]
pub struct CameraBindGroup {
    pub bind_group_layout: BindLayout,
}

impl CameraBindGroup {
    pub fn new() -> (r: CameraBindGroup)
        ensures
            r.bind_group_layout.entries@ == camera_layout_entries(),
    {
        let mut entries: Vec<LayoutEntry> = Vec::new();
        entries.push(LayoutEntry {
            binding: 0,
            visibility: ShaderStage::Vertex,
            kind: BindingKind::UniformBuffer,
        });
        proof {
            assert(entries@ =~= camera_layout_entries());
        }
        CameraBindGroup { bind_group_layout: BindLayout { entries } }
    }

    /// Binds the camera's uniform buffer at slot 0. Succeeds exactly when
    /// the offered buffer really carries the Uniform usage tag; anything
    /// else is the kind mismatch the layout validation reports.
    pub fn create_bind_group(&self, gpu: &mut DeviceContext, camera_buffer: &GpuBuffer) -> (r:
        Result<BindSet, RenderError>)
        requires
            old(gpu).next_id < u64::MAX,
            self.bind_group_layout.entries@ == camera_layout_entries(),
        ensures
            r is Ok <==> camera_buffer.usage == BufferUsage::Uniform,
            r matches Ok(bs) ==> {
                &&& bs.id == old(gpu).next_id
                &&& bs.layout_entries@ == camera_layout_entries()
                &&& bs.bindings@ == seq![
                    ResourceBinding {
                        slot: 0,
                        resource: BoundResource::Buffer {
                            id: camera_buffer.id,
                            usage: camera_buffer.usage,
                        },
                    },
                ]
                &&& final(gpu).next_id == old(gpu).next_id + 1
                &&& final(gpu).config == old(gpu).config
            },
            r is Err ==> r == Err::<BindSet, RenderError>(RenderError::BindingKindMismatch {
                slot: 0,
            }) && *final(gpu) == *old(gpu),
    {
        let mut bindings: Vec<ResourceBinding> = Vec::new();
        bindings.push(ResourceBinding {
            slot: 0,
            resource: BoundResource::Buffer { id: camera_buffer.id, usage: camera_buffer.usage },
        });
        proof {
            let bs = bindings@;
            let entry = camera_layout_entries()[0];
            assert(bs[0].slot == entry.binding);
            if camera_buffer.usage == BufferUsage::Uniform {
                assert(kind_matches(entry.kind, bs[0].resource));
                assert(entry_filled(entry, bs));
                assert forall|i: int|
                    0 <= i < self.bind_group_layout.entries@.len() implies entry_filled(
                    #[trigger] self.bind_group_layout.entries@[i],
                    bs,
                ) by {
                    assert(self.bind_group_layout.entries@[i] == entry);
                }
            } else {
                assert forall|k: int|
                    0 <= k < bs.len() implies !((#[trigger] bs[k]).slot == entry.binding
                    && kind_matches(entry.kind, bs[k].resource)) by {
                    assert(bs[k] == bs[0]);
                }
                assert(!entry_filled(entry, bs));
                assert(slot_bound(bs, entry.binding));
                assert(!entry_filled(self.bind_group_layout.entries@[0], bs));
            }
        }
        self.bind_group_layout.instantiate(gpu, bindings)
    }
}

} // verus!
