use vstd::prelude::*;

use crate::device::DeviceContext;
use crate::engine::bindgroups::{
    bindings_satisfy, entry_filled, kind_matches, BindLayout, BindSet, BindingKind, BoundResource,
    LayoutEntry, ResourceBinding, ShaderStage,
};
use crate::engine::texture::Texture;
use crate::error::RenderError;
use vstd::pervasive::unreached;

verus! {

/// The declared shape of a material's bind set: the diffuse texture view at
/// binding 0 and its sampler at binding 1, both visible to the fragment
/// stage.
pub open spec fn texture_layout_entries() -> Seq<LayoutEntry> {
    seq![
        LayoutEntry { binding: 0, visibility: ShaderStage::Fragment, kind: BindingKind::Texture2D },
        LayoutEntry { binding: 1, visibility: ShaderStage::Fragment, kind: BindingKind::Sampler },
    ]
}

/// Declares the bind layout through which a material's diffuse texture and
/// sampler reach the fragment stage.
#[derive(Debug)]
pub struct TextureBindGroup {
    pub bind_group_layout: BindLayout,
}

impl TextureBindGroup {
    pub fn new() -> (r: TextureBindGroup)
        ensures
            r.bind_group_layout.entries@ == texture_layout_entries(),
    {
        let mut entries: Vec<LayoutEntry> = Vec::new();
        entries.push(LayoutEntry {
            binding: 0,
            visibility: ShaderStage::Fragment,
            kind: BindingKind::Texture2D,
        });
        entries.push(LayoutEntry {
            binding: 1,
            visibility: ShaderStage::Fragment,
            kind: BindingKind::Sampler,
        });
        proof {
            assert(entries@ =~= texture_layout_entries());
        }
        TextureBindGroup { bind_group_layout: BindLayout { entries } }
    }

    /// Binds a texture's view and sampler at their declared slots. A
    /// texture always carries both, so this instantiation cannot fail.
    pub fn create_bind_group(&self, gpu: &mut DeviceContext, texture: &Texture) -> (bs: BindSet)
        requires
            old(gpu).next_id < u64::MAX,
            self.bind_group_layout.entries@ == texture_layout_entries(),
        ensures
            bs.id == old(gpu).next_id,
            bs.layout_entries@ == texture_layout_entries(),
            bs.bindings@ == seq![
                ResourceBinding {
                    slot: 0,
                    resource: BoundResource::TextureView { id: texture.view_id },
                },
                ResourceBinding { slot: 1, resource: BoundResource::Sampler { id: texture.sampler_id } },
            ],
            final(gpu).next_id == old(gpu).next_id + 1,
            final(gpu).config == old(gpu).config,
    {
        let mut bindings: Vec<ResourceBinding> = Vec::new();
        bindings.push(ResourceBinding {
            slot: 0,
            resource: BoundResource::TextureView { id: texture.view_id },
        });
        bindings.push(ResourceBinding {
            slot: 1,
            resource: BoundResource::Sampler { id: texture.sampler_id },
        });
        proof {
            let bs = bindings@;
            let e0 = texture_layout_entries()[0];
            let e1 = texture_layout_entries()[1];
            assert(bs[0].slot == e0.binding && kind_matches(e0.kind, bs[0].resource));
            assert(entry_filled(e0, bs));
            assert(bs[1].slot == e1.binding && kind_matches(e1.kind, bs[1].resource));
            assert(entry_filled(e1, bs));
            assert forall|i: int|
                0 <= i < self.bind_group_layout.entries@.len() implies entry_filled(
                #[trigger] self.bind_group_layout.entries@[i],
                bs,
            ) by {
                if i == 0 {
                    assert(self.bind_group_layout.entries@[i] == e0);
                } else {
                    assert(self.bind_group_layout.entries@[i] == e1);
                }
            }
            assert(bindings_satisfy(self.bind_group_layout, bs));
        }
        match self.bind_group_layout.instantiate(gpu, bindings) {
            Ok(bs) => bs,
            Err(_) => unreached(),
        }
    }
}

} // verus!
