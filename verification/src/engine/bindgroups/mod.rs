use vstd::prelude::*;

use crate::device::DeviceContext;
use crate::engine::buffers::BufferUsage;
use crate::error::RenderError;

pub mod camera;
pub mod texture;

use self::camera::{camera_layout_entries, CameraBindGroup};
use self::texture::{texture_layout_entries, TextureBindGroup};

verus! {

/// The pipeline stage a binding is visible to.
#[derive(Clone, Copy, Debug, PartialEq, Eq, Structural)]
pub enum ShaderStage {
    Vertex,
    Fragment,
}

/// The kind of resource a layout slot expects.
#[derive(Clone, Copy, Debug, PartialEq, Eq, Structural)]
pub enum BindingKind {
    UniformBuffer,
    Texture2D,
    Sampler,
}

/// One declared slot of a bind layout: its index, the stage it is visible
/// to, and the kind of resource it takes.
#[derive(Clone, Copy, Debug, PartialEq, Eq, Structural)]
pub struct LayoutEntry {
    pub binding: u32,
    pub visibility: ShaderStage,
    pub kind: BindingKind,
}

/// The declared shape of one bind set: an ordered list of slots. Declared
/// once, never mutated, and shared read-only by every bind set instantiated
/// against it and every pipeline that references it.
#[derive(Debug)]
pub struct BindLayout {
    pub entries: Vec<LayoutEntry>,
}

/// A concrete resource offered for one slot.
#[derive(Clone, Copy, Debug, PartialEq, Eq, Structural)]
pub enum BoundResource {
    Buffer { id: u64, usage: BufferUsage },
    TextureView { id: u64 },
    Sampler { id: u64 },
}

/// A resource offered for a named slot when a bind set is instantiated.
#[derive(Clone, Copy, Debug, PartialEq, Eq, Structural)]
pub struct ResourceBinding {
    pub slot: u32,
    pub resource: BoundResource,
}

/// A bind layout's slots bound to concrete resources. `id` stands for the
/// underlying bind-set handle; the shape it was instantiated against and
/// the accepted bindings are kept so that draw-time slot counts can be held
/// against the declaration.
#[derive(Debug)]
pub struct BindSet {
    pub id: u64,
    pub layout_entries: Vec<LayoutEntry>,
    pub bindings: Vec<ResourceBinding>,
}

/// Whether a resource is of the kind a slot's descriptor expects: a uniform
/// slot takes a buffer tagged Uniform, a texture slot a texture view, a
/// sampler slot a sampler.
pub open spec fn kind_matches(kind: BindingKind, resource: BoundResource) -> bool {
    match kind {
        BindingKind::UniformBuffer => resource matches BoundResource::Buffer {
            usage: BufferUsage::Uniform,
            ..
        },
        BindingKind::Texture2D => resource matches BoundResource::TextureView { .. },
        BindingKind::Sampler => resource matches BoundResource::Sampler { .. },
    }
}

/// Whether some offered binding names this slot at all.
pub open spec fn slot_bound(bindings: Seq<ResourceBinding>, slot: u32) -> bool {
    exists|k: int| 0 <= k < bindings.len() && (#[trigger] bindings[k]).slot == slot
}

/// Whether some offered binding fills this declared slot with a resource of
/// the expected kind.
pub open spec fn entry_filled(entry: LayoutEntry, bindings: Seq<ResourceBinding>) -> bool {
    exists|k: int|
        0 <= k < bindings.len() && (#[trigger] bindings[k]).slot == entry.binding && kind_matches(
            entry.kind,
            bindings[k].resource,
        )
}

/// Whether every declared slot of the layout is filled by a binding of the
/// expected kind: the condition under which instantiation succeeds.
pub open spec fn bindings_satisfy(layout: BindLayout, bindings: Seq<ResourceBinding>) -> bool {
    forall|i: int|
        0 <= i < layout.entries@.len() ==> entry_filled(#[trigger] layout.entries@[i], bindings)
}

/// The typed failure reported for one unfilled slot: a kind mismatch if
/// some binding names the slot but none of the expected kind does, else a
/// missing binding.
pub open spec fn entry_error(entry: LayoutEntry, bindings: Seq<ResourceBinding>) -> RenderError {
    if slot_bound(bindings, entry.binding) {
        RenderError::BindingKindMismatch { slot: entry.binding }
    } else {
        RenderError::MissingBinding { slot: entry.binding }
    }
}

/// The failure instantiation reports: the one for the first declared slot,
/// in declaration order, that is not properly filled.
pub open spec fn first_violation(entries: Seq<LayoutEntry>, bindings: Seq<ResourceBinding>) -> RenderError
    decreases entries.len(),
{
    if entries.len() == 0 {
        arbitrary()
    } else if !entry_filled(entries[0], bindings) {
        entry_error(entries[0], bindings)
    } else {
        first_violation(entries.drop_first(), bindings)
    }
}

proof fn lemma_first_violation_at(entries: Seq<LayoutEntry>, bindings: Seq<ResourceBinding>, n: int)
    requires
        0 <= n < entries.len(),
        forall|i: int| 0 <= i < n ==> entry_filled(#[trigger] entries[i], bindings),
        !entry_filled(entries[n], bindings),
    ensures
        first_violation(entries, bindings) == entry_error(entries[n], bindings),
    decreases n,
{
    if n > 0 {
        let rest = entries.drop_first();
        assert forall|i: int| 0 <= i < n - 1 implies entry_filled(#[trigger] rest[i], bindings) by {
            assert(rest[i] == entries[i + 1]);
        }
        assert(rest[n - 1] == entries[n]);
        lemma_first_violation_at(rest, bindings, n - 1);
    }
}

/// Instantiation never partially binds: a layout with any slot that the
/// offered bindings omit, or fill only with a mismatched kind, is not
/// satisfied, so `BindLayout::instantiate` reports the typed failure
/// instead of returning a bind set.
pub proof fn lemma_unfilled_slot_fails(layout: BindLayout, bindings: Seq<ResourceBinding>, i: int)
    requires
        0 <= i < layout.entries@.len(),
        !entry_filled(layout.entries@[i], bindings),
    ensures
        !bindings_satisfy(layout, bindings),
{
}

/// Whether a resource is of the kind the slot's descriptor expects.
pub fn kind_matches_exec(kind: BindingKind, resource: &BoundResource) -> (b: bool)
    ensures
        b == kind_matches(kind, *resource),
{
    match kind {
        BindingKind::UniformBuffer => match resource {
            BoundResource::Buffer { usage: BufferUsage::Uniform, .. } => true,
            _ => false,
        },
        BindingKind::Texture2D => match resource {
            BoundResource::TextureView { .. } => true,
            _ => false,
        },
        BindingKind::Sampler => match resource {
            BoundResource::Sampler { .. } => true,
            _ => false,
        },
    }
}

fn check_entry(entry: &LayoutEntry, bindings: &Vec<ResourceBinding>) -> (r: Result<(), RenderError>)
    ensures
        r is Ok <==> entry_filled(*entry, bindings@),
        r is Err ==> r == Err::<(), RenderError>(entry_error(*entry, bindings@)),
{
    let mut slot_seen = false;
    let mut j: usize = 0;
    while j < bindings.len()
        invariant
            j <= bindings@.len(),
            slot_seen == slot_bound(bindings@.take(j as int), entry.binding),
            forall|k: int|
                0 <= k < j ==> !((#[trigger] bindings@[k]).slot == entry.binding && kind_matches(
                    entry.kind,
                    bindings@[k].resource,
                )),
        decreases bindings@.len() - j,
    {
        if bindings[j].slot == entry.binding {
            if kind_matches_exec(entry.kind, &bindings[j].resource) {
                return Ok(());
            }
            slot_seen = true;
        }
        proof {
            assert(bindings@.take(j as int + 1).drop_last() =~= bindings@.take(j as int));
            if slot_seen && !slot_bound(bindings@.take(j as int), entry.binding) {
                assert(bindings@.take(j as int + 1)[j as int].slot == entry.binding);
            }
            assert forall|k: int|
                0 <= k < j + 1 && (#[trigger] bindings@.take(j as int + 1)[k]).slot
                    == entry.binding implies slot_seen by {
                if k < j {
                    assert(slot_bound(bindings@.take(j as int), entry.binding));
                }
            }
        }
        j = j + 1;
    }
    proof {
        assert(bindings@.take(bindings@.len() as int) =~= bindings@);
    }
    if slot_seen {
        Err(RenderError::BindingKindMismatch { slot: entry.binding })
    } else {
        Err(RenderError::MissingBinding { slot: entry.binding })
    }
}

/// Copies a layout's entry list so a bind set can keep the shape it was
/// instantiated against.
pub fn copy_entries(src: &Vec<LayoutEntry>) -> (r: Vec<LayoutEntry>)
    ensures
        r@ == src@,
{
    let mut r: Vec<LayoutEntry> = Vec::new();
    let mut i: usize = 0;
    while i < src.len()
        invariant
            i <= src@.len(),
            r@ =~= src@.take(i as int),
        decreases src@.len() - i,
    {
        r.push(src[i]);
        proof {
            assert(r@ =~= src@.take(i as int + 1));
        }
        i = i + 1;
    }
    proof {
        assert(src@.take(src@.len() as int) =~= src@);
    }
    r
}

impl BindLayout {
    /// Validates that every declared slot has a matching resource binding of
    /// the expected kind, and only then binds: a mismatch is reported here,
    /// at call time, never deferred to draw time.
    pub fn instantiate(&self, gpu: &mut DeviceContext, bindings: Vec<ResourceBinding>) -> (r:
        Result<BindSet, RenderError>)
        requires
            old(gpu).next_id < u64::MAX,
        ensures
            r is Ok <==> bindings_satisfy(*self, bindings@),
            r matches Ok(bs) ==> {
                &&& bs.id == old(gpu).next_id
                &&& bs.layout_entries@ == self.entries@
                &&& bs.bindings@ == bindings@
                &&& final(gpu).next_id == old(gpu).next_id + 1
                &&& final(gpu).config == old(gpu).config
            },
            r matches Err(e) ==> {
                &&& e == first_violation(self.entries@, bindings@)
                &&& *final(gpu) == *old(gpu)
            },
    {
        let mut i: usize = 0;
        while i < self.entries.len()
            invariant
                i <= self.entries@.len(),
                forall|k: int| 0 <= k < i ==> entry_filled(#[trigger] self.entries@[k], bindings@),
            decreases self.entries@.len() - i,
        {
            let checked = check_entry(&self.entries[i], &bindings);
            match checked {
                Ok(_) => {}
                Err(e) => {
                    proof {
                        lemma_first_violation_at(self.entries@, bindings@, i as int);
                    }
                    return Err(e);
                }
            }
            i = i + 1;
        }
        let id = gpu.next_id;
        gpu.next_id = gpu.next_id + 1;
        Ok(BindSet { id, layout_entries: copy_entries(&self.entries), bindings })
    }
}

/// The two bind layouts every pipeline of this kit consumes, declared once
/// at startup: the material's texture layout and the camera layout.
#[derive(Debug)]
pub struct BindGroups {
    pub camera: CameraBindGroup,
    pub texture: TextureBindGroup,
}

impl BindGroups {
    pub fn new() -> (r: BindGroups)
        ensures
            r.camera.bind_group_layout.entries@ == camera_layout_entries(),
            r.texture.bind_group_layout.entries@ == texture_layout_entries(),
    {
        BindGroups { camera: CameraBindGroup::new(), texture: TextureBindGroup::new() }
    }
}

} // verus!
