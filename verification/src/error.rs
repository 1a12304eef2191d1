use vstd::prelude::*;

verus! {

/// Typed failures reported at the call boundary.
///
/// Fatal construction errors (no usable surface format, a shader missing one
/// of its two conventional entry points, a bind-set validation mismatch) and
/// caller-input errors (malformed image bytes, an unregistered layout or
/// pipeline name, an out-of-range material index) are never coerced into
/// default resources; they surface as one of these variants.
#[derive(Clone, Copy, Debug, PartialEq, Eq, Structural)]
pub enum RenderError {
    /// The adapter reported no supported presentation format.
    NoSurfaceFormat,
    /// The shader module does not expose the conventional vertex entry point.
    MissingVertexEntry,
    /// The shader module does not expose the conventional fragment entry point.
    MissingFragmentEntry,
    /// A bind layout name was looked up but never declared.
    UnknownLayout,
    /// A pipeline name was looked up but never registered.
    UnknownPipeline,
    /// A declared layout slot has no matching resource binding.
    MissingBinding { slot: u32 },
    /// A resource binding's kind does not match the slot's descriptor.
    BindingKindMismatch { slot: u32 },
    /// The image bytes could not be decoded.
    ImageDecode,
    /// A mesh refers to a material index outside the model's material list.
    MaterialIndexOutOfRange,
    /// An index list is too long for a 32-bit index count.
    TooManyIndices,
}

} // verus!
