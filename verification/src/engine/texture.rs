use vstd::prelude::*;

use crate::device::DeviceContext;
use crate::error::RenderError;

verus! {

/// How a sampler resolves coordinates outside the texture.
#[derive(Clone, Copy, Debug, PartialEq, Eq, Structural)]
pub enum AddressMode {
    ClampToEdge,
    Repeat,
    MirrorRepeat,
}

/// How a sampler filters between texels.
#[derive(Clone, Copy, Debug, PartialEq, Eq, Structural)]
pub enum FilterMode {
    Nearest,
    Linear,
}

/// A sampler's full description.
#[derive(Clone, Copy, Debug, PartialEq, Eq, Structural)]
pub struct SamplerInfo {
    pub address_mode_u: AddressMode,
    pub address_mode_v: AddressMode,
    pub address_mode_w: AddressMode,
    pub mag_filter: FilterMode,
    pub min_filter: FilterMode,
    pub mipmap_filter: FilterMode,
}

/// The extent of an image. Two-dimensional textures are represented as
/// three-dimensional images of unit depth, a convention inherited from the
/// underlying graphics interface.
#[derive(Clone, Copy, Debug, PartialEq, Eq, Structural)]
pub struct Extent3d {
    pub width: u32,
    pub height: u32,
    pub depth_or_array_layers: u32,
}

/// The texel format a texture is allocated with.
#[derive(Clone, Copy, Debug, PartialEq, Eq, Structural)]
pub enum TexelFormat {
    Rgba8Unorm,
    Rgba8UnormSrgb,
}

/// A created texture: the numbers standing for its image, view and sampler
/// handles, its extent, its texel format, and the sampler description it
/// was built with. Immutable once created.
#[derive(Debug)]
pub struct Texture {
    pub texture_id: u64,
    pub view_id: u64,
    pub sampler_id: u64,
    pub size: Extent3d,
    pub format: TexelFormat,
    pub sampler: SamplerInfo,
}

/// The row-pitch-aware copy that uploads a texture's pixels through the
/// queue: which image, the raw bytes, and the layout of the byte block
/// (offset, pitch of one row, number of rows) together with the extent
/// written.
#[derive(Debug)]
pub struct TextureUpload {
    pub texture_id: u64,
    pub data: Vec<u8>,
    pub offset: u64,
    pub bytes_per_row: u64,
    pub rows_per_image: u32,
    pub size: Extent3d,
}

/// An image already decoded to raw RGBA8 rows: four bytes for each of
/// `width * height` pixels.
#[derive(Debug)]
pub struct DecodedImage {
    pub width: u32,
    pub height: u32,
    pub rgba: Vec<u8>,
}

impl DecodedImage {
    /// The byte payload holds exactly the pixel grid it claims.
    pub open spec fn wf(self) -> bool {
        self.rgba@.len() == 4 * self.width * self.height
    }
}

/// What decoding a byte payload yields, when it is a well-formed image:
/// the width, the height, and the raw RGBA8 bytes. Decoding is a function
/// of the payload alone.
pub uninterp spec fn decoded_rgba_of(bytes: Seq<u8>) -> Option<(u32, u32, Seq<u8>)>;

#[verifier::external_type_specification]
#[verifier::external_body]
pub struct ExImageError(image::ImageError);

/// Relies on image::load_from_memory (and DynamicImage::to_rgba8 to put the
/// decoded pixels into RGBA8 order): decoding is a function of the byte
/// payload alone, and an RGBA8 image buffer holds exactly four bytes per
/// pixel of its width-by-height grid.
#[verifier::external_body]
fn decode_rgba(bytes: &[u8]) -> (r: Result<(u32, u32, Vec<u8>), image::ImageError>)
    ensures
        r is Ok <==> decoded_rgba_of(bytes@) is Some,
        r matches Ok(d) ==> {
            &&& decoded_rgba_of(bytes@) == Some((d.0, d.1, d.2@))
            &&& d.2@.len() == 4 * d.0 * d.1
        },
{
    match image::load_from_memory(bytes) {
        Ok(img) => {
            let rgba = img.to_rgba8();
            let (w, h) = rgba.dimensions();
            Ok((w, h, rgba.into_raw()))
        },
        Err(e) => Err(e),
    }
}

impl Texture {
    /// Allocates a 2D image of the decoded size with unit depth, describes
    /// the row-pitch-aware upload of the raw RGBA8 rows (pitch four bytes
    /// per pixel of one row, one row per line), and builds the default view
    /// and a clamp-to-edge sampler with linear magnification and
    /// nearest-neighbor minification and mip filtering.
    pub fn from_image(gpu: &mut DeviceContext, img: DecodedImage) -> (r: (Texture, TextureUpload))
        requires
            img.wf(),
            old(gpu).next_id + 3 <= u64::MAX,
        ensures
            r.0.texture_id == old(gpu).next_id,
            r.0.view_id == old(gpu).next_id + 1,
            r.0.sampler_id == old(gpu).next_id + 2,
            r.0.size == (Extent3d {
                width: img.width,
                height: img.height,
                depth_or_array_layers: 1,
            }),
            r.0.format == TexelFormat::Rgba8UnormSrgb,
            r.0.sampler == (SamplerInfo {
                address_mode_u: AddressMode::ClampToEdge,
                address_mode_v: AddressMode::ClampToEdge,
                address_mode_w: AddressMode::ClampToEdge,
                mag_filter: FilterMode::Linear,
                min_filter: FilterMode::Nearest,
                mipmap_filter: FilterMode::Nearest,
            }),
            r.1.texture_id == r.0.texture_id,
            r.1.offset == 0,
            r.1.bytes_per_row == 4 * img.width,
            r.1.rows_per_image == img.height,
            r.1.size == r.0.size,
            r.1.data@ == img.rgba@,
            r.1.data@.len() == 4 * img.width * img.height,
            final(gpu).next_id == old(gpu).next_id + 3,
            final(gpu).config == old(gpu).config,
    {
        let texture_id = gpu.next_id;
        let view_id = gpu.next_id + 1;
        let sampler_id = gpu.next_id + 2;
        gpu.next_id = gpu.next_id + 3;
        let size = Extent3d { width: img.width, height: img.height, depth_or_array_layers: 1 };
        let texture = Texture {
            texture_id,
            view_id,
            sampler_id,
            size,
            format: TexelFormat::Rgba8UnormSrgb,
            sampler: SamplerInfo {
                address_mode_u: AddressMode::ClampToEdge,
                address_mode_v: AddressMode::ClampToEdge,
                address_mode_w: AddressMode::ClampToEdge,
                mag_filter: FilterMode::Linear,
                min_filter: FilterMode::Nearest,
                mipmap_filter: FilterMode::Nearest,
            },
        };
        let bytes_per_row: u64 = 4u64 * (img.width as u64);
        let upload = TextureUpload {
            texture_id,
            data: img.rgba,
            offset: 0,
            bytes_per_row,
            rows_per_image: img.height,
            size,
        };
        (texture, upload)
    }

    /// Decodes an image byte payload and creates a texture from it.
    /// Malformed bytes propagate as the typed decode failure; no default
    /// texture is ever produced in their place.
    pub fn from_bytes(gpu: &mut DeviceContext, bytes: &[u8]) -> (r: Result<
        (Texture, TextureUpload),
        RenderError,
    >)
        requires
            old(gpu).next_id + 3 <= u64::MAX,
        ensures
            r is Ok <==> decoded_rgba_of(bytes@) is Some,
            r matches Ok(p) ==> (decoded_rgba_of(bytes@) matches Some(d) && {
                &&& p.0.size == (Extent3d { width: d.0, height: d.1, depth_or_array_layers: 1 })
                &&& p.0.format == TexelFormat::Rgba8UnormSrgb
                &&& p.0.texture_id == old(gpu).next_id
                &&& p.0.view_id == old(gpu).next_id + 1
                &&& p.0.sampler_id == old(gpu).next_id + 2
                &&& p.1.texture_id == p.0.texture_id
                &&& p.1.offset == 0
                &&& p.1.bytes_per_row == 4 * d.0
                &&& p.1.rows_per_image == d.1
                &&& p.1.size == p.0.size
                &&& p.1.data@ == d.2
                &&& final(gpu).next_id == old(gpu).next_id + 3
                &&& final(gpu).config == old(gpu).config
            }),
            r is Err ==> r == Err::<(Texture, TextureUpload), RenderError>(
                RenderError::ImageDecode,
            ) && *final(gpu) == *old(gpu),
    {
        match decode_rgba(bytes) {
            Ok((w, h, px)) => {
                let img = DecodedImage { width: w, height: h, rgba: px };
                let pair = Self::from_image(gpu, img);
                Ok(pair)
            },
            Err(_) => Err(RenderError::ImageDecode),
        }
    }
}

} // verus!
