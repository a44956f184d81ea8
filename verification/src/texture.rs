//! Textures: their formats, their descriptions, and how pixel rows lie in
//! the buffers they are copied from and to.

use vstd::prelude::*;
use crate::pipeline::SwapChainDescriptor;

verus! {

/// The texture formats the viewer uses.
#[derive(Clone, Copy, PartialEq, Eq, Structural, Debug)]
pub enum TextureFormat {
    /// 8-bit sRGB colour, blue first: the window's surface.
    Bgra8UnormSrgb,
    /// 8-bit sRGB colour, red first: images and the offscreen target.
    Rgba8UnormSrgb,
    /// 32-bit float depth.
    Depth32Float,
}

/// The description of a two-dimensional texture with one layer, one mip
/// level and one sample per pixel.
#[derive(Clone, Copy, PartialEq, Eq, Structural, Debug)]
pub struct TextureDescriptor {
    pub width: u32,
    pub height: u32,
    pub format: TextureFormat,
    /// Whether the texture can be rendered into.
    pub output_attachment: bool,
    /// Whether a shader can sample the texture.
    pub sampled: bool,
    /// Whether the texture can be copied from.
    pub copy_src: bool,
    /// Whether the texture can be copied to.
    pub copy_dst: bool,
}

/// How the rows of an image lie in a buffer.
#[derive(Clone, Copy, PartialEq, Eq, Structural, Debug)]
pub struct TextureDataLayout {
    pub offset: u64,
    pub bytes_per_row: u32,
    pub rows_per_image: u32,
}

/// The format of every depth texture.
pub const DEPTH_FORMAT: TextureFormat = TextureFormat::Depth32Float;

/// Bytes of one pixel in an 8-bit four-channel format.
pub const BYTES_PER_PIXEL: u32 = 4;

/// The depth texture that goes with a surface: of the surface's size, in
/// [`DEPTH_FORMAT`], to render into and to sample.
pub open spec fn depth_texture_for(sc_desc: SwapChainDescriptor) -> TextureDescriptor {
    TextureDescriptor {
        width: sc_desc.width,
        height: sc_desc.height,
        format: DEPTH_FORMAT,
        output_attachment: true,
        sampled: true,
        copy_src: false,
        copy_dst: false,
    }
}

/// The texture a decoded image is uploaded to: of the image's size, in
/// 8-bit sRGB, to copy to and to sample.
pub open spec fn image_texture_for(width: u32, height: u32) -> TextureDescriptor {
    TextureDescriptor {
        width,
        height,
        format: TextureFormat::Rgba8UnormSrgb,
        output_attachment: false,
        sampled: true,
        copy_src: false,
        copy_dst: true,
    }
}

/// Tightly packed rows of four-byte pixels, starting at the buffer's start.
pub open spec fn packed_rows(width: u32, height: u32) -> TextureDataLayout {
    TextureDataLayout {
        offset: 0,
        bytes_per_row: (BYTES_PER_PIXEL * width) as u32,
        rows_per_image: height,
    }
}

/// Describes the depth texture that goes with a surface.
pub fn depth_texture_descriptor(sc_desc: &SwapChainDescriptor) -> (descriptor: TextureDescriptor)
    ensures
        descriptor == depth_texture_for(*sc_desc),
{
    TextureDescriptor {
        width: sc_desc.width,
        height: sc_desc.height,
        format: DEPTH_FORMAT,
        output_attachment: true,
        sampled: true,
        copy_src: false,
        copy_dst: false,
    }
}

/// Describes the texture for a decoded image of the given size.
pub fn image_texture_descriptor(width: u32, height: u32) -> (descriptor: TextureDescriptor)
    ensures
        descriptor == image_texture_for(width, height),
{
    TextureDescriptor {
        width,
        height,
        format: TextureFormat::Rgba8UnormSrgb,
        output_attachment: false,
        sampled: true,
        copy_src: false,
        copy_dst: true,
    }
}

/// Lays out the rows of an image of four-byte pixels, tightly packed.
/// There is no such layout where a row is longer than 32 bits can count.
pub fn image_data_layout(width: u32, height: u32) -> (layout: Option<TextureDataLayout>)
    ensures
        BYTES_PER_PIXEL * width <= u32::MAX ==> layout == Some(packed_rows(width, height)),
        BYTES_PER_PIXEL * width > u32::MAX ==> layout is None,
{
    match BYTES_PER_PIXEL.checked_mul(width) {
        Some(bytes_per_row) => Some(
            TextureDataLayout { offset: 0, bytes_per_row, rows_per_image: height },
        ),
        None => None,
    }
}

impl TextureDataLayout {
    /// Bytes from the buffer's start to the end of the last row.
    pub open spec fn spec_size(self) -> int {
        self.offset + self.bytes_per_row * self.rows_per_image
    }
}

} // verus!
