//! The single frame rendered without a window: one triangle on a square
//! offscreen texture, copied to a buffer that is read back.

use vstd::prelude::*;
use core::ops::Range;
use crate::draw::{clear_color, span_of, Color, DrawCommand, Frame, RenderPass};
use crate::pipeline::{
    BlendDescriptor, ColorStateDescriptor, CullMode, FrontFace, IndexFormat, PrimitiveTopology,
    RenderPipeline, RenderPipelineDescriptor,
};
use crate::texture::{
    packed_rows, TextureDataLayout, TextureDescriptor, TextureFormat, BYTES_PER_PIXEL,
};

verus! {

/// Width and height of the offscreen texture, in pixels.
pub const TEXTURE_SIZE: u32 = 256;

/// The alignment the GPU asks of the rows of a texture copy, in bytes.
pub const ROW_ALIGNMENT: u32 = 256;

/// The texture the frame is rendered into: square, 8-bit sRGB, to render
/// into and to copy from.
pub open spec fn target() -> TextureDescriptor {
    TextureDescriptor {
        width: TEXTURE_SIZE,
        height: TEXTURE_SIZE,
        format: TextureFormat::Rgba8UnormSrgb,
        output_attachment: true,
        sampled: false,
        copy_src: true,
        copy_dst: false,
    }
}

/// The pipeline of the offscreen frame: no bind groups, no vertex buffers,
/// no depth test; counter-clockwise triangles with their backs culled;
/// colours replaced in the target's format.
pub open spec fn pipeline() -> RenderPipeline {
    RenderPipeline {
        bind_group_layouts: seq![],
        front_face: FrontFace::Ccw,
        cull_mode: CullMode::Back,
        primitive_topology: PrimitiveTopology::TriangleList,
        color_state: ColorStateDescriptor {
            format: target().format,
            color_blend: BlendDescriptor::Replace,
            alpha_blend: BlendDescriptor::Replace,
        },
        depth_stencil_state: None,
        index_format: IndexFormat::Uint32,
        vertex_buffers: seq![],
        sample_count: 1,
        sample_mask: 0xFFFF_FFFF,
        alpha_to_coverage_enabled: false,
    }
}

/// What the offscreen pass draws: the pipeline, then three vertices of one
/// instance.  The vertex shader makes up the positions.
pub open spec fn frame_commands() -> Seq<DrawCommand> {
    seq![
        DrawCommand::SetPipeline,
        DrawCommand::Draw {
            vertices: span_of(Range { start: 0, end: 3 }),
            instances: span_of(Range { start: 0, end: 1 }),
        },
    ]
}

/// Describes the texture the frame is rendered into.
pub fn target_descriptor() -> (descriptor: TextureDescriptor)
    ensures
        descriptor == target(),
{
    TextureDescriptor {
        width: TEXTURE_SIZE,
        height: TEXTURE_SIZE,
        format: TextureFormat::Rgba8UnormSrgb,
        output_attachment: true,
        sampled: false,
        copy_src: true,
        copy_dst: false,
    }
}

/// Lays out the rows of the frame in the output buffer: tightly packed,
/// which for this size also meets the GPU's row alignment.
pub fn output_layout() -> (layout: TextureDataLayout)
    ensures
        layout == packed_rows(TEXTURE_SIZE, TEXTURE_SIZE),
        layout.bytes_per_row == 1024,
        layout.bytes_per_row % ROW_ALIGNMENT == 0,
{
    TextureDataLayout {
        offset: 0,
        bytes_per_row: BYTES_PER_PIXEL * TEXTURE_SIZE,
        rows_per_image: TEXTURE_SIZE,
    }
}

/// The size of the output buffer in bytes: just what the rows of the frame
/// take.
pub fn output_buffer_size() -> (size: u64)
    ensures
        size == packed_rows(TEXTURE_SIZE, TEXTURE_SIZE).spec_size(),
        size == 262144,
{
    let size: u32 = BYTES_PER_PIXEL * TEXTURE_SIZE * TEXTURE_SIZE;
    size as u64
}

/// Describes the pipeline of the offscreen frame.
pub fn pipeline_descriptor() -> (descriptor: RenderPipelineDescriptor)
    ensures
        descriptor@ == pipeline(),
{
    let descriptor = RenderPipelineDescriptor {
        bind_group_layouts: Vec::new(),
        front_face: FrontFace::Ccw,
        cull_mode: CullMode::Back,
        primitive_topology: PrimitiveTopology::TriangleList,
        color_state: ColorStateDescriptor {
            format: TextureFormat::Rgba8UnormSrgb,
            color_blend: BlendDescriptor::Replace,
            alpha_blend: BlendDescriptor::Replace,
        },
        depth_stencil_state: None,
        index_format: IndexFormat::Uint32,
        vertex_buffers: Vec::new(),
        sample_count: 1,
        sample_mask: 0xFFFF_FFFF,
        alpha_to_coverage_enabled: false,
    };
    assert(descriptor@.bind_group_layouts =~= pipeline().bind_group_layouts);
    assert(descriptor@.vertex_buffers =~= pipeline().vertex_buffers);
    descriptor
}

/// Lays out the offscreen frame: cleared to the viewer's clear colour,
/// without depth, one triangle drawn.
pub fn render() -> (frame: Frame)
    ensures
        frame.clear_color == clear_color(),
        frame.clear_depth is None,
        frame.pass@ == frame_commands(),
{
    let mut pass = RenderPass::new();
    pass.set_pipeline();
    pass.draw(0..3, 0..1);
    assert(pass@ =~= frame_commands());
    Frame { clear_color: Color::background(), clear_depth: None, pass }
}

} // verus!
