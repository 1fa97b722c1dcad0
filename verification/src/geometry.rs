//! Vertex layout and index order of the shapes the renderers draw.
use vstd::prelude::*;

verus! {

/// Size in bytes of one vertex component (a 32-bit float).
pub const BYTES_PER_COMPONENT: usize = 4;

/// Components per vertex in the raw-GL vertex buffer: a 2D position
/// followed by three texture/colour components.
pub const COMPONENTS_PER_VERTEX: usize = 5;

/// Components of the `position` attribute.
pub const POSITION_COMPONENTS: i32 = 2;

/// Components of the `tex_coords` attribute.
pub const TEX_COORD_COMPONENTS: i32 = 3;

/// How the raw-GL renderer declares its vertex buffer: the buffer's size and
/// the two interleaved attributes with their sizes, byte offsets and the
/// common stride.
pub struct VertexLayout {
    pub buffer_bytes: isize,
    pub stride_bytes: i32,
    pub position_components: i32,
    pub position_offset_bytes: usize,
    pub tex_coords_components: i32,
    pub tex_coords_offset_bytes: usize,
}

/// The vertex layout for a buffer of `component_count` float components:
/// the buffer holds `component_count * 4` bytes, each vertex takes 20 bytes,
/// the position (2 components) starts at byte 0 of a vertex and the texture
/// coordinates (3 components) right after it, at byte 8.
pub fn vertex_layout(component_count: usize) -> (layout: VertexLayout)
    requires
        component_count * BYTES_PER_COMPONENT <= isize::MAX,
    ensures
        layout.buffer_bytes == component_count * BYTES_PER_COMPONENT,
        layout.stride_bytes == COMPONENTS_PER_VERTEX * BYTES_PER_COMPONENT,
        layout.stride_bytes == 20,
        layout.position_components == POSITION_COMPONENTS,
        layout.position_offset_bytes == 0,
        layout.tex_coords_components == TEX_COORD_COMPONENTS,
        layout.tex_coords_offset_bytes == POSITION_COMPONENTS * BYTES_PER_COMPONENT,
        layout.tex_coords_offset_bytes == 8,
{
    let bytes: usize = component_count * BYTES_PER_COMPONENT;
    VertexLayout {
        buffer_bytes: bytes as isize,
        stride_bytes: (COMPONENTS_PER_VERTEX * BYTES_PER_COMPONENT) as i32,
        position_components: POSITION_COMPONENTS,
        position_offset_bytes: 0,
        tex_coords_components: TEX_COORD_COMPONENTS,
        tex_coords_offset_bytes: (POSITION_COMPONENTS as usize) * BYTES_PER_COMPONENT,
    }
}

/// Width and height, in texels, of the texture the native-window renderer
/// refreshes every frame.
pub const NATIVE_TEXTURE_SIZE: u32 = 1000;

/// Order in which the native-window renderer visits the four corners of its
/// full-screen quad as a triangle strip: top-left, top-right, bottom-left,
/// bottom-right (corners are stored bottom-left, top-left, top-right,
/// bottom-right).
pub fn quad_strip_indices() -> (indices: Vec<u16>)
    ensures
        indices@ == seq![1u16, 2u16, 0u16, 3u16],
{
    let mut indices: Vec<u16> = Vec::new();
    indices.push(1);
    indices.push(2);
    indices.push(0);
    indices.push(3);
    indices
}

} // verus!
