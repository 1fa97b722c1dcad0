//! State of the raw-GL renderer and what it draws each frame.
use vstd::prelude::*;
use crate::texture::{products_fit_u32, texture_data, texture_row};

verus! {

/// Width, in texels, of the texture the renderer creates and refreshes.
pub const TEXTURE_WIDTH: u32 = 300;

/// Height, in texels, of the texture the renderer creates and refreshes.
pub const TEXTURE_HEIGHT: u32 = 300;

/// Texture unit that the sampler uniform `tex` is bound to.
pub const TEXTURE_UNIT: i32 = 0;

/// Index of the first vertex drawn each frame.
pub const FIRST_VERTEX: i32 = 0;

/// Number of vertices drawn each frame (one triangle).
pub const VERTEX_COUNT: i32 = 3;

/// `GL_COLOR_BUFFER_BIT`: the buffer cleared at the start of a frame.
pub const GL_COLOR_BUFFER_BIT: u32 = 0x4000;

/// `GL_TEXTURE_2D`: the target the texture is bound to and updated through.
pub const GL_TEXTURE_2D: u32 = 0x0DE1;

/// `GL_RED`, passed as the type argument of the texture update.
pub const GL_RED: u32 = 0x1903;

/// `GL_TRIANGLE_STRIP`: the primitive mode of the frame's draw call.
pub const GL_TRIANGLE_STRIP: u32 = 0x0005;

/// The GL objects a renderer owns and the size of its texture.
///
/// `tex_id` names the texture object and `tex_location` the location of the
/// sampler uniform in the linked program.
pub struct PureGlRenderer {
    pub(crate) tex_id: Option<u32>,
    pub(crate) tex_location: Option<i32>,
    pub(crate) width: u32,
    pub(crate) height: u32,
}

/// The integer arguments of the GL calls a frame makes, in the order it
/// makes them (the clear colour, opaque blue, is a float and is supplied by
/// the caller):
///
/// - clear the buffers in `clear_mask`;
/// - set the sampler uniform at `tex_location` to `texture_unit`;
/// - bind texture `tex_id` to `texture_target`;
/// - update mip level `upload_level` of `texture_target` at offset
///   (`upload_x_offset`, `upload_y_offset`) with an `upload_width` by
///   `upload_height` region, format `upload_format` and type `upload_type`,
///   from the texel rows `rows`;
/// - draw `vertex_count` vertices from `first_vertex` in mode `draw_mode`.
pub struct FrameDraw {
    pub clear_mask: u32,
    pub tex_location: i32,
    pub texture_unit: i32,
    pub texture_target: u32,
    pub tex_id: u32,
    pub upload_level: i32,
    pub upload_x_offset: i32,
    pub upload_y_offset: i32,
    pub upload_width: i32,
    pub upload_height: i32,
    pub upload_format: u32,
    pub upload_type: u32,
    pub rows: Vec<Vec<u8>>,
    pub draw_mode: u32,
    pub first_vertex: i32,
    pub vertex_count: i32,
}

/// A call a renderer serves after it is set up.
pub enum RendererCall {
    ParseFrame,
    Draw,
}

/// How a renderer's state before a call relates to its state after it:
/// `parse_frame` leaves the renderer as it was, and `prepare_draw` only
/// reads it.
pub open spec fn call_keeps_state(
    before: PureGlRenderer,
    after: PureGlRenderer,
    call: RendererCall,
) -> bool {
    match call {
        RendererCall::ParseFrame => after == before,
        RendererCall::Draw => after == before,
    }
}

/// A renderer set up by `new` keeps its 300 by 300 texture and both GL
/// objects through any sequence of `parse_frame` and `prepare_draw` calls:
/// `states[k]` is the renderer after the first `k` calls. So it stays ready
/// to draw, and its texture size keeps every index product within `u32`.
pub proof fn lemma_renderer_keeps_setup(states: Seq<PureGlRenderer>, calls: Seq<RendererCall>)
    requires
        states.len() == calls.len() + 1,
        states[0].texture_width() == TEXTURE_WIDTH,
        states[0].texture_height() == TEXTURE_HEIGHT,
        states[0].is_ready(),
        forall|k: int|
            0 <= k < calls.len() ==> #[trigger] call_keeps_state(states[k], states[k + 1], calls[k]),
    ensures
        states.last().texture_width() == TEXTURE_WIDTH,
        states.last().texture_height() == TEXTURE_HEIGHT,
        states.last().texture_id() == states[0].texture_id(),
        states.last().sampler_location() == states[0].sampler_location(),
        states.last().is_ready(),
        products_fit_u32(states.last().texture_width(), states.last().texture_height()),
    decreases calls.len(),
{
    if calls.len() > 0 {
        let n = calls.len() - 1;
        lemma_renderer_keeps_setup(states.drop_last(), calls.drop_last());
        assert(call_keeps_state(states[n], states[n + 1], calls[n]));
    }
    assert(products_fit_u32(TEXTURE_WIDTH, TEXTURE_HEIGHT)) by (nonlinear_arith)
        requires
            TEXTURE_WIDTH == 300,
            TEXTURE_HEIGHT == 300,
    ;
}

impl PureGlRenderer {
    /// Every renderer's texture can be filled with 32-bit index products.
    #[verifier::type_invariant]
    spec fn size_fits(self) -> bool {
        products_fit_u32(self.width, self.height)
    }

    /// Texture object, if the renderer holds one.
    pub closed spec fn texture_id(self) -> Option<u32> {
        self.tex_id
    }

    /// Location of the sampler uniform, if the renderer holds one.
    pub closed spec fn sampler_location(self) -> Option<i32> {
        self.tex_location
    }

    /// Width of the renderer's texture, in texels.
    pub closed spec fn texture_width(self) -> u32 {
        self.width
    }

    /// Height of the renderer's texture, in texels.
    pub closed spec fn texture_height(self) -> u32 {
        self.height
    }

    /// A renderer can draw once it holds both its texture and its sampler
    /// location.
    pub open spec fn is_ready(self) -> bool {
        self.texture_id() is Some && self.sampler_location() is Some
    }

    /// The renderer set up around a freshly created texture object and the
    /// sampler location of the linked program; its texture is 300 by 300.
    pub fn new(tex_id: u32, tex_location: i32) -> (renderer: Self)
        ensures
            renderer.texture_id() == Some(tex_id),
            renderer.sampler_location() == Some(tex_location),
            renderer.texture_width() == TEXTURE_WIDTH,
            renderer.texture_height() == TEXTURE_HEIGHT,
            renderer.is_ready(),
    {
        assert(products_fit_u32(TEXTURE_WIDTH, TEXTURE_HEIGHT)) by (nonlinear_arith)
            requires
                TEXTURE_WIDTH == 300,
                TEXTURE_HEIGHT == 300,
        ;
        PureGlRenderer { tex_id: Some(tex_id), tex_location: Some(tex_location), width: TEXTURE_WIDTH, height: TEXTURE_HEIGHT }
    }

    pub fn tex_id(&self) -> (id: Option<u32>)
        ensures
            id == self.texture_id(),
    {
        self.tex_id
    }

    pub fn tex_location(&self) -> (location: Option<i32>)
        ensures
            location == self.sampler_location(),
    {
        self.tex_location
    }

    pub fn width(&self) -> (width: u32)
        ensures
            width == self.texture_width(),
    {
        self.width
    }

    pub fn height(&self) -> (height: u32)
        ensures
            height == self.texture_height(),
    {
        self.height
    }

    /// Releasing the renderer's GL objects is not implemented, so no renderer
    /// supports it.
    pub open spec fn unload_supported(self) -> bool {
        false
    }

    /// Releases the renderer's GL objects. This is not implemented: no
    /// renderer meets its precondition, so it is never called.
    pub fn unload(&self)
        requires
            self.unload_supported(),
    {
    }

    /// Frame parsing does nothing yet: it always succeeds and leaves the
    /// renderer as it was.
    pub fn parse_frame(&mut self) -> (result: Result<(), ()>)
        ensures
            result == Ok::<(), ()>(()),
            *final(self) == *old(self),
    {
        Ok(())
    }

    /// The GL call arguments of the next frame. A frame needs both the
    /// texture and the sampler location; it clears the colour buffer, binds
    /// the sampler to unit 0 and the texture to `GL_TEXTURE_2D`, updates the
    /// whole texture with the gradient rows (format 0, type `GL_RED`) and
    /// draws one triangle strip of 3 vertices. The renderer itself is left
    /// as it was, so every frame of a renderer sends the same thing.
    pub fn prepare_draw(&self) -> (frame: FrameDraw)
        requires
            self.is_ready(),
        ensures
            frame.clear_mask == GL_COLOR_BUFFER_BIT,
            frame.tex_location == self.sampler_location()->0,
            frame.texture_unit == TEXTURE_UNIT,
            frame.texture_target == GL_TEXTURE_2D,
            frame.tex_id == self.texture_id()->0,
            frame.upload_level == 0,
            frame.upload_x_offset == 0,
            frame.upload_y_offset == 0,
            frame.upload_width == self.texture_width() as i32,
            frame.upload_height == self.texture_height() as i32,
            frame.upload_format == 0,
            frame.upload_type == GL_RED,
            frame.rows@.len() == self.texture_width(),
            forall|i: int|
                0 <= i < self.texture_width() ==> #[trigger] frame.rows@[i]@ == texture_row(
                    i,
                    self.texture_height() as nat,
                ),
            frame.draw_mode == GL_TRIANGLE_STRIP,
            frame.first_vertex == FIRST_VERTEX,
            frame.vertex_count == VERTEX_COUNT,
    {
        proof {
            use_type_invariant(self);
        }
        let tex_location = match self.tex_location {
            Some(location) => location,
            None => 0,
        };
        let tex_id = match self.tex_id {
            Some(id) => id,
            None => 0,
        };
        FrameDraw {
            clear_mask: GL_COLOR_BUFFER_BIT,
            tex_location,
            texture_unit: TEXTURE_UNIT,
            texture_target: GL_TEXTURE_2D,
            tex_id,
            upload_level: 0,
            upload_x_offset: 0,
            upload_y_offset: 0,
            upload_width: self.width as i32,
            upload_height: self.height as i32,
            upload_format: 0,
            upload_type: GL_RED,
            rows: texture_data(self.width, self.height),
            draw_mode: GL_TRIANGLE_STRIP,
            first_vertex: FIRST_VERTEX,
            vertex_count: VERTEX_COUNT,
        }
    }
}

} // verus!
