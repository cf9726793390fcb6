//! The drawable capability: images, blend modes, draw parameters, and the
//! draw commands this core hands to the drawing pipeline.

use vstd::prelude::*;

use crate::context::{same_except_commands, Context};
use crate::error::GameResult;
use crate::gpu::{RenderTargetView, SamplerInfo, ShaderResourceView};

verus! {

/// How a drawable is blended over what is already in the destination when it
/// is drawn.
#[derive(Clone, Copy, Debug, PartialEq, Eq)]
pub enum BlendMode {
    Add,
    Subtract,
    Alpha,
    Invert,
    Multiply,
    Replace,
    Lighten,
    Darken,
}

/// Parameters of one parameterized draw.  Their meaning — position,
/// rotation, scale, crop, color — belongs to the drawing pipeline; this core
/// records and forwards them unread.
#[derive(Clone, Copy, Debug, PartialEq, Eq)]
pub struct DrawParam {}

/// One draw command as handed to the drawing pipeline.
#[derive(Clone, Copy, Debug, PartialEq, Eq)]
pub struct DrawCommand {
    /// Destination that was active when the command was issued.
    pub target: RenderTargetView,
    /// Texture the command samples from.
    pub texture: ShaderResourceView,
    /// Blend mode of the drawable at the time of the call.
    pub blend_mode: Option<BlendMode>,
    /// The forwarded draw parameters.
    pub param: DrawParam,
}

/// A drawable image: the readable view of a texture together with how it is
/// sampled and blended when drawn.
#[derive(Clone, Copy, Debug, PartialEq, Eq)]
pub struct Image {
    /// Shader-readable view of the allocation backing this image.
    pub texture: ShaderResourceView,
    /// Sampling configuration used when the image is drawn.
    pub sampler_info: SamplerInfo,
    /// Blend mode applied when the image is drawn; the pipeline's default
    /// applies when absent.
    pub blend_mode: Option<BlendMode>,
    /// Pixel width of the image.
    pub width: u32,
    /// Pixel height of the image.
    pub height: u32,
}

/// The common drawable capability: anything that can be drawn as a textured
/// image into the active render destination, with a blend mode of its own.
pub trait Drawable: Sized {
    /// The texture the drawable samples from when drawn.
    spec fn texture_of(&self) -> ShaderResourceView;

    /// The drawable's current blend mode.
    spec fn blend(&self) -> Option<BlendMode>;

    /// The drawable with its blend mode replaced and nothing else touched.
    spec fn with_blend(self, mode: Option<BlendMode>) -> Self;

    /// Law: replacing the blend mode is observable as exactly that mode and
    /// leaves the texture alone.
    proof fn blend_of_with_blend(s: Self, mode: Option<BlendMode>)
        ensures
            s.with_blend(mode).blend() == mode,
            s.with_blend(mode).texture_of() == s.texture_of(),
    ;

    /// Draw the drawable.  Exactly one command is appended for the active
    /// destination; the destination itself and all other context state stay
    /// untouched, and this core adds no draw-time failure of its own.
    fn draw_ex(&self, ctx: &mut Context, param: DrawParam) -> (r: GameResult<()>)
        ensures
            r is Ok,
            final(ctx).gfx_context.commands@ == old(ctx).gfx_context.commands@.push(
                (DrawCommand {
                    target: old(ctx).gfx_context.out,
                    texture: self.texture_of(),
                    blend_mode: self.blend(),
                    param,
                }),
            ),
            same_except_commands(*old(ctx), *final(ctx)),
    ;

    /// Replace the blend mode used when the drawable is next drawn.
    fn set_blend_mode(&mut self, mode: Option<BlendMode>)
        ensures
            *final(self) == old(self).with_blend(mode),
    ;

    /// The blend mode used when the drawable is drawn.
    fn get_blend_mode(&self) -> (r: Option<BlendMode>)
        ensures
            r == self.blend(),
    ;
}

impl Drawable for Image {
    open spec fn texture_of(&self) -> ShaderResourceView {
        self.texture
    }

    open spec fn blend(&self) -> Option<BlendMode> {
        self.blend_mode
    }

    open spec fn with_blend(self, mode: Option<BlendMode>) -> Image {
        Image { blend_mode: mode, ..self }
    }

    proof fn blend_of_with_blend(s: Image, mode: Option<BlendMode>) {
    }

    fn draw_ex(&self, ctx: &mut Context, param: DrawParam) -> (r: GameResult<()>) {
        let cmd = DrawCommand {
            target: ctx.gfx_context.out,
            texture: self.texture,
            blend_mode: self.blend_mode,
            param,
        };
        ctx.gfx_context.commands.push(cmd);
        Ok(())
    }

    fn set_blend_mode(&mut self, mode: Option<BlendMode>) {
        self.blend_mode = mode;
    }

    fn get_blend_mode(&self) -> (r: Option<BlendMode>) {
        self.blend_mode
    }
}

} // verus!
