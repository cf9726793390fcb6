//! Canvases: off-screen render destinations, and the switch that repoints
//! the context's active render destination at a canvas or back at the
//! screen.

use vstd::prelude::*;

use crate::context::{get_drawable_size, Context, GfxContext};
use crate::error::{GameError, GameResult};
use crate::gpu::{
    samples_supported, BackendError, RenderTargetView, SampleCount, ShaderResourceView,
    TextureSpec,
};
use crate::graphics::{BlendMode, DrawParam, Drawable, Image};

verus! {

/// A canvas: one texture allocation exposed through two views that are
/// created together and never recreated independently — a writable render
/// destination and a readable image.  Well-formedness (`wf`) says the two
/// views name the identical allocation.
#[derive(Clone, Copy, Debug, PartialEq, Eq)]
pub struct CanvasGeneric {
    /// Writable view: the render destination half.
    pub target: RenderTargetView,
    /// Readable half: the canvas as a drawable image.
    pub image: Image,
}

/// A canvas that can be rendered to instead of the screen.  Set it with
/// `set_canvas`, and resume drawing to the screen with `set_canvas(ctx,
/// None)`.
pub type Canvas = CanvasGeneric;

/// Sizes the allocator accepts: positive in both dimensions and within the
/// backend's texture-size limit.
pub open spec fn size_ok(width: u32, height: u32, max_texture_size: u16) -> bool {
    &&& 0 < width <= max_texture_size as u32
    &&& 0 < height <= max_texture_size as u32
}

/// Validate a requested canvas size and describe the texture to allocate
/// for it: the extent converted to the backend's native units, sRGB color
/// storage, bindable both as a shader resource and as a render destination,
/// and mip level 0 only.
pub fn plan_texture(width: u32, height: u32, samples: SampleCount, max_texture_size: u16) -> (r:
    Result<TextureSpec, GameError>)
    ensures
        size_ok(width, height, max_texture_size) ==> r == Ok::<TextureSpec, GameError>(
            (TextureSpec {
                width: width as u16,
                height: height as u16,
                samples,
                srgb: true,
                bind_shader_resource: true,
                bind_render_target: true,
                levels: 1,
            }),
        ),
        !size_ok(width, height, max_texture_size) ==> r == Err::<TextureSpec, GameError>(
            GameError::UnsupportedSize,
        ),
{
    if width == 0 || height == 0 || width > max_texture_size as u32
        || height > max_texture_size as u32 {
        return Err(GameError::UnsupportedSize);
    }
    Ok(
        TextureSpec {
            width: width as u16,
            height: height as u16,
            samples,
            srgb: true,
            bind_shader_resource: true,
            bind_render_target: true,
            levels: 1,
        },
    )
}

/// What a successful allocation guarantees: the canvas is well formed, has
/// the requested size, the context's default sampling and no blend mode; its
/// allocation is fresh (it received the factory's next id); and the context
/// is untouched except that the factory moved past that id.
pub open spec fn canvas_new_ok(
    pre: Context,
    post: Context,
    width: u32,
    height: u32,
    c: CanvasGeneric,
) -> bool {
    &&& c.wf()
    &&& c.image.width == width
    &&& c.image.height == height
    &&& c.image.sampler_info == pre.gfx_context.default_sampler_info
    &&& c.image.blend_mode is None
    &&& c.target.texture == pre.gfx_context.factory.next_texture
    &&& post.gfx_context.factory.next_texture == pre.gfx_context.factory.next_texture + 1
    &&& post.gfx_context.factory.max_texture_size == pre.gfx_context.factory.max_texture_size
    &&& post.gfx_context.screen_render_target == pre.gfx_context.screen_render_target
    &&& post.gfx_context.out == pre.gfx_context.out
    &&& post.gfx_context.default_sampler_info == pre.gfx_context.default_sampler_info
    &&& post.gfx_context.commands == pre.gfx_context.commands
    &&& post.drawable_width == pre.drawable_width
    &&& post.drawable_height == pre.drawable_height
}

impl CanvasGeneric {
    /// Both views reference the identical underlying allocation, at mip
    /// level 0 only, and the canvas has a positive extent.
    pub open spec fn wf(self) -> bool {
        &&& self.target.texture == self.image.texture.texture
        &&& self.target.level == 0
        &&& self.image.texture.min_level == 0
        &&& self.image.texture.max_level == 0
        &&& 0 < self.image.width
        &&& 0 < self.image.height
    }

    /// Create a new canvas with the given size and number of samples.
    ///
    /// Succeeds exactly on sizes the allocator accepts and sample counts the
    /// backend offers; an unacceptable size is rejected as
    /// `UnsupportedSize`, a rejected sample count surfaces as
    /// `BackendFailure`, and on any failure the context is left exactly as
    /// it was — allocation is all-or-nothing.
    pub fn new(ctx: &mut Context, width: u32, height: u32, samples: SampleCount) -> (r:
        GameResult<Canvas>)
        requires
            old(ctx).gfx_context.factory.can_allocate(),
        ensures
            r is Ok <==> size_ok(width, height, old(ctx).gfx_context.factory.max_texture_size)
                && samples_supported(samples),
            r matches Ok(c) ==> canvas_new_ok(*old(ctx), *final(ctx), width, height, c),
            !size_ok(width, height, old(ctx).gfx_context.factory.max_texture_size) ==> r
                == Err::<Canvas, GameError>(GameError::UnsupportedSize) && *final(ctx) == *old(
                ctx,
            ),
            size_ok(width, height, old(ctx).gfx_context.factory.max_texture_size)
                && !samples_supported(samples) ==> r == Err::<Canvas, GameError>(
                GameError::BackendFailure(BackendError::UnsupportedSampleCount),
            ) && *final(ctx) == *old(ctx),
    {
        let info = match plan_texture(
            width,
            height,
            samples,
            ctx.gfx_context.factory.max_texture_size,
        ) {
            Ok(info) => info,
            Err(e) => {
                return Err(e);
            },
        };
        let tex = match ctx.gfx_context.factory.create_texture(info) {
            Ok(tex) => tex,
            Err(cause) => {
                return Err(GameError::BackendFailure(cause));
            },
        };
        let resource = ctx.gfx_context.factory.view_texture_as_shader_resource(&tex, 0, 0);
        let target = ctx.gfx_context.factory.view_texture_as_render_target(&tex, 0);
        Ok(
            CanvasGeneric {
                target,
                image: Image {
                    texture: resource,
                    sampler_info: ctx.gfx_context.default_sampler_info,
                    blend_mode: None,
                    width,
                    height,
                },
            },
        )
    }

    /// Create a new canvas with the current window dimensions and no
    /// multisampling.
    pub fn with_window_size(ctx: &mut Context) -> (r: GameResult<Canvas>)
        requires
            old(ctx).gfx_context.factory.can_allocate(),
        ensures
            r is Ok <==> size_ok(
                old(ctx).drawable_width,
                old(ctx).drawable_height,
                old(ctx).gfx_context.factory.max_texture_size,
            ),
            r matches Ok(c) ==> canvas_new_ok(
                *old(ctx),
                *final(ctx),
                old(ctx).drawable_width,
                old(ctx).drawable_height,
                c,
            ),
            r is Err ==> r == Err::<Canvas, GameError>(GameError::UnsupportedSize) && *final(ctx)
                == *old(ctx),
    {
        let (w, h) = get_drawable_size(ctx);
        CanvasGeneric::new(ctx, w, h, SampleCount::Single)
    }

    /// Gets the backend `Image` that is being rendered to.
    pub fn get_image(&self) -> (img: &Image)
        ensures
            *img == self.image,
    {
        &self.image
    }

    /// Destroys the canvas and returns the `Image` it contains.  Consuming:
    /// the writable half is discarded, and what remains is purely a shared
    /// texture.
    pub fn into_inner(self) -> (img: Image)
        ensures
            img == self.image,
    {
        self.image
    }
}

impl Drawable for CanvasGeneric {
    open spec fn texture_of(&self) -> ShaderResourceView {
        self.image.texture
    }

    open spec fn blend(&self) -> Option<BlendMode> {
        self.image.blend_mode
    }

    open spec fn with_blend(self, mode: Option<BlendMode>) -> CanvasGeneric {
        CanvasGeneric { target: self.target, image: Image { blend_mode: mode, ..self.image } }
    }

    proof fn blend_of_with_blend(s: CanvasGeneric, mode: Option<BlendMode>) {
    }

    fn draw_ex(&self, ctx: &mut Context, param: DrawParam) -> (r: GameResult<()>) {
        self.image.draw_ex(ctx, param)
    }

    fn set_blend_mode(&mut self, mode: Option<BlendMode>) {
        self.image.blend_mode = mode;
    }

    fn get_blend_mode(&self) -> (r: Option<BlendMode>) {
        self.image.blend_mode
    }
}

/// The graphics state after one destination switch: the active destination
/// is repointed at the given writable view, or back at the screen when none
/// is given, and nothing else moves.
pub open spec fn switched(g: GfxContext, target: Option<RenderTargetView>) -> GfxContext {
    GfxContext {
        out: (match target {
            Some(t) => t,
            None => g.screen_render_target,
        }),
        ..g
    }
}

/// Set the canvas to render to.  Passing `None` makes all rendering go
/// directly to the screen again.  The switch never fails, and it is a pure
/// handle assignment: nothing is resized, cleared or reallocated.
pub fn set_canvas(ctx: &mut Context, target: Option<&Canvas>)
    ensures
        final(ctx).gfx_context == switched(
            old(ctx).gfx_context,
            match target {
                Some(c) => Some(c.target),
                None => None,
            },
        ),
        target matches Some(c) ==> final(ctx).gfx_context.out == c.target,
        target is None ==> final(ctx).gfx_context.out == old(ctx).gfx_context.screen_render_target,
        final(ctx).drawable_width == old(ctx).drawable_width,
        final(ctx).drawable_height == old(ctx).drawable_height,
{
    match target {
        Some(surface) => {
            ctx.gfx_context.out = surface.target;
        },
        None => {
            ctx.gfx_context.out = ctx.gfx_context.screen_render_target;
        },
    }
}

/// Law: a destination switch is reversible with no side effects beyond the
/// destination pointer.  From a state whose active destination is the
/// screen, switching to any writable view and then back with `None` restores
/// the graphics state exactly — the destination is bit-identical to the
/// pre-switch value.
pub proof fn lemma_switch_round_trip(g: GfxContext, t: RenderTargetView)
    requires
        g.out == g.screen_render_target,
    ensures
        switched(switched(g, Some(t)), Option::<RenderTargetView>::None) == g,
{
}

/// Law: the active destination always reflects the most recent switch;
/// switching from one canvas directly to another needs no intervening
/// `None` and stacks nothing.
pub proof fn lemma_switch_latest_wins(g: GfxContext, a: RenderTargetView, b: RenderTargetView)
    ensures
        switched(switched(g, Some(a)), Some(b)).out == b,
{
}

/// Law: a blend mode set on a canvas is exactly what `get_blend_mode`
/// observes, and is the blend mode carried by the image that `into_inner`
/// returns.
pub proof fn lemma_blend_mode_observable(c: Canvas, m: BlendMode)
    ensures
        c.with_blend(Some(m)).blend() == Some(m),
        c.with_blend(Some(m)).image.blend_mode == Some(m),
{
}

} // verus!
