//! The graphics context: owner of the factory, of the screen's render
//! destination, and of the single active render destination that all draw
//! commands write into.

use vstd::prelude::*;

use crate::gpu::{Factory, RenderTargetView, SamplerInfo};
use crate::graphics::DrawCommand;

verus! {

/// Graphics state of a context.
///
/// `out` is the active render destination: process-wide mutable state with a
/// single writer, repointed only by `crate::canvas::set_canvas` and read by
/// every draw command at submission time.
#[derive(Clone, Debug, PartialEq, Eq)]
pub struct GfxContext {
    /// The backend's texture allocator.
    pub factory: Factory,
    /// Destination that presents to the screen, captured when the context
    /// is created and never repointed afterwards.
    pub screen_render_target: RenderTargetView,
    /// The active render destination: where draw commands write now.
    pub out: RenderTargetView,
    /// Sampling configuration given to newly created images.
    pub default_sampler_info: SamplerInfo,
    /// Draw commands handed to the drawing pipeline, in submission order.
    pub commands: Vec<DrawCommand>,
}

/// A context: the graphics state plus the windowing collaborator's answer to
/// the drawable-size query.
#[derive(Clone, Debug, PartialEq, Eq)]
pub struct Context {
    pub gfx_context: GfxContext,
    /// Drawable width in pixels, as the windowing layer reports it.
    pub drawable_width: u32,
    /// Drawable height in pixels, as the windowing layer reports it.
    pub drawable_height: u32,
}

/// The two context states agree on everything except the submitted draw
/// commands.
pub open spec fn same_except_commands(pre: Context, post: Context) -> bool {
    &&& post.gfx_context.factory == pre.gfx_context.factory
    &&& post.gfx_context.screen_render_target == pre.gfx_context.screen_render_target
    &&& post.gfx_context.out == pre.gfx_context.out
    &&& post.gfx_context.default_sampler_info == pre.gfx_context.default_sampler_info
    &&& post.drawable_width == pre.drawable_width
    &&& post.drawable_height == pre.drawable_height
}

impl Context {
    /// Create a context.  The screen surface takes allocation id 0, the
    /// factory hands out ids from 1, and the active render destination
    /// starts at the screen.
    pub fn new(
        drawable_width: u32,
        drawable_height: u32,
        max_texture_size: u16,
        default_sampler_info: SamplerInfo,
    ) -> (ctx: Context)
        ensures
            ctx.gfx_context.factory == (Factory { next_texture: 1, max_texture_size }),
            ctx.gfx_context.screen_render_target == (RenderTargetView { texture: 0, level: 0 }),
            ctx.gfx_context.out == ctx.gfx_context.screen_render_target,
            ctx.gfx_context.default_sampler_info == default_sampler_info,
            ctx.gfx_context.commands@ == Seq::<DrawCommand>::empty(),
            ctx.drawable_width == drawable_width,
            ctx.drawable_height == drawable_height,
    {
        let screen = RenderTargetView { texture: 0, level: 0 };
        Context {
            gfx_context: GfxContext {
                factory: Factory { next_texture: 1, max_texture_size },
                screen_render_target: screen,
                out: screen,
                default_sampler_info,
                commands: Vec::new(),
            },
            drawable_width,
            drawable_height,
        }
    }
}

/// The windowing collaborator's drawable-size query.
pub fn get_drawable_size(ctx: &Context) -> (size: (u32, u32))
    ensures
        size.0 == ctx.drawable_width,
        size.1 == ctx.drawable_height,
{
    (ctx.drawable_width, ctx.drawable_height)
}

} // verus!
