use canvas_core::canvas::{plan_texture, set_canvas, Canvas, CanvasGeneric};
use canvas_core::context::{get_drawable_size, Context};
use canvas_core::error::GameError;
use canvas_core::gpu::{
    BackendError, FilterMode, SampleCount, SamplerInfo, TextureSpec, WrapMode,
};
use canvas_core::graphics::{BlendMode, DrawParam, Drawable};

fn default_sampler() -> SamplerInfo {
    SamplerInfo { filter: FilterMode::Bilinear, wrap: WrapMode::Clamp }
}

fn fresh_context() -> Context {
    Context::new(640, 480, 4096, default_sampler())
}

#[test]
fn initial_destination_is_screen() {
    let ctx = fresh_context();
    assert_eq!(ctx.gfx_context.out, ctx.gfx_context.screen_render_target);
    assert_eq!(ctx.gfx_context.commands.len(), 0);
}

#[test]
fn new_succeeds_with_requested_size() {
    let mut ctx = fresh_context();
    let canvas = Canvas::new(&mut ctx, 256, 256, SampleCount::Single).unwrap();
    let image = canvas.get_image();
    assert_eq!(image.width, 256);
    assert_eq!(image.height, 256);
    assert_eq!(image.sampler_info, default_sampler());
    assert!(image.blend_mode.is_none());
}

#[test]
fn new_succeeds_with_multisampling() {
    let mut ctx = fresh_context();
    let canvas = Canvas::new(&mut ctx, 300, 200, SampleCount::Multi(4)).unwrap();
    assert_eq!(canvas.get_image().width, 300);
    assert_eq!(canvas.get_image().height, 200);
}

#[test]
fn new_rejects_zero_width() {
    let mut ctx = fresh_context();
    let r = Canvas::new(&mut ctx, 0, 256, SampleCount::Single);
    assert_eq!(r.unwrap_err(), GameError::UnsupportedSize);
}

#[test]
fn new_rejects_zero_height() {
    let mut ctx = fresh_context();
    let r = Canvas::new(&mut ctx, 256, 0, SampleCount::Single);
    assert_eq!(r.unwrap_err(), GameError::UnsupportedSize);
}

#[test]
fn new_rejects_size_over_backend_limit() {
    let mut ctx = fresh_context();
    let r = Canvas::new(&mut ctx, 4097, 256, SampleCount::Single);
    assert_eq!(r.unwrap_err(), GameError::UnsupportedSize);
}

#[test]
fn new_accepts_size_at_backend_limit() {
    let mut ctx = fresh_context();
    let canvas = Canvas::new(&mut ctx, 4096, 4096, SampleCount::Single).unwrap();
    assert_eq!(canvas.get_image().width, 4096);
}

#[test]
fn new_rejects_unsupported_sample_count() {
    let mut ctx = fresh_context();
    let r = Canvas::new(&mut ctx, 64, 64, SampleCount::Multi(3));
    assert_eq!(
        r.unwrap_err(),
        GameError::BackendFailure(BackendError::UnsupportedSampleCount)
    );
}

#[test]
fn failed_allocation_leaves_no_resource_behind() {
    let mut ctx = fresh_context();
    let before = ctx.gfx_context.factory.next_texture;
    assert!(Canvas::new(&mut ctx, 0, 0, SampleCount::Single).is_err());
    assert!(Canvas::new(&mut ctx, 64, 64, SampleCount::Multi(7)).is_err());
    assert_eq!(ctx.gfx_context.factory.next_texture, before);
}

#[test]
fn views_share_one_allocation() {
    let mut ctx = fresh_context();
    let canvas = Canvas::new(&mut ctx, 32, 32, SampleCount::Single).unwrap();
    assert_eq!(canvas.target.texture, canvas.image.texture.texture);
    assert_eq!(canvas.target.level, 0);
    assert_eq!(canvas.image.texture.min_level, 0);
    assert_eq!(canvas.image.texture.max_level, 0);
}

#[test]
fn canvases_get_distinct_allocations() {
    let mut ctx = fresh_context();
    let a = Canvas::new(&mut ctx, 32, 32, SampleCount::Single).unwrap();
    let b = Canvas::new(&mut ctx, 32, 32, SampleCount::Single).unwrap();
    assert_ne!(a.target.texture, b.target.texture);
    assert_ne!(a.target.texture, ctx.gfx_context.screen_render_target.texture);
    assert_ne!(b.target.texture, ctx.gfx_context.screen_render_target.texture);
}

#[test]
fn switch_to_canvas_and_back() {
    let mut ctx = fresh_context();
    let initial = ctx.gfx_context.out;
    let canvas = Canvas::new(&mut ctx, 256, 256, SampleCount::Single).unwrap();
    set_canvas(&mut ctx, Some(&canvas));
    assert_eq!(ctx.gfx_context.out, canvas.target);
    set_canvas(&mut ctx, None);
    assert_eq!(ctx.gfx_context.out, initial);
    assert_eq!(ctx.gfx_context.commands.len(), 0);
}

#[test]
fn switch_latest_wins() {
    let mut ctx = fresh_context();
    let a = Canvas::new(&mut ctx, 128, 128, SampleCount::Single).unwrap();
    let b = Canvas::new(&mut ctx, 64, 64, SampleCount::Single).unwrap();
    set_canvas(&mut ctx, Some(&a));
    set_canvas(&mut ctx, Some(&b));
    assert_eq!(ctx.gfx_context.out, b.target);
}

#[test]
fn switching_is_idempotent_in_effect() {
    let mut ctx = fresh_context();
    let canvas = Canvas::new(&mut ctx, 16, 16, SampleCount::Single).unwrap();
    set_canvas(&mut ctx, Some(&canvas));
    set_canvas(&mut ctx, Some(&canvas));
    assert_eq!(ctx.gfx_context.out, canvas.target);
}

#[test]
fn blend_mode_round_trip() {
    let mut ctx = fresh_context();
    let mut canvas = Canvas::new(&mut ctx, 64, 64, SampleCount::Single).unwrap();
    assert_eq!(canvas.get_blend_mode(), None);
    canvas.set_blend_mode(Some(BlendMode::Add));
    assert_eq!(canvas.get_blend_mode(), Some(BlendMode::Add));
    let image = canvas.into_inner();
    assert_eq!(image.blend_mode, Some(BlendMode::Add));
}

#[test]
fn into_inner_matches_get_image() {
    let mut ctx = fresh_context();
    let canvas = Canvas::new(&mut ctx, 200, 100, SampleCount::Single).unwrap();
    let before = *canvas.get_image();
    let image = canvas.into_inner();
    assert_eq!(image.width, before.width);
    assert_eq!(image.height, before.height);
    assert_eq!(image.sampler_info, before.sampler_info);
    assert_eq!(image, before);
}

#[test]
fn with_window_size_uses_drawable_size() {
    let mut ctx = fresh_context();
    assert_eq!(get_drawable_size(&ctx), (640, 480));
    let canvas = CanvasGeneric::with_window_size(&mut ctx).unwrap();
    assert_eq!(canvas.get_image().width, 640);
    assert_eq!(canvas.get_image().height, 480);
}

#[test]
fn with_window_size_rejects_empty_window() {
    let mut ctx = Context::new(0, 480, 4096, default_sampler());
    let r = CanvasGeneric::with_window_size(&mut ctx);
    assert_eq!(r.unwrap_err(), GameError::UnsupportedSize);
}

#[test]
fn draw_targets_active_destination() {
    let mut ctx = fresh_context();
    let destination = Canvas::new(&mut ctx, 256, 256, SampleCount::Single).unwrap();
    let mut sprite = Canvas::new(&mut ctx, 32, 32, SampleCount::Single).unwrap();
    sprite.set_blend_mode(Some(BlendMode::Alpha));
    set_canvas(&mut ctx, Some(&destination));
    sprite.draw_ex(&mut ctx, DrawParam {}).unwrap();
    assert_eq!(ctx.gfx_context.commands.len(), 1);
    let command = &ctx.gfx_context.commands[0];
    assert_eq!(command.target, destination.target);
    assert_eq!(command.texture, sprite.image.texture);
    assert_eq!(command.blend_mode, Some(BlendMode::Alpha));
}

#[test]
fn draw_to_screen_after_switch_back() {
    let mut ctx = fresh_context();
    let canvas = Canvas::new(&mut ctx, 64, 64, SampleCount::Single).unwrap();
    set_canvas(&mut ctx, Some(&canvas));
    set_canvas(&mut ctx, None);
    canvas.draw_ex(&mut ctx, DrawParam {}).unwrap();
    let command = &ctx.gfx_context.commands[0];
    assert_eq!(command.target, ctx.gfx_context.screen_render_target);
    assert_eq!(command.texture, canvas.image.texture);
}

#[test]
fn plan_texture_describes_srgb_dual_bound_texture() {
    let plan = plan_texture(320, 240, SampleCount::Multi(8), 4096).unwrap();
    assert_eq!(
        plan,
        TextureSpec {
            width: 320,
            height: 240,
            samples: SampleCount::Multi(8),
            srgb: true,
            bind_shader_resource: true,
            bind_render_target: true,
            levels: 1,
        }
    );
}

#[test]
fn plan_texture_rejects_bad_sizes() {
    assert_eq!(
        plan_texture(0, 240, SampleCount::Single, 4096).unwrap_err(),
        GameError::UnsupportedSize
    );
    assert_eq!(
        plan_texture(320, 5000, SampleCount::Single, 4096).unwrap_err(),
        GameError::UnsupportedSize
    );
}
