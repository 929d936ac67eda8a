use dioteko::call::EngineCall;
use dioteko::context::EngineContext;
use dioteko::error::DiotekoErr;
use dioteko::window::Window;
use dioteko::window::WindowBuilder;
use dioteko::raw::RawRenderTexture;
use dioteko::raw::RawTexture;
use dioteko::render_texture::RenderTexture;
use dioteko::render_texture::WeakRenderTexture;
use dioteko::texture::Texture;

fn target(id: u32) -> RawRenderTexture {
    RawRenderTexture {
        id,
        texture: RawTexture { id: id + 100, width: 320, height: 200, mipmaps: 1, format: 7 },
        depth: RawTexture { id: id + 200, width: 320, height: 200, mipmaps: 1, format: 19 },
    }
}

fn session() -> (EngineContext, Window) {
    let mut ctx = EngineContext::new();
    let builder = WindowBuilder::new(640, 480, "resources");
    builder.start(&mut ctx).unwrap();
    let window = builder.build(&mut ctx, true).unwrap();
    (ctx, window)
}

fn up() -> EngineContext {
    session().0
}

fn tally(ctx: &EngineContext, slot: usize) -> (usize, usize) {
    (ctx.resources().strong_count(slot), ctx.resources().weak_count(slot))
}

#[test]
fn render_target_scenario_load_clone_downgrade_drop_upgrade() {
    let mut ctx = up();
    let a = RenderTexture::load(target(7), &mut ctx).unwrap();
    let slot = a.rc_slot();
    assert_eq!(tally(&ctx, slot), (1, 1));

    let b = RenderTexture::clone(&a, &mut ctx);
    assert_eq!(tally(&ctx, slot), (2, 1));

    let w = RenderTexture::downgrade(&a, &mut ctx);
    assert_eq!(tally(&ctx, slot), (2, 2));

    assert_eq!(a.drop(&mut ctx), None);
    assert_eq!(tally(&ctx, slot), (1, 2));

    assert_eq!(b.drop(&mut ctx), Some(EngineCall::UnloadRenderTexture(target(7))));
    assert_eq!(tally(&ctx, slot), (0, 1));

    assert!(w.upgrade(&mut ctx).is_none());
    assert_eq!(tally(&ctx, slot), (0, 1));

    assert!(w.drop(&mut ctx));
    assert!(!ctx.resources().contains(slot));
}

#[test]
fn load_of_an_empty_render_target_fails_and_allocates_nothing() {
    let mut ctx = up();
    let empty = RawRenderTexture { id: 0, ..target(1) };
    assert_eq!(RenderTexture::load(empty, &mut ctx).unwrap_err(), DiotekoErr::LoadImageFailedErr);
    assert!(!ctx.resources().contains(0));
}

#[test]
fn no_render_target_is_loaded_without_the_window() {
    let mut ctx = EngineContext::new();
    assert_eq!(
        RenderTexture::load(target(1), &mut ctx).unwrap_err(),
        DiotekoErr::ProtocolViolation
    );
    let (mut ctx, window) = session();
    window.close(&mut ctx).unwrap();
    assert_eq!(
        RenderTexture::load(target(1), &mut ctx).unwrap_err(),
        DiotekoErr::ProtocolViolation
    );
}

#[test]
fn the_render_target_probe_asks_for_a_framebuffer_and_a_colour_texture() {
    let good = target(4);
    assert!(good.is_loaded());
    assert!(!RawRenderTexture { id: 0, ..good }.is_loaded());
    let no_colour = RawTexture { id: 0, ..good.texture };
    assert!(!RawRenderTexture { texture: no_colour, ..good }.is_loaded());
    let flat = RawTexture { height: 0, ..good.texture };
    assert!(!RawRenderTexture { texture: flat, ..good }.is_loaded());
    // the depth attachment is not asked
    let no_depth = RawTexture { id: 0, width: 0, height: 0, mipmaps: 0, format: 0 };
    assert!(RawRenderTexture { depth: no_depth, ..good }.is_loaded());
}

#[test]
fn render_target_upgrade_counts_a_new_strong_handle() {
    let mut ctx = up();
    let a = RenderTexture::load(target(2), &mut ctx).unwrap();
    let slot = a.rc_slot();
    let w = RenderTexture::downgrade(&a, &mut ctx);
    let w2 = WeakRenderTexture::clone(&w, &mut ctx);
    assert_eq!(tally(&ctx, slot), (1, 3));
    let b = w.upgrade(&mut ctx).unwrap();
    assert_eq!(tally(&ctx, slot), (2, 3));
    assert_eq!(b.render_texture(), target(2));
    assert_eq!(w2.render_texture(), target(2));
    assert!(a.is_counted_in(&ctx) && w.is_counted_in(&ctx) && w2.is_counted_in(&ctx));
    assert_eq!(a.drop(&mut ctx), None);
    assert_eq!(b.drop(&mut ctx), Some(EngineCall::UnloadRenderTexture(target(2))));
    assert!(!w.drop(&mut ctx));
    assert!(w2.upgrade(&mut ctx).is_none());
    assert!(w2.drop(&mut ctx));
    assert!(!ctx.resources().contains(slot));
}

#[test]
fn textures_and_render_targets_are_counted_in_one_table() {
    let (mut ctx, window) = session();
    let colour = RawTexture { id: 9, width: 8, height: 8, mipmaps: 1, format: 7 };
    let t = Texture::load(colour, &mut ctx).unwrap();
    let r = RenderTexture::load(target(3), &mut ctx).unwrap();
    assert_eq!((t.rc_slot(), r.rc_slot()), (0, 1));
    let (window, _) = window.close(&mut ctx).unwrap_err();
    assert_eq!(t.drop(&mut ctx), Some(EngineCall::UnloadTexture(colour)));
    let (window, _) = window.close(&mut ctx).unwrap_err();
    assert_eq!(r.drop(&mut ctx), Some(EngineCall::UnloadRenderTexture(target(3))));
    assert_eq!(window.close(&mut ctx).unwrap(), EngineCall::CloseWindow);
}
