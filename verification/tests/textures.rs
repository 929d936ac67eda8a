use dioteko::call::EngineCall;
use dioteko::context::EngineContext;
use dioteko::context::EngineEvent;
use dioteko::context::SessionState;
use dioteko::error::DiotekoErr;
use dioteko::window::Window;
use dioteko::window::WindowBuilder;
use dioteko::raw::RawTexture;
use dioteko::texture::Texture;
use dioteko::texture::WeakTexture;

fn sample(id: u32) -> RawTexture {
    RawTexture { id, width: 64, height: 32, mipmaps: 3, format: 7 }
}

fn session() -> (EngineContext, Window) {
    let mut ctx = EngineContext::new();
    let builder = WindowBuilder::new(640, 480, "resources");
    builder.start(&mut ctx).unwrap();
    let window = builder.build(&mut ctx, true).unwrap();
    (ctx, window)
}

fn ready() -> EngineContext {
    session().0
}

fn counts(ctx: &EngineContext, slot: usize) -> (usize, usize) {
    (ctx.resources().strong_count(slot), ctx.resources().weak_count(slot))
}

#[test]
fn texture_scenario_load_clone_downgrade_drop_upgrade() {
    let mut ctx = ready();
    let a = Texture::load(sample(7), &mut ctx).unwrap();
    let slot = a.rc_slot();
    assert_eq!(counts(&ctx, slot), (1, 1));

    let b = Texture::clone(&a, &mut ctx);
    assert_eq!(counts(&ctx, slot), (2, 1));

    let w = Texture::downgrade(&a, &mut ctx);
    assert_eq!(counts(&ctx, slot), (2, 2));

    assert_eq!(a.drop(&mut ctx), None);
    assert_eq!(counts(&ctx, slot), (1, 2));

    assert_eq!(b.drop(&mut ctx), Some(EngineCall::UnloadTexture(sample(7))));
    assert_eq!(counts(&ctx, slot), (0, 1));

    assert!(w.upgrade(&mut ctx).is_none());
    assert_eq!(counts(&ctx, slot), (0, 1));

    assert!(w.drop(&mut ctx));
    assert!(!ctx.resources().contains(slot));
    assert_eq!(counts(&ctx, slot), (0, 0));
}

#[test]
fn load_of_an_empty_texture_fails_and_allocates_nothing() {
    let mut ctx = ready();
    let empty = RawTexture { id: 0, width: 0, height: 0, mipmaps: 0, format: 0 };
    assert_eq!(Texture::load(empty, &mut ctx).unwrap_err(), DiotekoErr::LoadImageFailedErr);
    assert!(!ctx.resources().contains(0));
    assert!(!ctx.resources().any_alive());
}

#[test]
fn no_texture_is_loaded_before_the_window_is_up() {
    let mut ctx = EngineContext::new();
    assert_eq!(Texture::load(sample(1), &mut ctx).unwrap_err(), DiotekoErr::ProtocolViolation);
    WindowBuilder::new(640, 480, "resources").start(&mut ctx).unwrap();
    assert_eq!(Texture::load(sample(1), &mut ctx).unwrap_err(), DiotekoErr::ProtocolViolation);
    assert!(!ctx.resources().contains(0));
    // the call order is asked before the probe
    let empty = RawTexture { id: 0, ..sample(1) };
    assert_eq!(Texture::load(empty, &mut ctx).unwrap_err(), DiotekoErr::ProtocolViolation);
}

#[test]
fn no_texture_is_loaded_after_the_window_is_closed() {
    let (mut ctx, window) = session();
    window.close(&mut ctx).unwrap();
    assert_eq!(Texture::load(sample(1), &mut ctx).unwrap_err(), DiotekoErr::ProtocolViolation);
    assert!(!ctx.resources().contains(0));
}

#[test]
fn the_window_is_not_closed_over_a_live_texture() {
    let (mut ctx, window) = session();
    let a = Texture::load(sample(1), &mut ctx).unwrap();
    let w = Texture::downgrade(&a, &mut ctx);
    assert!(ctx.resources().any_alive());
    assert!(!ctx.accepts(EngineEvent::CloseSession));
    let (window, err) = window.close(&mut ctx).unwrap_err();
    assert_eq!(err, DiotekoErr::ProtocolViolation);
    assert_eq!(ctx.session(), SessionState::Ready);

    // the release call comes while the window is still up
    assert_eq!(a.drop(&mut ctx), Some(EngineCall::UnloadTexture(sample(1))));
    assert!(ctx.is_ready());

    // a weak handle keeps nothing alive and holds nothing up
    assert!(!ctx.resources().any_alive());
    assert_eq!(window.close(&mut ctx).unwrap(), EngineCall::CloseWindow);
    assert_eq!(ctx.session(), SessionState::Closed);

    // it may outlive the window, and finds nothing to upgrade to
    assert!(w.is_counted_in(&ctx));
    assert!(w.upgrade(&mut ctx).is_none());
    assert!(w.drop(&mut ctx));
    assert!(!ctx.resources().contains(0));
}

#[test]
fn the_texture_probe_asks_for_an_id_and_a_positive_size() {
    let good = sample(1);
    assert!(good.is_loaded());
    assert!(!RawTexture { id: 0, ..good }.is_loaded());
    assert!(!RawTexture { width: 0, ..good }.is_loaded());
    assert!(!RawTexture { height: 0, ..good }.is_loaded());
    assert!(!RawTexture { width: -1, ..good }.is_loaded());
    assert!(!RawTexture { height: -5, ..good }.is_loaded());
    assert!(RawTexture { mipmaps: 0, format: 0, ..good }.is_loaded());
    assert!(RawTexture { id: u32::MAX, width: 1, height: 1, ..good }.is_loaded());
}

#[test]
fn a_texture_shows_what_the_engine_described() {
    let mut ctx = ready();
    let raw = RawTexture { id: 12, width: 640, height: 480, mipmaps: 4, format: 2 };
    let texture = Texture::load(raw, &mut ctx).unwrap();
    assert_eq!(texture.id(), 12);
    assert_eq!(texture.width(), 640);
    assert_eq!(texture.height(), 480);
    assert_eq!(texture.mipmaps(), 4);
    assert_eq!(texture.format(), 2);
    assert_eq!(texture.texture(), raw);
    assert!(texture.is_counted_in(&ctx));
    assert_eq!(texture.drop(&mut ctx), Some(EngineCall::UnloadTexture(raw)));
}

#[test]
fn upgrade_hands_out_a_counted_handle_of_the_same_texture() {
    let mut ctx = ready();
    let a = Texture::load(sample(3), &mut ctx).unwrap();
    let slot = a.rc_slot();
    let w = Texture::downgrade(&a, &mut ctx);
    assert_eq!(w.texture(), sample(3));
    assert_eq!(w.rc_slot(), slot);

    let b = w.upgrade(&mut ctx).unwrap();
    assert_eq!(counts(&ctx, slot), (2, 2));
    assert_eq!(b.texture(), sample(3));
    assert_eq!(b.rc_slot(), slot);

    // the upgraded handle keeps the texture after the first one is gone
    assert_eq!(a.drop(&mut ctx), None);
    assert_eq!(counts(&ctx, slot), (1, 2));
    assert!(!w.drop(&mut ctx));
    assert_eq!(b.drop(&mut ctx), Some(EngineCall::UnloadTexture(sample(3))));
    assert!(!ctx.resources().contains(slot));
}

#[test]
fn a_weak_handle_can_be_copied() {
    let mut ctx = ready();
    let a = Texture::load(sample(5), &mut ctx).unwrap();
    let slot = a.rc_slot();
    let w1 = Texture::downgrade(&a, &mut ctx);
    let w2 = WeakTexture::clone(&w1, &mut ctx);
    assert_eq!(counts(&ctx, slot), (1, 3));
    assert!(w1.is_counted_in(&ctx));
    assert!(w2.is_counted_in(&ctx));
    assert_eq!(a.drop(&mut ctx), Some(EngineCall::UnloadTexture(sample(5))));
    assert_eq!(counts(&ctx, slot), (0, 2));
    assert!(!w1.drop(&mut ctx));
    assert!(ctx.resources().contains(slot));
    assert!(w2.drop(&mut ctx));
    assert!(!ctx.resources().contains(slot));
}

#[test]
fn the_last_strong_handle_alone_takes_the_block_with_it() {
    let mut ctx = ready();
    let a = Texture::load(sample(9), &mut ctx).unwrap();
    let slot = a.rc_slot();
    assert_eq!(a.drop(&mut ctx), Some(EngineCall::UnloadTexture(sample(9))));
    assert!(!ctx.resources().contains(slot));
}

#[test]
fn resources_are_counted_apart() {
    let mut ctx = ready();
    let a = Texture::load(sample(1), &mut ctx).unwrap();
    let b = Texture::load(sample(2), &mut ctx).unwrap();
    assert_eq!(a.rc_slot(), 0);
    assert_eq!(b.rc_slot(), 1);
    let a2 = Texture::clone(&a, &mut ctx);
    assert_eq!(counts(&ctx, 0), (2, 1));
    assert_eq!(counts(&ctx, 1), (1, 1));
    assert_eq!(b.drop(&mut ctx), Some(EngineCall::UnloadTexture(sample(2))));
    assert_eq!(counts(&ctx, 0), (2, 1));
    assert_eq!(a.drop(&mut ctx), None);
    assert_eq!(a2.drop(&mut ctx), Some(EngineCall::UnloadTexture(sample(1))));
}

#[test]
fn a_freed_slot_is_the_first_to_be_used_again() {
    let mut ctx = ready();
    let a = Texture::load(sample(1), &mut ctx).unwrap();
    let b = Texture::load(sample(2), &mut ctx).unwrap();
    let c = Texture::load(sample(3), &mut ctx).unwrap();
    assert_eq!((a.rc_slot(), b.rc_slot(), c.rc_slot()), (0, 1, 2));
    assert!(b.drop(&mut ctx).is_some());
    assert!(!ctx.resources().contains(1));
    let d = Texture::load(sample(4), &mut ctx).unwrap();
    assert_eq!(d.rc_slot(), 1);
    assert_eq!(counts(&ctx, 1), (1, 1));
    let e = Texture::load(sample(5), &mut ctx).unwrap();
    assert_eq!(e.rc_slot(), 3);
    assert!(a.drop(&mut ctx).is_some());
    assert!(c.drop(&mut ctx).is_some());
    assert!(d.drop(&mut ctx).is_some());
    assert!(e.drop(&mut ctx).is_some());
    assert!(!ctx.resources().any_alive());
}

#[test]
fn a_slot_held_by_a_weak_handle_is_not_given_away() {
    let mut ctx = ready();
    let a = Texture::load(sample(1), &mut ctx).unwrap();
    let w = Texture::downgrade(&a, &mut ctx);
    assert!(a.drop(&mut ctx).is_some());
    assert!(ctx.resources().contains(0));
    let b = Texture::load(sample(2), &mut ctx).unwrap();
    assert_eq!(b.rc_slot(), 1);
    assert!(w.upgrade(&mut ctx).is_none());
    assert!(w.drop(&mut ctx));
    assert!(b.drop(&mut ctx).is_some());
}

#[test]
fn a_handle_is_not_counted_where_it_was_not_made() {
    let mut ctx = ready();
    let a = Texture::load(sample(1), &mut ctx).unwrap();
    let b = Texture::clone(&a, &mut ctx);
    let w = Texture::downgrade(&a, &mut ctx);
    assert!(a.drop(&mut ctx).is_none());
    assert!(b.is_counted_in(&ctx));
    let other = ready();
    assert!(!b.is_counted_in(&other));
    assert!(!w.is_counted_in(&other));
    assert!(b.drop(&mut ctx).is_some());
    assert!(w.is_counted_in(&ctx));
    assert!(w.drop(&mut ctx));
}

#[test]
fn the_table_answers_for_slots_it_never_gave_out() {
    let ctx = ready();
    assert!(!ctx.resources().contains(0));
    assert!(!ctx.resources().contains(usize::MAX));
    assert_eq!(ctx.resources().strong_count(17), 0);
    assert_eq!(ctx.resources().weak_count(17), 0);
    assert!(!ctx.resources().has_weak_handle(17));
    assert!(!ctx.resources().any_alive());
}
