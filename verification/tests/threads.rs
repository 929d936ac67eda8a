use dioteko::context::EngineContext;
use dioteko::painter::Painter;
use dioteko::render_texture::RenderTexture;
use dioteko::render_texture::WeakRenderTexture;
use dioteko::table::RcTable;
use dioteko::texture::Texture;
use dioteko::texture::WeakTexture;
use dioteko::window::Window;

// `confined` can be named for a type only if the type is not `Send`: for a
// `Send` type both impls apply and the marker cannot be inferred.
trait StaysPut<Marker> {
    fn confined() {}
}
impl<T: ?Sized> StaysPut<()> for T {}
impl<T: ?Sized + Send> StaysPut<u8> for T {}

// The same for `Sync`.
trait Unshared<Marker> {
    fn unshared() {}
}
impl<T: ?Sized> Unshared<()> for T {}
impl<T: ?Sized + Sync> Unshared<u8> for T {}

#[test]
fn handles_cannot_be_sent_to_another_thread() {
    <Texture as StaysPut<_>>::confined();
    <WeakTexture as StaysPut<_>>::confined();
    <RenderTexture as StaysPut<_>>::confined();
    <WeakRenderTexture as StaysPut<_>>::confined();
    <RcTable as StaysPut<_>>::confined();
    <EngineContext as StaysPut<_>>::confined();
    <Window as StaysPut<_>>::confined();
    <Painter as StaysPut<_>>::confined();
}

#[test]
fn handles_cannot_be_shared_with_another_thread() {
    <Texture as Unshared<_>>::unshared();
    <WeakTexture as Unshared<_>>::unshared();
    <RenderTexture as Unshared<_>>::unshared();
    <WeakRenderTexture as Unshared<_>>::unshared();
    <RcTable as Unshared<_>>::unshared();
    <EngineContext as Unshared<_>>::unshared();
    <Window as Unshared<_>>::unshared();
    <Painter as Unshared<_>>::unshared();
}
