use std::marker::PhantomData;
use std::rc::Rc;

use vstd::prelude::*;

use crate::call::EngineCall;
use crate::context::EngineContext;
use crate::context::EngineEvent;
use crate::error::DiotekoErr;
use crate::flags::lemma_with;
use crate::flags::lemma_without;
use crate::flags::ConfigFlag;
use crate::flags::ConfigFlagSet;
use crate::image::Image;
use crate::keyboard::Key;
use crate::raw::RawImage;

verus! {

/// What a `WindowBuilder` has collected.
pub struct WindowConfig {
    pub width: usize,
    pub height: usize,
    pub title: Seq<char>,
    pub icon: Option<RawImage>,
    pub exit_key: Option<Key>,
    pub flags: ConfigFlagSet,
}

/// What a `Window` keeps of its session.
pub struct WindowState {
    pub width: usize,
    pub height: usize,
    pub title: Seq<char>,
    pub flags: ConfigFlagSet,
}

/// Collects what the window is to be created with.
pub struct WindowBuilder<'s> {
    width: usize,
    height: usize,
    title: &'s str,
    icon: Option<&'s Image>,
    exit_key: Option<Key>,
    config_flags: ConfigFlagSet,
}

/// The window session, owned: there is one value per session, and giving it
/// up closes the window.
///
/// The flags kept here are the last mask that went to the engine. The value
/// stays on the thread that made it.
#[derive(Debug)]
pub struct Window {
    width: usize,
    height: usize,
    title: String,
    config_flags: ConfigFlagSet,
    one_thread: PhantomData<Rc<()>>,
}

impl<'s> View for WindowBuilder<'s> {
    type V = WindowConfig;

    closed spec fn view(&self) -> WindowConfig {
        WindowConfig {
            width: self.width,
            height: self.height,
            title: self.title@,
            icon: match self.icon {
                Some(image) => Some(image.raw()),
                None => None,
            },
            exit_key: self.exit_key,
            flags: self.config_flags,
        }
    }
}

impl View for Window {
    type V = WindowState;

    closed spec fn view(&self) -> WindowState {
        WindowState {
            width: self.width,
            height: self.height,
            title: self.title@,
            flags: self.config_flags,
        }
    }
}

impl WindowConfig {
    /// How many engine calls create a window so configured.
    pub open spec fn call_count(self) -> nat {
        2 + (if self.icon is Some {
            1nat
        } else {
            0nat
        }) + (if self.exit_key is Some {
            1nat
        } else {
            0nat
        })
    }

    /// Whether `calls` are the engine calls that create a window so
    /// configured, in their order: the window itself, its flags as one mask,
    /// then the icon and the exit key where they were asked for.
    pub open spec fn creates(self, calls: Seq<EngineCall>) -> bool {
        &&& calls.len() == self.call_count()
        &&& calls[0] matches EngineCall::InitWindow { width, height, title }
        &&& width == self.width as i32
        &&& height == self.height as i32
        &&& title@ == self.title
        &&& calls[1] == EngineCall::SetWindowState(self.flags.mask())
        &&& self.icon matches Some(icon) ==> calls[2] == EngineCall::SetWindowIcon(icon)
        &&& self.exit_key matches Some(key) ==> calls[calls.len() - 1] == EngineCall::SetExitKey(
            key.code_of(),
        )
    }

    /// The configuration with `flag` switched on as well.
    pub open spec fn with(self, flag: ConfigFlag) -> WindowConfig {
        WindowConfig { flags: self.flags.with(flag), ..self }
    }

    /// What the window keeps of the configuration.
    pub open spec fn state(self) -> WindowState {
        WindowState { width: self.width, height: self.height, title: self.title, flags: self.flags }
    }
}

impl WindowState {
    /// The state with `flag` switched on as well.
    pub open spec fn with(self, flag: ConfigFlag) -> WindowState {
        WindowState { flags: self.flags.with(flag), ..self }
    }

    /// The state with `flag` switched off.
    pub open spec fn without(self, flag: ConfigFlag) -> WindowState {
        WindowState { flags: self.flags.without(flag), ..self }
    }

    /// The state after the window was asked to go fullscreen.
    pub open spec fn fullscreen(self) -> WindowState {
        self.with(ConfigFlag::FullscreenMode)
    }

    /// The state after the window was maximized.
    pub open spec fn maximized(self) -> WindowState {
        self.with(ConfigFlag::WindowMaximized)
    }

    /// The state after the window was minimized.
    pub open spec fn minimized(self) -> WindowState {
        self.with(ConfigFlag::WindowMinimized)
    }

    /// The state after the window was restored: neither maximized nor
    /// minimized, and in every other respect as before.
    pub open spec fn restored(self) -> WindowState {
        self.without(ConfigFlag::WindowMaximized).without(ConfigFlag::WindowMinimized)
    }
}

impl<'s> WindowBuilder<'s> {
    /// A window of the given size and title, with no flag, no icon and the
    /// engine's own exit key.
    pub fn new(width: usize, height: usize, title: &'s str) -> (builder: Self)
        ensures
            builder@ == (WindowConfig {
                width,
                height,
                title: title@,
                icon: None,
                exit_key: None,
                flags: ConfigFlagSet::none(),
            }),
            builder@.flags@ == Set::<ConfigFlag>::empty(),
            builder@.flags.mask() == 0,
    {
        Self {
            width,
            height,
            title,
            icon: None,
            exit_key: None,
            config_flags: ConfigFlagSet::empty(),
        }
    }

    /// Opens the session: claims the process's one session and hands back
    /// the engine calls that create the window, for the caller to issue
    /// before it asks the engine whether it is ready.
    ///
    /// It is turned away unless this is the first session of the process.
    pub fn start(&self, ctx: &mut EngineContext) -> (calls: Result<Vec<EngineCall>, DiotekoErr>)
        ensures
            calls is Ok <==> old(ctx)@.accepts(EngineEvent::OpenSession),
            final(ctx)@ == old(ctx)@.step(EngineEvent::OpenSession),
            old(ctx).wf() ==> final(ctx).wf(),
            calls matches Ok(due) ==> self@.creates(due@),
            calls matches Err(e) ==> e == DiotekoErr::ProtocolViolation,
    {
        match ctx.apply(EngineEvent::OpenSession) {
            Ok(()) => Ok(self.init_calls()),
            Err(e) => Err(e),
        }
    }

    /// The engine calls that create the window, in their order.
    pub fn init_calls(&self) -> (calls: Vec<EngineCall>)
        ensures
            self@.creates(calls@),
    {
        let mut calls: Vec<EngineCall> = Vec::new();
        calls.push(
            EngineCall::InitWindow {
                width: #[verifier::truncate]
                (self.width as i32),
                height: #[verifier::truncate]
                (self.height as i32),
                title: self.title.to_owned(),
            },
        );
        calls.push(EngineCall::SetWindowState(self.config_flags.bits()));
        if let Some(icon) = self.icon {
            calls.push(EngineCall::SetWindowIcon(icon.take_raw()));
        }
        if let Some(exit_key) = self.exit_key {
            calls.push(EngineCall::SetExitKey(exit_key.code()));
        }
        calls
    }

    /// Ends what `start` began, with the engine's answer to the readiness
    /// probe: the session is up and the window is handed out, or the engine
    /// did not come up and the session is over for good.
    ///
    /// It is turned away unless a session was started and not yet probed.
    pub fn build(&self, ctx: &mut EngineContext, ready: bool) -> (window: Result<
        Window,
        DiotekoErr,
    >)
        ensures
            final(ctx)@ == old(ctx)@.step(EngineEvent::SessionProbed(ready)),
            old(ctx).wf() ==> final(ctx).wf(),
            window is Ok <==> ready && old(ctx)@.accepts(EngineEvent::SessionProbed(ready)),
            window matches Ok(made) ==> made@ == self@.state(),
            window matches Err(e) ==> e == (if old(ctx)@.accepts(
                EngineEvent::SessionProbed(ready),
            ) {
                DiotekoErr::WindowInitFailedErr
            } else {
                DiotekoErr::ProtocolViolation
            }),
    {
        match ctx.apply(EngineEvent::SessionProbed(ready)) {
            Ok(()) => {},
            Err(e) => {
                return Err(e);
            },
        }
        if !ready {
            return Err(DiotekoErr::WindowInitFailedErr);
        }
        Ok(
            Window {
                width: self.width,
                height: self.height,
                title: self.title.to_owned(),
                config_flags: self.config_flags,
                one_thread: PhantomData,
            },
        )
    }

    /// Shows `icon` as the window's icon. The image is borrowed until the
    /// window is created and stays its owner's.
    #[inline]
    pub fn set_window_icon(self, icon: &'s Image) -> (builder: Self)
        ensures
            builder@ == (WindowConfig { icon: Some(icon.raw()), ..self@ }),
    {
        let mut builder = self;
        builder.icon = Some(icon);
        builder
    }

    /// Makes `key` the key that ends the main loop.
    #[inline]
    pub fn set_exit_key(self, key: Key) -> (builder: Self)
        ensures
            builder@ == (WindowConfig { exit_key: Some(key), ..self@ }),
    {
        let mut builder = self;
        builder.exit_key = Some(key);
        builder
    }

    /// Switches `flag` on.
    pub fn with_flag(self, flag: ConfigFlag) -> (builder: Self)
        ensures
            builder@ == self@.with(flag),
            builder@.flags@ == self@.flags@.insert(flag),
            builder@.flags.mask() == self@.flags.mask() | flag.mask_of(),
    {
        let mut builder = self;
        builder.config_flags.insert(flag);
        builder
    }

    /// Asks for vertical synchronisation.
    #[inline]
    pub fn with_vsync_hint(self) -> (builder: Self)
        ensures
            builder@ == self@.with(ConfigFlag::VsyncHint),
            builder@.flags@ == self@.flags@.insert(ConfigFlag::VsyncHint),
    {
        self.with_flag(ConfigFlag::VsyncHint)
    }

    /// Asks for a fullscreen window.
    #[inline]
    pub fn with_fullscreen(self) -> (builder: Self)
        ensures
            builder@ == self@.with(ConfigFlag::FullscreenMode),
            builder@.flags@ == self@.flags@.insert(ConfigFlag::FullscreenMode),
    {
        self.with_flag(ConfigFlag::FullscreenMode)
    }

    /// Asks for a window that the user can resize.
    #[inline]
    pub fn with_resizable(self) -> (builder: Self)
        ensures
            builder@ == self@.with(ConfigFlag::WindowResizable),
            builder@.flags@ == self@.flags@.insert(ConfigFlag::WindowResizable),
    {
        self.with_flag(ConfigFlag::WindowResizable)
    }

    /// Asks for a window without frame and buttons.
    #[inline]
    pub fn with_undecorated(self) -> (builder: Self)
        ensures
            builder@ == self@.with(ConfigFlag::WindowUndecorated),
            builder@.flags@ == self@.flags@.insert(ConfigFlag::WindowUndecorated),
    {
        self.with_flag(ConfigFlag::WindowUndecorated)
    }

    /// Asks for a window that starts hidden.
    #[inline]
    pub fn with_hidden(self) -> (builder: Self)
        ensures
            builder@ == self@.with(ConfigFlag::WindowHidden),
            builder@.flags@ == self@.flags@.insert(ConfigFlag::WindowHidden),
    {
        self.with_flag(ConfigFlag::WindowHidden)
    }

    /// Asks for a window that starts minimized.
    #[inline]
    pub fn with_minimized(self) -> (builder: Self)
        ensures
            builder@ == self@.with(ConfigFlag::WindowMinimized),
            builder@.flags@ == self@.flags@.insert(ConfigFlag::WindowMinimized),
    {
        self.with_flag(ConfigFlag::WindowMinimized)
    }

    /// Asks for a window that starts maximized.
    #[inline]
    pub fn with_maximized(self) -> (builder: Self)
        ensures
            builder@ == self@.with(ConfigFlag::WindowMaximized),
            builder@.flags@ == self@.flags@.insert(ConfigFlag::WindowMaximized),
    {
        self.with_flag(ConfigFlag::WindowMaximized)
    }

    /// Asks for a window that starts without the input focus.
    #[inline]
    pub fn with_unfocused(self) -> (builder: Self)
        ensures
            builder@ == self@.with(ConfigFlag::WindowUnfocused),
            builder@.flags@ == self@.flags@.insert(ConfigFlag::WindowUnfocused),
    {
        self.with_flag(ConfigFlag::WindowUnfocused)
    }

    /// Asks for a window that stays above the others.
    #[inline]
    pub fn with_topmost(self) -> (builder: Self)
        ensures
            builder@ == self@.with(ConfigFlag::WindowTopmost),
            builder@.flags@ == self@.flags@.insert(ConfigFlag::WindowTopmost),
    {
        self.with_flag(ConfigFlag::WindowTopmost)
    }

    /// Asks for a window that keeps running while minimized.
    #[inline]
    pub fn with_always_run(self) -> (builder: Self)
        ensures
            builder@ == self@.with(ConfigFlag::WindowAlwaysRun),
            builder@.flags@ == self@.flags@.insert(ConfigFlag::WindowAlwaysRun),
    {
        self.with_flag(ConfigFlag::WindowAlwaysRun)
    }

    /// Asks for a framebuffer that can be seen through.
    #[inline]
    pub fn with_transparent(self) -> (builder: Self)
        ensures
            builder@ == self@.with(ConfigFlag::WindowTransparent),
            builder@.flags@ == self@.flags@.insert(ConfigFlag::WindowTransparent),
    {
        self.with_flag(ConfigFlag::WindowTransparent)
    }

    /// Asks for a framebuffer at the display's full resolution.
    #[inline]
    pub fn with_high_dpi(self) -> (builder: Self)
        ensures
            builder@ == self@.with(ConfigFlag::WindowHighdpi),
            builder@.flags@ == self@.flags@.insert(ConfigFlag::WindowHighdpi),
    {
        self.with_flag(ConfigFlag::WindowHighdpi)
    }

    /// Asks for four samples per pixel.
    #[inline]
    pub fn with_msaa_4x(self) -> (builder: Self)
        ensures
            builder@ == self@.with(ConfigFlag::Msaa4xHint),
            builder@.flags@ == self@.flags@.insert(ConfigFlag::Msaa4xHint),
    {
        self.with_flag(ConfigFlag::Msaa4xHint)
    }

    /// Asks for an interlaced video mode.
    #[inline]
    pub fn with_interlaced_hint(self) -> (builder: Self)
        ensures
            builder@ == self@.with(ConfigFlag::InterlacedHint),
            builder@.flags@ == self@.flags@.insert(ConfigFlag::InterlacedHint),
    {
        self.with_flag(ConfigFlag::InterlacedHint)
    }

    /// The flags collected so far.
    pub fn config_flags(&self) -> (flags: ConfigFlagSet)
        ensures
            flags == self@.flags,
    {
        self.config_flags
    }
}

impl Window {
    /// The width that the window was created with.
    #[inline]
    pub fn get_width(&self) -> (width: usize)
        ensures
            width == self@.width,
    {
        self.width
    }

    /// The height that the window was created with.
    #[inline]
    pub fn get_height(&self) -> (height: usize)
        ensures
            height == self@.height,
    {
        self.height
    }

    /// The title that the window was created with.
    pub fn title(&self) -> (title: &str)
        ensures
            title@ == self@.title,
    {
        self.title.as_str()
    }

    /// The flags as they were last handed to the engine.
    pub fn config_flags(&self) -> (flags: ConfigFlagSet)
        ensures
            flags == self@.flags,
    {
        self.config_flags
    }

    /// Asks the window to go fullscreen: the fullscreen flag joins the flags
    /// kept here, and the whole mask goes to the engine in one call.
    ///
    /// It is turned away, and changes nothing, unless the window is up.
    pub fn toogle_fullscreen(&mut self, ctx: &EngineContext) -> (call: Result<
        EngineCall,
        DiotekoErr,
    >)
        ensures
            call is Ok <==> ctx@.ready(),
            final(self)@ == (if ctx@.ready() {
                old(self)@.fullscreen()
            } else {
                old(self)@
            }),
            call matches Ok(due) ==> due == EngineCall::SetWindowState(final(self)@.flags.mask()),
            call matches Err(e) ==> e == DiotekoErr::ProtocolViolation,
    {
        let mut flags = self.config_flags;
        flags.insert(ConfigFlag::FullscreenMode);
        self.push_flags(ctx, flags)
    }

    /// Maximizes the window: the maximized flag joins the flags kept here,
    /// and the whole mask goes to the engine in one call.
    ///
    /// It is turned away, and changes nothing, unless the window is up.
    pub fn maximize_window(&mut self, ctx: &EngineContext) -> (call: Result<EngineCall, DiotekoErr>)
        ensures
            call is Ok <==> ctx@.ready(),
            final(self)@ == (if ctx@.ready() {
                old(self)@.maximized()
            } else {
                old(self)@
            }),
            call matches Ok(due) ==> due == EngineCall::SetWindowState(final(self)@.flags.mask()),
            call matches Err(e) ==> e == DiotekoErr::ProtocolViolation,
    {
        let mut flags = self.config_flags;
        flags.insert(ConfigFlag::WindowMaximized);
        self.push_flags(ctx, flags)
    }

    /// Minimizes the window: the minimized flag joins the flags kept here,
    /// and the whole mask goes to the engine in one call.
    ///
    /// It is turned away, and changes nothing, unless the window is up.
    pub fn minimize_window(&mut self, ctx: &EngineContext) -> (call: Result<EngineCall, DiotekoErr>)
        ensures
            call is Ok <==> ctx@.ready(),
            final(self)@ == (if ctx@.ready() {
                old(self)@.minimized()
            } else {
                old(self)@
            }),
            call matches Ok(due) ==> due == EngineCall::SetWindowState(final(self)@.flags.mask()),
            call matches Err(e) ==> e == DiotekoErr::ProtocolViolation,
    {
        let mut flags = self.config_flags;
        flags.insert(ConfigFlag::WindowMinimized);
        self.push_flags(ctx, flags)
    }

    /// Restores the window: the maximized and the minimized flag leave the
    /// flags kept here, every other flag stays, the fullscreen flag among
    /// them, and the whole mask goes to the engine in one call.
    ///
    /// It is turned away, and changes nothing, unless the window is up.
    pub fn restore_window(&mut self, ctx: &EngineContext) -> (call: Result<EngineCall, DiotekoErr>)
        ensures
            call is Ok <==> ctx@.ready(),
            final(self)@ == (if ctx@.ready() {
                old(self)@.restored()
            } else {
                old(self)@
            }),
            call matches Ok(due) ==> due == EngineCall::SetWindowState(final(self)@.flags.mask()),
            call matches Err(e) ==> e == DiotekoErr::ProtocolViolation,
    {
        let mut flags = self.config_flags;
        flags.remove(ConfigFlag::WindowMaximized);
        flags.remove(ConfigFlag::WindowMinimized);
        self.push_flags(ctx, flags)
    }

    /// Closes the window: the session is over, and the engine's call that
    /// destroys the window falls due, once. The value is used up, so a
    /// second close cannot be written.
    ///
    /// It is turned away unless the window is up, no frame is open and no
    /// GPU resource is alive; the window is then handed back as it was.
    pub fn close(self, ctx: &mut EngineContext) -> (call: Result<EngineCall, (Window, DiotekoErr)>)
        ensures
            call is Ok <==> old(ctx)@.accepts(EngineEvent::CloseSession),
            final(ctx)@ == old(ctx)@.step(EngineEvent::CloseSession),
            old(ctx).wf() ==> final(ctx).wf(),
            call matches Ok(due) ==> due == EngineCall::CloseWindow,
            call matches Err(back) ==> back.0 == self && back.1 == DiotekoErr::ProtocolViolation,
    {
        match ctx.apply(EngineEvent::CloseSession) {
            Ok(()) => Ok(EngineCall::CloseWindow),
            Err(e) => Err((self, e)),
        }
    }

    /// Replaces the flags kept here by `flags` and hands back the call that
    /// tells the engine, if the window is up.
    fn push_flags(&mut self, ctx: &EngineContext, flags: ConfigFlagSet) -> (call: Result<
        EngineCall,
        DiotekoErr,
    >)
        ensures
            call is Ok <==> ctx@.ready(),
            final(self)@ == (if ctx@.ready() {
                WindowState { flags, ..old(self)@ }
            } else {
                old(self)@
            }),
            call matches Ok(due) ==> due == EngineCall::SetWindowState(flags.mask()),
            call matches Err(e) ==> e == DiotekoErr::ProtocolViolation,
    {
        match ctx.ensure_ready() {
            Ok(()) => {},
            Err(e) => {
                return Err(e);
            },
        }
        self.config_flags = flags;
        Ok(EngineCall::SetWindowState(flags.bits()))
    }
}

/// Restoring is not the reverse of going fullscreen. Whatever the flags
/// were, a window that was asked to go fullscreen and then restored has the
/// fullscreen flag, has neither the maximized nor the minimized flag, and has
/// every other flag exactly if it had it before.
pub proof fn lemma_restore_keeps_fullscreen(before: WindowState, flag: ConfigFlag)
    ensures
        before.fullscreen().restored().flags@.contains(ConfigFlag::FullscreenMode),
        !before.fullscreen().restored().flags@.contains(ConfigFlag::WindowMaximized),
        !before.fullscreen().restored().flags@.contains(ConfigFlag::WindowMinimized),
        flag != ConfigFlag::FullscreenMode && flag != ConfigFlag::WindowMaximized && flag
            != ConfigFlag::WindowMinimized ==> before.fullscreen().restored().flags@.contains(flag)
            == before.flags@.contains(flag),
        before.fullscreen().restored().width == before.width,
        before.fullscreen().restored().height == before.height,
        before.fullscreen().restored().title == before.title,
{
    let full = before.flags.with(ConfigFlag::FullscreenMode);
    lemma_with(before.flags, ConfigFlag::FullscreenMode);
    lemma_without(full, ConfigFlag::WindowMaximized);
    lemma_without(full.without(ConfigFlag::WindowMaximized), ConfigFlag::WindowMinimized);
}

} // verus!
