//! The window object that the application's handle and the native window
//! share.

use vstd::prelude::*;

use crate::geom::{Point2D, Rect2D, Size2D};
use crate::keyboard::adapter::{adapted, is_keyboard_msg, Adapter};
use crate::keyboard::kbd::{Keyboard, KeyboardState};
use crate::strings::{to_wide, wide_units};
use crate::types::Hwnd;
use crate::window::class::WindowClass;
use crate::window::lifecycle::{
    HandleCell, Lifecycle, LifecycleEvent, NativeShare, WM_CLOSE, WM_NCCREATE, WM_NCDESTROY,
    WM_PAINT,
};

verus! {

/// The system theme, either light or dark.
#[derive(Clone, Copy, Debug, PartialEq, Eq, Structural)]
pub enum Theme {
    /// A dark background with a contrasting light foreground.
    DarkMode,
    /// A light background with a contrasting dark foreground.
    LightMode,
}

/// The state of a window as the application sees it. If the state is
/// `CloseRequested`, the window should be dropped to action the close.
#[derive(Clone, Copy, Debug, PartialEq, Eq, Structural)]
pub enum WindowState {
    /// Window is active and running normally.
    Active,
    /// The window has requested to close, typically because the user clicked
    /// the window's close button.
    CloseRequested,
}

/// What the caller of the message handler has to do with a message.
#[derive(Clone, Copy, Debug, PartialEq, Eq, Structural)]
pub struct MessageOutcome {
    /// The message was fully handled and must not be forwarded to the
    /// default window procedure.
    pub handled: bool,
    /// The native window is gone: clear its user-data slot and drop the
    /// share of the object that the slot held.
    pub release_native_share: bool,
}

/// What is needed to request a native window.
#[derive(Debug)]
pub struct CreateParams {
    /// The name of the registered window class, as wide code units.
    pub class_name: Vec<u16>,
    /// The window title, as wide code units.
    pub title: Vec<u16>,
    /// The client area, anchored at the origin. The native system widens it
    /// by the window chrome.
    pub client_rect: Rect2D,
}

/// What a window object holds, as plain mathematical values.
pub struct WindowInnerState {
    /// Where the window stands in its life.
    pub lifecycle: Lifecycle,
    /// An outstanding close request from the native side.
    pub close_request: bool,
    /// An outstanding redraw request from the native side.
    pub redraw_request: bool,
    /// Keyboard and text input state.
    pub keyboard: KeyboardState,
    /// The window's title.
    pub title: Seq<char>,
    /// Fixed size of the window's client area.
    pub size: Size2D,
    /// The theme of the title bar.
    pub theme: Theme,
}

impl WindowInnerState {
    /// The state after a steady-state message.
    ///
    /// Keyboard messages go to the keyboard tracker. A close message raises
    /// the close request, a paint message the redraw request. The final
    /// destroy message clears the handle cell and takes back the native
    /// share. Every other message leaves the window as it is.
    pub open spec fn after_message(self, umsg: u32, wparam: usize, lparam: isize) -> WindowInnerState {
        if is_keyboard_msg(umsg) {
            match adapted(umsg, wparam, lparam) {
                Some(event) => WindowInnerState { keyboard: self.keyboard.apply(event), ..self },
                None => self,
            }
        } else if umsg == WM_CLOSE {
            WindowInnerState { close_request: true, ..self }
        } else if umsg == WM_PAINT {
            WindowInnerState { redraw_request: true, ..self }
        } else {
            WindowInnerState {
                lifecycle: self.lifecycle.step(LifecycleEvent::Message { umsg }).0,
                ..self
            }
        }
    }

    /// What the caller of the message handler has to do with a message:
    /// keyboard and close messages are fully handled, all others are
    /// forwarded, and the final destroy message releases the native share
    /// if it is out.
    pub open spec fn outcome(self, umsg: u32) -> MessageOutcome {
        MessageOutcome {
            handled: is_keyboard_msg(umsg) || umsg == WM_CLOSE,
            release_native_share: self.lifecycle.step(
                LifecycleEvent::Message { umsg },
            ).1.release_share,
        }
    }

    /// The state after the close request has been polled: the request is
    /// handed out and cleared.
    pub open spec fn close_polled(self) -> WindowInnerState {
        WindowInnerState { close_request: false, ..self }
    }

    /// The state after the redraw request has been polled.
    pub open spec fn redraw_polled(self) -> WindowInnerState {
        WindowInnerState { redraw_request: false, ..self }
    }

    /// The state after a lifecycle event that is no message.
    pub open spec fn after_event(self, event: LifecycleEvent) -> WindowInnerState {
        WindowInnerState { lifecycle: self.lifecycle.step(event).0, ..self }
    }
}

/// The window object: what the application's handle and the native window
/// both refer to.
pub struct WindowInner {
    /// A share of the window class registered for windows of this type.
    window_class: WindowClass,
    /// The handle cell and the native side's share.
    lifecycle: Lifecycle,
    /// Fixed size for our window's client area.
    size: Size2D,
    /// The window's title, as it appears in the title bar.
    title: String,
    /// The title as wide code units.
    wide_title: Vec<u16>,
    /// The theme of the title bar.
    theme: Theme,
    /// Stores an outstanding close request from the native side. This must
    /// either be actioned by dropping the window, or the request can be
    /// cleared if it is to be ignored.
    close_request: bool,
    /// Stores an outstanding redraw request from the native side.
    redraw_request: bool,
    /// Keyboard and text input state.
    keyboard: Keyboard,
}

impl View for WindowInner {
    type V = WindowInnerState;

    closed spec fn view(&self) -> WindowInnerState {
        WindowInnerState {
            lifecycle: self.lifecycle,
            close_request: self.close_request,
            redraw_request: self.redraw_request,
            keyboard: self.keyboard@,
            title: self.title@,
            size: self.size,
            theme: self.theme,
        }
    }
}

impl WindowInner {
    /// The object's invariant: the keyboard tracker is well formed, the
    /// handle cell never holds the null handle, and the wide title is the
    /// title.
    pub closed spec fn wf(&self) -> bool {
        &&& self.keyboard.wf()
        &&& wide_units(self.title@) == Some(self.wide_title@)
        &&& match self.lifecycle.handle {
            HandleCell::Assigned(hwnd) => hwnd.0 != 0,
            _ => true,
        }
    }

    /// The window class that this window shares in.
    pub closed spec fn class(&self) -> WindowClass {
        self.window_class
    }

    /// Makes the object for a window of the given client size, title and
    /// theme. No native window is requested yet.
    ///
    /// The title must have a wide form, that is, no nul before its end.
    pub fn new(size: Size2D, title: &str, theme: Theme, window_class: WindowClass) -> (inner:
        WindowInner)
        requires
            wide_units(title@) is Some,
        ensures
            inner.wf(),
            inner.class() == window_class,
            inner@ == (WindowInnerState {
                lifecycle: Lifecycle::fresh(),
                close_request: false,
                redraw_request: false,
                keyboard: KeyboardState::initial(),
                title: title@,
                size,
                theme,
            }),
    {
        let wide_title = match to_wide(title) {
            Some(units) => units,
            None => {
                proof {
                    assert(false);
                }
                Vec::new()
            },
        };
        WindowInner {
            window_class,
            lifecycle: Lifecycle {
                handle: HandleCell::Unassigned,
                share: NativeShare::NotTaken,
                dropped: false,
            },
            size,
            title: title.to_owned(),
            wide_title,
            theme,
            close_request: false,
            redraw_request: false,
            keyboard: Keyboard::new(),
        }
    }

    /// Checks out the native side's share of the object and says what to
    /// create the native window with. The share is checked out once; asking
    /// again changes nothing.
    pub fn request_create(&mut self) -> (params: CreateParams)
        requires
            old(self).wf(),
        ensures
            final(self).wf(),
            final(self).class() == old(self).class(),
            final(self)@ == old(self)@.after_event(LifecycleEvent::CreateRequested),
            params.class_name@ == old(self).class().name(),
            Some(params.title@) == wide_units(old(self)@.title),
            params.client_rect == (Rect2D {
                left: 0,
                top: 0,
                right: old(self)@.size.width,
                bottom: old(self)@.size.height,
            }),
    {
        if let NativeShare::NotTaken = self.lifecycle.share {
            self.lifecycle.share = NativeShare::CheckedOut;
        }
        CreateParams {
            class_name: self.window_class.class_name().clone(),
            title: self.wide_title.clone(),
            client_rect: Rect2D::from_size_and_origin(self.size, Point2D::zero()),
        }
    }

    /// Records that the request to create the native window failed. Tells
    /// whether the native side's share is still out and has to be dropped by
    /// the caller, so that a failed creation leaks nothing.
    pub fn create_failed(&mut self) -> (release: bool)
        requires
            old(self).wf(),
        ensures
            final(self).wf(),
            final(self).class() == old(self).class(),
            final(self)@ == old(self)@.after_event(LifecycleEvent::CreateFailed),
            release == old(self)@.lifecycle.step(LifecycleEvent::CreateFailed).1.release_share,
    {
        if let NativeShare::CheckedOut = self.lifecycle.share {
            self.lifecycle.share = NativeShare::Released;
            if let HandleCell::Assigned(_) = self.lifecycle.handle {
                self.lifecycle.handle = HandleCell::Cleared;
            }
            true
        } else {
            false
        }
    }

    /// The one-time setup callback. On the first message of a window that is
    /// being created it stores the native handle; the caller must then put
    /// the object into the window's user-data slot and switch the window to
    /// the steady-state callback. Returns whether to do so. The message is
    /// always passed on to the default window procedure.
    pub fn wnd_proc_setup(&mut self, hwnd: Hwnd, umsg: u32) -> (install: bool)
        requires
            old(self).wf(),
        ensures
            final(self).wf(),
            final(self).class() == old(self).class(),
            final(self)@ == old(self)@.after_event(LifecycleEvent::Setup { hwnd, umsg }),
            install == (old(self)@.lifecycle.step(LifecycleEvent::Setup { hwnd, umsg }).1.install
                == Some(hwnd)),
            install == (umsg == WM_NCCREATE && old(self)@.lifecycle.handle is Unassigned && old(
                self,
            )@.lifecycle.share is CheckedOut && hwnd.0 != 0),
    {
        let unassigned = match self.lifecycle.handle {
            HandleCell::Unassigned => true,
            _ => false,
        };
        let checked_out = match self.lifecycle.share {
            NativeShare::CheckedOut => true,
            _ => false,
        };
        if umsg == WM_NCCREATE && unassigned && checked_out && hwnd.0 != 0 {
            self.lifecycle.handle = HandleCell::Assigned(hwnd);
            true
        } else {
            false
        }
    }

    /// Handles a message that the steady-state callback received.
    pub fn handle_message(&mut self, umsg: u32, wparam: usize, lparam: isize) -> (outcome:
        MessageOutcome)
        requires
            old(self).wf(),
        ensures
            final(self).wf(),
            final(self).class() == old(self).class(),
            final(self)@ == old(self)@.after_message(umsg, wparam, lparam),
            outcome == old(self)@.outcome(umsg),
    {
        if Adapter::handles_msg(umsg, wparam, lparam) {
            if let Some(event) = Adapter::adapt(umsg, wparam, lparam) {
                self.keyboard.process_evt(event);
            }
            return MessageOutcome { handled: true, release_native_share: false };
        }
        if umsg == WM_CLOSE {
            self.close_request = true;
            MessageOutcome { handled: true, release_native_share: false }
        } else if umsg == WM_PAINT {
            self.redraw_request = true;
            MessageOutcome { handled: false, release_native_share: false }
        } else if umsg == WM_NCDESTROY {
            // The window is being destroyed: the share that the native side
            // held comes back, and the handle is gone.
            let release = match self.lifecycle.share {
                NativeShare::CheckedOut => true,
                _ => false,
            };
            if release {
                self.lifecycle.share = NativeShare::Released;
            }
            self.lifecycle.handle = HandleCell::Cleared;
            MessageOutcome { handled: false, release_native_share: release }
        } else {
            MessageOutcome { handled: false, release_native_share: false }
        }
    }

    /// Records that the application dropped its handle. Returns the native
    /// window to destroy, if it is still live and has not been asked to go
    /// before; a window that the native side has destroyed already needs
    /// nothing.
    pub fn destroy(&mut self) -> (target: Option<Hwnd>)
        requires
            old(self).wf(),
        ensures
            final(self).wf(),
            final(self).class() == old(self).class(),
            final(self)@ == old(self)@.after_event(LifecycleEvent::Dropped),
            target == old(self)@.lifecycle.step(LifecycleEvent::Dropped).1.destroy,
            target is Some ==> target.unwrap().0 != 0,
    {
        if self.lifecycle.dropped {
            None
        } else {
            self.lifecycle.dropped = true;
            match self.lifecycle.handle {
                HandleCell::Assigned(hwnd) => Some(hwnd),
                _ => None,
            }
        }
    }

    /// The handle of the native window, while it is live. `None` before the
    /// native window exists and after it has been destroyed.
    pub fn hwnd(&self) -> (hwnd: Option<Hwnd>)
        requires
            self.wf(),
        ensures
            hwnd == match self@.lifecycle.handle {
                HandleCell::Assigned(h) => Some(h),
                _ => None::<Hwnd>,
            },
            hwnd is Some ==> hwnd.unwrap().0 != 0,
    {
        match self.lifecycle.handle {
            HandleCell::Assigned(hwnd) => Some(hwnd),
            _ => None,
        }
    }

    /// Where the window stands in its life.
    pub fn lifecycle(&self) -> (lifecycle: Lifecycle)
        ensures
            lifecycle == self@.lifecycle,
    {
        self.lifecycle
    }

    /// The size of the client area of the window. The window chrome is in
    /// addition to this size.
    pub fn size(&self) -> (size: Size2D)
        ensures
            size == self@.size,
    {
        self.size
    }

    /// The window's title.
    pub fn title(&self) -> (title: &str)
        ensures
            title@ == self@.title,
    {
        self.title.as_str()
    }

    /// The theme of the title bar.
    pub fn current_theme(&self) -> (theme: Theme)
        ensures
            theme == self@.theme,
    {
        self.theme
    }

    /// Records the theme of the title bar.
    pub fn set_theme(&mut self, theme: Theme)
        requires
            old(self).wf(),
        ensures
            final(self).wf(),
            final(self).class() == old(self).class(),
            final(self)@ == (WindowInnerState { theme, ..old(self)@ }),
    {
        self.theme = theme;
    }

    /// Whether the window asks to be closed. Looking does not clear the
    /// request.
    pub fn state(&self) -> (state: WindowState)
        ensures
            state == if self@.close_request {
                WindowState::CloseRequested
            } else {
                WindowState::Active
            },
    {
        if self.close_request {
            WindowState::CloseRequested
        } else {
            WindowState::Active
        }
    }

    /// Returns whether the window has requested to close, and immediately
    /// clears this request. The window is not actually closed until it is
    /// dropped, so the close request can be ignored if needed.
    pub fn clear_close_request(&mut self) -> (requested: bool)
        requires
            old(self).wf(),
        ensures
            final(self).wf(),
            final(self).class() == old(self).class(),
            requested == old(self)@.close_request,
            final(self)@ == old(self)@.close_polled(),
    {
        let requested = self.close_request;
        self.close_request = false;
        requested
    }

    /// Returns whether the window has requested to redraw, and immediately
    /// clears this request.
    pub fn clear_redraw_request(&mut self) -> (requested: bool)
        requires
            old(self).wf(),
        ensures
            final(self).wf(),
            final(self).class() == old(self).class(),
            requested == old(self)@.redraw_request,
            final(self)@ == old(self)@.redraw_polled(),
    {
        let requested = self.redraw_request;
        self.redraw_request = false;
        requested
    }

    /// Exclusive access to the keyboard tracker, to drain its input or to
    /// reset it.
    pub fn keyboard(&mut self) -> (keyboard: &mut Keyboard)
        requires
            old(self).wf(),
        ensures
            keyboard.wf(),
            keyboard@ == old(self)@.keyboard,
            final(keyboard).wf() ==> final(self).wf(),
            final(self).class() == old(self).class(),
            final(self)@ == (WindowInnerState { keyboard: final(keyboard)@, ..old(self)@ }),
    {
        &mut self.keyboard
    }

    /// The window class that this window shares in.
    pub fn window_class(&self) -> (class: &WindowClass)
        ensures
            *class == self.class(),
    {
        &self.window_class
    }

    /// Takes the object apart once neither side owns it, handing back its
    /// share of the window class so that it can be returned to the registry.
    pub fn into_class(self) -> (class: WindowClass)
        requires
            !self@.lifecycle.is_owned(),
        ensures
            class == self.class(),
    {
        self.window_class
    }
}

} // verus!
