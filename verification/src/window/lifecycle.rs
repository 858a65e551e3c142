//! The ownership protocol between a window object and the native window.
//!
//! A window object is owned from two sides: by the handle that the
//! application holds, and by the native window, whose user-data slot keeps a
//! share of its own. That share is checked out once, when the creation of the
//! native window is requested, and comes back once, when the native window
//! reports that it is gone. This module states the protocol as a state
//! machine over plain values and proves that, whatever order the events
//! arrive in, the share is released at most once and the native window is
//! destroyed at most once.

use vstd::prelude::*;

use crate::types::Hwnd;

verus! {

/// The window is being asked to repaint.
pub const WM_PAINT: u32 = 0x000F;

/// The user asked to close the window.
pub const WM_CLOSE: u32 = 0x0010;

/// The first message of a window that is being created.
pub const WM_NCCREATE: u32 = 0x0081;

/// The last message of a window that is being destroyed.
pub const WM_NCDESTROY: u32 = 0x0082;

/// The cell that holds the native handle of a window. It only ever moves
/// forward: from unset, to set, to cleared.
#[derive(Clone, Copy, Debug, PartialEq, Eq, Structural)]
pub enum HandleCell {
    /// The native window has not reported its handle yet.
    Unassigned,
    /// The native window is live under this handle.
    Assigned(Hwnd),
    /// The native window has been destroyed.
    Cleared,
}

/// The share of the window object that belongs to the native window.
#[derive(Clone, Copy, Debug, PartialEq, Eq, Structural)]
pub enum NativeShare {
    /// No native window has been requested yet.
    NotTaken,
    /// The native side holds its share.
    CheckedOut,
    /// The native side has given its share back.
    Released,
}

/// Where a window stands in its life.
#[derive(Clone, Copy, Debug, PartialEq, Eq, Structural)]
pub struct Lifecycle {
    /// The native handle cell.
    pub handle: HandleCell,
    /// The native side's share of the object.
    pub share: NativeShare,
    /// Whether the application's handle has been dropped.
    pub dropped: bool,
}

/// Something that happens to a window.
#[derive(Clone, Copy, Debug, PartialEq, Eq, Structural)]
pub enum LifecycleEvent {
    /// The creation of the native window is about to be requested.
    CreateRequested,
    /// The request to create the native window failed.
    CreateFailed,
    /// The one-time setup callback received a message for `hwnd`.
    Setup { hwnd: Hwnd, umsg: u32 },
    /// The steady-state callback received a message.
    Message { umsg: u32 },
    /// The application dropped its handle.
    Dropped,
}

/// What the native side has to be asked to do in answer to an event.
#[derive(Clone, Copy, Debug, PartialEq, Eq, Structural)]
pub struct Effect {
    /// Clear the user-data slot and drop the share that it held.
    pub release_share: bool,
    /// Destroy the native window with this handle.
    pub destroy: Option<Hwnd>,
    /// Store the object in the user-data slot of this window and switch its
    /// callback to the steady-state one.
    pub install: Option<Hwnd>,
}

impl Effect {
    /// Nothing to do.
    pub open spec fn none() -> Effect {
        Effect { release_share: false, destroy: None, install: None }
    }
}

impl Lifecycle {
    /// A window object for which no native window has been requested.
    pub open spec fn fresh() -> Lifecycle {
        Lifecycle { handle: HandleCell::Unassigned, share: NativeShare::NotTaken, dropped: false }
    }

    /// Whether the native window is live.
    pub open spec fn is_live(self) -> bool {
        self.handle is Assigned
    }

    /// Whether either side still owns the object.
    pub open spec fn is_owned(self) -> bool {
        !self.dropped || self.share is CheckedOut
    }

    /// Whether the object can be reached from native code: it can while the
    /// native side holds its share, and never again after that.
    pub open spec fn reachable_from_native(self) -> bool {
        self.share is CheckedOut
    }

    /// The state after `event`, and what the native side must do for it.
    pub open spec fn step(self, event: LifecycleEvent) -> (Lifecycle, Effect) {
        match event {
            LifecycleEvent::CreateRequested => if self.share is NotTaken {
                (Lifecycle { share: NativeShare::CheckedOut, ..self }, Effect::none())
            } else {
                (self, Effect::none())
            },
            LifecycleEvent::CreateFailed => if self.share is CheckedOut {
                (
                    Lifecycle {
                        share: NativeShare::Released,
                        handle: if self.handle is Assigned {
                            HandleCell::Cleared
                        } else {
                            self.handle
                        },
                        ..self
                    },
                    Effect { release_share: true, ..Effect::none() },
                )
            } else {
                (self, Effect::none())
            },
            LifecycleEvent::Setup { hwnd, umsg } => if umsg == WM_NCCREATE && self.handle is Unassigned
                && self.share is CheckedOut && hwnd.0 != 0 {
                (
                    Lifecycle { handle: HandleCell::Assigned(hwnd), ..self },
                    Effect { install: Some(hwnd), ..Effect::none() },
                )
            } else {
                (self, Effect::none())
            },
            LifecycleEvent::Message { umsg } => if umsg == WM_NCDESTROY {
                (
                    Lifecycle {
                        handle: HandleCell::Cleared,
                        share: if self.share is CheckedOut {
                            NativeShare::Released
                        } else {
                            self.share
                        },
                        ..self
                    },
                    Effect { release_share: self.share is CheckedOut, ..Effect::none() },
                )
            } else {
                (self, Effect::none())
            },
            LifecycleEvent::Dropped => if self.dropped {
                (self, Effect::none())
            } else {
                (
                    Lifecycle { dropped: true, ..self },
                    Effect {
                        destroy: match self.handle {
                            HandleCell::Assigned(hwnd) => Some(hwnd),
                            _ => None,
                        },
                        ..Effect::none()
                    },
                )
            },
        }
    }
}

/// A window's state after a run of events, with the count of what the native
/// side was asked to do along the way.
pub struct Trace {
    /// The state after the last event.
    pub state: Lifecycle,
    /// How many times the native share was released.
    pub releases: nat,
    /// How many times a native window was destroyed.
    pub destroys: nat,
}

/// Runs `events` in order, starting from `start`.
pub open spec fn run(start: Lifecycle, events: Seq<LifecycleEvent>) -> Trace
    decreases events.len(),
{
    if events.len() == 0 {
        Trace { state: start, releases: 0, destroys: 0 }
    } else {
        let before = run(start, events.drop_last());
        let (state, effect) = before.state.step(events.last());
        Trace {
            state,
            releases: before.releases + if effect.release_share {
                1nat
            } else {
                0nat
            },
            destroys: before.destroys + if effect.destroy is Some {
                1nat
            } else {
                0nat
            },
        }
    }
}

/// Running one more event after `events` is a step from where `events` led.
pub proof fn lemma_run_push(start: Lifecycle, events: Seq<LifecycleEvent>, event: LifecycleEvent)
    ensures
        run(start, events.push(event)).state == run(start, events).state.step(event).0,
        run(start, events.push(event)).releases == run(start, events).releases + if run(
            start,
            events,
        ).state.step(event).1.release_share {
            1nat
        } else {
            0nat
        },
        run(start, events.push(event)).destroys == run(start, events).destroys + if run(
            start,
            events,
        ).state.step(event).1.destroy is Some {
            1nat
        } else {
            0nat
        },
{
    assert(events.push(event).drop_last() =~= events);
}

/// The share is released exactly once, and the native window is destroyed
/// at most once, whatever happens.
///
/// For every run of events on a fresh window: the native share has been
/// released once if it has come back and never otherwise; and a native
/// window has been destroyed at most once, and only after the application
/// dropped its handle.
pub proof fn lemma_exactly_once(events: Seq<LifecycleEvent>)
    ensures
        run(Lifecycle::fresh(), events).releases == if run(
            Lifecycle::fresh(),
            events,
        ).state.share is Released {
            1nat
        } else {
            0nat
        },
        run(Lifecycle::fresh(), events).destroys <= 1,
        run(Lifecycle::fresh(), events).destroys == 1 ==> run(
            Lifecycle::fresh(),
            events,
        ).state.dropped,
    decreases events.len(),
{
    if events.len() > 0 {
        lemma_exactly_once(events.drop_last());
    }
}

/// Dropping the handle of a live window destroys the native window, the
/// final message that this brings releases the native share, and nothing is
/// left to do after that.
///
/// `before` is any run of events that leaves the native window live and
/// the application still holding its handle.
pub proof fn lemma_drop_tears_down_once(before: Seq<LifecycleEvent>, after: Seq<LifecycleEvent>)
    requires
        run(Lifecycle::fresh(), before).state.is_live(),
        !run(Lifecycle::fresh(), before).state.dropped,
    ensures
        ({
            let live = run(Lifecycle::fresh(), before);
            let torn_down = run(
                Lifecycle::fresh(),
                before.push(LifecycleEvent::Dropped).push(
                    LifecycleEvent::Message { umsg: WM_NCDESTROY },
                ),
            );
            let later = run(
                Lifecycle::fresh(),
                before.push(LifecycleEvent::Dropped).push(
                    LifecycleEvent::Message { umsg: WM_NCDESTROY },
                ) + after,
            );
            &&& live.releases == 0
            &&& live.destroys == 0
            &&& torn_down.releases == 1
            &&& torn_down.destroys == 1
            &&& torn_down.state.handle is Cleared
            &&& !torn_down.state.is_owned()
            &&& later.releases == 1
            &&& later.destroys == 1
            &&& !later.state.reachable_from_native()
        }),
    decreases after.len(),
{
    let start = Lifecycle::fresh();
    let dropped = before.push(LifecycleEvent::Dropped);
    let gone = dropped.push(LifecycleEvent::Message { umsg: WM_NCDESTROY });
    lemma_exactly_once(before);
    lemma_live_holds_share(before);
    lemma_run_push(start, before, LifecycleEvent::Dropped);
    lemma_run_push(start, dropped, LifecycleEvent::Message { umsg: WM_NCDESTROY });
    lemma_exactly_once(gone + after);
    if after.len() == 0 {
        assert(gone + after =~= gone);
    } else {
        lemma_drop_tears_down_once(before, after.drop_last());
        assert((gone + after).drop_last() =~= gone + after.drop_last());
        lemma_exactly_once(gone + after.drop_last());
    }
}

/// While the native window is live, the native side holds its share.
pub proof fn lemma_live_holds_share(events: Seq<LifecycleEvent>)
    ensures
        run(Lifecycle::fresh(), events).state.is_live() ==> run(
            Lifecycle::fresh(),
            events,
        ).state.share is CheckedOut,
    decreases events.len(),
{
    if events.len() > 0 {
        lemma_live_holds_share(events.drop_last());
    }
}

/// Dropping the handle of a window that the native side has destroyed
/// already is a no-op.
pub proof fn lemma_drop_after_native_destroy(state: Lifecycle)
    requires
        !state.is_live(),
    ensures
        state.step(LifecycleEvent::Dropped).1 == Effect::none(),
        state.step(LifecycleEvent::Dropped).0.handle == state.handle,
        state.step(LifecycleEvent::Dropped).0.share == state.share,
{
}

} // verus!
