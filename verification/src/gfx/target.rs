//! The render target: a state machine around the native drawing surface.
//!
//! The surface is created lazily, handed out for the length of one frame,
//! and thrown away when the backend reports that the device was lost. Each
//! creation starts a new generation, by which device resources such as
//! brushes notice that they have to be created again.

use vstd::prelude::*;

use crate::errors::Error;
use crate::geom::Size2D;
use crate::types::Hwnd;

verus! {

/// The result code by which the backend reports, at the end of a frame, that
/// the device was lost and the surface must be created again.
pub const D2DERR_RECREATE_TARGET: i32 = -2003238900;

/// The internal state of a render target, over the type `T` of the native
/// drawing surface.
#[derive(Debug)]
pub enum State<T> {
    /// Device-specific resources have been created and are usable.
    Created { target: T },
    /// A frame is being drawn: the surface has been handed out.
    Drawing,
    /// Device-specific resources require (re-)creation. This is true for the
    /// first interaction and after any loss of the device.
    RequiresRecreation,
    /// A transition was cut short and the target is no longer usable.
    Poisoned,
}

/// How a frame ended.
#[derive(Clone, Copy, Debug, PartialEq, Eq, Structural)]
pub enum EndDraw {
    /// The frame was presented.
    Presented,
    /// The device was lost. The frame is discarded and must be drawn again
    /// from scratch.
    DeviceLost,
    /// The backend failed in a way that cannot be recovered from.
    Fatal,
}

/// How a frame ended, by the result of the backend's end-of-frame call.
pub open spec fn end_draw_of(result: Result<(), Error>) -> EndDraw {
    match result {
        Ok(_) => EndDraw::Presented,
        Err(e) => if e->code == D2DERR_RECREATE_TARGET {
            EndDraw::DeviceLost
        } else {
            EndDraw::Fatal
        },
    }
}

/// Tells how a frame ended from the result of the backend's end-of-frame
/// call. Loss of the device is the one failure that is recovered from.
pub fn classify_end_draw(result: &Result<(), Error>) -> (outcome: EndDraw)
    ensures
        outcome == end_draw_of(*result),
{
    match result {
        Ok(_) => EndDraw::Presented,
        Err(e) => match e.code() {
            Some(code) => if code == D2DERR_RECREATE_TARGET {
                EndDraw::DeviceLost
            } else {
                EndDraw::Fatal
            },
            None => EndDraw::Fatal,
        },
    }
}

impl<T> State<T> {
    /// Whether a frame can be begun: not while one is being drawn, and not
    /// on a poisoned target.
    pub open spec fn can_begin(self) -> bool {
        self is Created || self is RequiresRecreation
    }

    /// Transitions to the drawing state and returns the surface, creating it
    /// with `create` if there is none. The flag tells whether it was
    /// created.
    pub fn begin_draw<F: FnOnce() -> T>(self, create: F) -> (res: (State<T>, T, bool))
        requires
            self.can_begin(),
            create.requires(()),
        ensures
            res.0 is Drawing,
            match self {
                State::Created { target } => res.1 == target && !res.2,
                _ => create.ensures((), res.1) && res.2,
            },
    {
        match self {
            State::Created { target } => (State::Drawing, target, false),
            _ => (State::Drawing, create(), true),
        }
    }

    /// Ends a drawing cycle: the surface is kept for the next frame, or
    /// dropped if it must be created again.
    pub fn end_draw(self, must_recreate: bool, target: T) -> (next: State<T>)
        requires
            self is Drawing,
        ensures
            next == if must_recreate {
                State::<T>::RequiresRecreation
            } else {
                State::Created { target }
            },
    {
        if must_recreate {
            State::RequiresRecreation
        } else {
            State::Created { target }
        }
    }
}

/// What a render target holds, as plain mathematical values.
pub struct TargetState<T> {
    /// The state of the surface.
    pub state: State<T>,
    /// How many times the surface has been created.
    pub generation: nat,
    /// The window that the target draws into.
    pub hwnd: Hwnd,
    /// Size of both the window and the render target.
    pub size: Size2D,
}

impl<T> TargetState<T> {
    /// Whether a frame can be begun: the target is idle, and if a surface
    /// has to be created for the frame, the generation counter has room for
    /// one more generation.
    pub open spec fn can_begin(self) -> bool {
        self.state is Created || (self.state is RequiresRecreation && self.generation
            < usize::MAX)
    }

    /// The target after a frame has been begun. If the surface had to be
    /// created, a new generation starts.
    pub open spec fn begun(self) -> TargetState<T> {
        TargetState {
            state: State::Drawing,
            generation: if self.state is Created {
                self.generation
            } else {
                self.generation + 1
            },
            ..self
        }
    }

    /// The target after a frame has ended with `outcome`, the surface
    /// `target` coming back.
    pub open spec fn ended(self, target: T, outcome: EndDraw) -> TargetState<T> {
        TargetState {
            state: if outcome == EndDraw::DeviceLost {
                State::<T>::RequiresRecreation
            } else {
                State::Created { target }
            },
            ..self
        }
    }
}

/// Renders drawing instructions to a window.
///
/// A frame is begun with [`RenderTarget::begin_draw`], which hands out a
/// drawing context with the native surface, and ended by ending that
/// context. At most one frame is drawn at a time.
#[derive(Debug)]
pub struct RenderTarget<T> {
    /// The state of the native surface.
    state: State<T>,
    /// How many times the native surface has been created.
    generation: usize,
    /// The window that the target draws into.
    hwnd: Hwnd,
    /// Size of both the window and the render target.
    size: Size2D,
}

impl<T> View for RenderTarget<T> {
    type V = TargetState<T>;

    closed spec fn view(&self) -> TargetState<T> {
        TargetState {
            state: self.state,
            generation: self.generation as nat,
            hwnd: self.hwnd,
            size: self.size,
        }
    }
}

impl<T> RenderTarget<T> {
    /// A render target for the window `hwnd`. Its surface is created when
    /// the first frame is begun.
    pub fn new(hwnd: Hwnd, size: Size2D) -> (target: RenderTarget<T>)
        ensures
            target@ == (TargetState {
                state: State::<T>::RequiresRecreation,
                generation: 0,
                hwnd,
                size,
            }),
    {
        RenderTarget { state: State::RequiresRecreation, generation: 0, hwnd, size }
    }

    /// Moves to the drawing state and hands out the native surface. If there
    /// is no surface, because none was created yet or the device was lost,
    /// `create` makes one and a new generation starts.
    pub(crate) fn take_surface<F: FnOnce() -> T>(&mut self, create: F) -> (target: T)
        requires
            old(self)@.can_begin(),
            create.requires(()),
        ensures
            final(self)@ == old(self)@.begun(),
            match old(self)@.state {
                State::Created { target: kept } => target == kept,
                _ => create.ensures((), target),
            },
    {
        let mut state = State::Poisoned;
        core::mem::swap(&mut self.state, &mut state);
        let (new_state, target, created) = state.begin_draw(create);
        self.state = new_state;
        if created {
            self.generation = self.generation + 1;
        }
        target
    }

    /// Ends the frame, taking back the native surface. `outcome` tells how
    /// the backend's end-of-frame call went: after a loss of the device the
    /// surface is dropped, and the next frame creates a new one.
    ///
    /// Only a frame that was begun can be ended, and a fatal failure of the
    /// backend has no defined continuation.
    pub fn end_draw(&mut self, target: T, outcome: EndDraw)
        requires
            old(self)@.state is Drawing,
            outcome != EndDraw::Fatal,
        ensures
            final(self)@ == old(self)@.ended(target, outcome),
    {
        let must_recreate = match outcome {
            EndDraw::DeviceLost => true,
            _ => false,
        };
        let mut state = State::Poisoned;
        core::mem::swap(&mut self.state, &mut state);
        self.state = state.end_draw(must_recreate, target);
    }

    /// The generation of the native surface: how many times it has been
    /// created. Device resources of another generation are stale.
    pub fn generation(&self) -> (generation: usize)
        ensures
            generation == self@.generation,
    {
        self.generation
    }

    /// Whether a frame is being drawn.
    pub fn is_drawing(&self) -> (drawing: bool)
        ensures
            drawing == self@.state is Drawing,
    {
        match self.state {
            State::Drawing => true,
            _ => false,
        }
    }

    /// Whether a frame can be begun.
    pub fn can_begin_draw(&self) -> (ready: bool)
        ensures
            ready == self@.can_begin(),
    {
        match self.state {
            State::Created { .. } => true,
            State::RequiresRecreation => self.generation < usize::MAX,
            _ => false,
        }
    }

    /// The window that the target draws into.
    pub fn hwnd(&self) -> (hwnd: Hwnd)
        ensures
            hwnd == self@.hwnd,
    {
        self.hwnd
    }

    /// Size of both the window and the render target.
    pub fn size(&self) -> (size: Size2D)
        ensures
            size == self@.size,
    {
        self.size
    }
}

} // verus!
