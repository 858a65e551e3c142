//! The drawing context of one frame.

use vstd::prelude::*;

use crate::gfx::brushes::SolidColorBrush;
use crate::gfx::color::Color;
use crate::gfx::target::{EndDraw, RenderTarget, State, TargetState};

verus! {

/// Drawing context for one frame. It borrows the render target exclusively
/// for the length of the frame and holds the native surface that the frame
/// is drawn on. Ending the context ends the frame.
#[derive(Debug)]
pub struct Context<'t, T> {
    /// Exclusive reference to the render target into which this context is
    /// drawing.
    pub render_target: &'t mut RenderTarget<T>,
    /// The native surface of the frame.
    pub device_target: T,
}

impl<T> RenderTarget<T> {
    /// Begins the next frame and hands out the context to draw it with. If
    /// there is no native surface, because none was created yet or the
    /// device was lost, `create` makes one and a new generation starts.
    ///
    /// A frame must not be begun while another is being drawn.
    pub fn begin_draw<F: FnOnce() -> T>(&mut self, create: F) -> (ctx: Context<'_, T>)
        requires
            old(self)@.can_begin(),
            create.requires(()),
        ensures
            ctx.target() == old(self)@.begun(),
            *final(self) == *final(ctx.render_target),
            match old(self)@.state {
                State::Created { target: kept } => ctx.device_target == kept,
                _ => create.ensures((), ctx.device_target),
            },
    {
        let device_target = self.take_surface(create);
        Context::new(device_target, self)
    }
}

impl<'t, T> Context<'t, T> {
    /// The render target as it stands during the frame.
    pub open spec fn target(&self) -> TargetState<T> {
        self.render_target@
    }

    /// Construct a new context for batching the draw calls of the current
    /// frame on `device_target`.
    pub fn new(device_target: T, render_target: &'t mut RenderTarget<T>) -> (ctx: Context<'t, T>)
        ensures
            ctx.target() == old(render_target)@,
            ctx.device_target == device_target,
            *final(render_target) == *final(ctx.render_target),
    {
        Context { render_target, device_target }
    }

    /// The native surface to issue draw calls on.
    pub fn device_target(&self) -> (device_target: &T)
        ensures
            *device_target == self.device_target,
    {
        &self.device_target
    }

    /// The generation of the surface that the frame is drawn on.
    pub fn generation(&self) -> (generation: usize)
        ensures
            generation == self.target().generation,
    {
        self.render_target.generation()
    }

    /// Makes `brush` usable in this frame: if it was made for an earlier
    /// generation of the surface, it is made again with `make`. This has to
    /// precede every use of a brush in a draw call.
    pub fn prepare<B, F: FnOnce(Color) -> B>(&self, brush: &mut SolidColorBrush<B>, make: F)
        requires
            make.requires((old(brush)@.color,)),
        ensures
            final(brush)@.color == old(brush)@.color,
            final(brush)@.generation == self.target().generation,
            if old(brush)@.is_stale(self.target().generation) {
                make.ensures((old(brush)@.color,), final(brush)@.device_brush)
            } else {
                final(brush)@ == old(brush)@
            },
    {
        brush.recreate_if_needed(&*self.render_target, make);
    }

    /// Makes a solid color brush for the surface of this frame.
    pub fn make_solid_color_brush<B, F: FnOnce(Color) -> B>(&self, color: Color, make: F) -> (brush:
        SolidColorBrush<B>)
        requires
            make.requires((color,)),
        ensures
            brush@.color == color,
            brush@.generation == self.target().generation,
            make.ensures((color,), brush@.device_brush),
    {
        self.render_target.make_solid_color_brush(color, make)
    }

    /// Ends the frame, giving the native surface back to the render target.
    /// `outcome` tells how the backend's end-of-frame call went: after a
    /// loss of the device the surface is dropped, and the next frame
    /// creates a new one.
    pub fn end_draw(self, outcome: EndDraw)
        requires
            self.target().state is Drawing,
            outcome != EndDraw::Fatal,
        ensures
            final(self.render_target)@ == self.target().ended(self.device_target, outcome),
    {
        let Context { render_target, device_target } = self;
        render_target.end_draw(device_target, outcome);
    }
}

} // verus!
