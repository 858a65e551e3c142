//! Device-mapped brushes for "painting" areas of a render target.

use vstd::prelude::*;

use crate::gfx::color::Color;
use crate::gfx::target::RenderTarget;

verus! {

/// A brush which paints an area with a solid color, over the type `B` of the
/// native brush.
///
/// This is a device-specific resource and is tied to the generation of the
/// render target for which it was created. Cache the brush and re-use it on
/// subsequent draw calls for best performance.
#[derive(Debug)]
pub struct SolidColorBrush<B> {
    /// A copy of the color from which the brush was created. This is used to
    /// re-create the brush when the device-specific resources have to be
    /// created again.
    color: Color,
    /// The cached native brush. It is stale once the render target has
    /// started a new generation.
    device_brush: B,
    /// The generation of the render target for which this brush was created.
    generation: usize,
}

/// What a brush holds, as plain mathematical values.
pub struct BrushState<B> {
    /// The color that the brush paints.
    pub color: Color,
    /// The native brush.
    pub device_brush: B,
    /// The generation for which the native brush was created.
    pub generation: nat,
}

impl<B> BrushState<B> {
    /// Whether the native brush is stale for a render target of the given
    /// generation.
    pub open spec fn is_stale(self, generation: nat) -> bool {
        self.generation != generation
    }
}

impl<B> View for SolidColorBrush<B> {
    type V = BrushState<B>;

    closed spec fn view(&self) -> BrushState<B> {
        BrushState {
            color: self.color,
            device_brush: self.device_brush,
            generation: self.generation as nat,
        }
    }
}

impl<B> SolidColorBrush<B> {
    /// Wraps a native brush that was created for `color` in the given
    /// generation of a render target.
    pub fn new(color: Color, device_brush: B, generation: usize) -> (brush: SolidColorBrush<B>)
        ensures
            brush@ == (BrushState { color, device_brush, generation: generation as nat }),
    {
        SolidColorBrush { color, device_brush, generation }
    }

    /// The color of the brush.
    pub fn color(&self) -> (color: Color)
        ensures
            color == self@.color,
    {
        self.color
    }

    /// The generation of the render target for which this brush was created.
    /// If the two generations no longer agree, the brush must be re-created.
    pub fn generation(&self) -> (generation: usize)
        ensures
            generation == self@.generation,
    {
        self.generation
    }

    /// The native brush.
    pub fn device_brush(&self) -> (device_brush: &B)
        ensures
            *device_brush == self@.device_brush,
    {
        &self.device_brush
    }

    /// Re-creates the native brush if it is stale, that is, if the brush's
    /// generation no longer matches that of the render target. `make` creates
    /// a native brush for a color; the brush keeps its color.
    pub fn recreate_if_needed<T, F: FnOnce(Color) -> B>(
        &mut self,
        render_target: &RenderTarget<T>,
        make: F,
    )
        requires
            make.requires((old(self)@.color,)),
        ensures
            final(self)@.color == old(self)@.color,
            final(self)@.generation == render_target@.generation,
            !final(self)@.is_stale(render_target@.generation),
            if old(self)@.is_stale(render_target@.generation) {
                make.ensures((old(self)@.color,), final(self)@.device_brush)
            } else {
                final(self)@ == old(self)@
            },
    {
        if self.generation != render_target.generation() {
            self.device_brush = make(self.color);
            self.generation = render_target.generation();
        }
    }
}

impl<T> RenderTarget<T> {
    /// Makes a solid color brush for the current generation of this render
    /// target. `make` creates the native brush for the color.
    pub fn make_solid_color_brush<B, F: FnOnce(Color) -> B>(&self, color: Color, make: F) -> (brush:
        SolidColorBrush<B>)
        requires
            make.requires((color,)),
        ensures
            brush@.color == color,
            brush@.generation == self@.generation,
            make.ensures((color,), brush@.device_brush),
    {
        let device_brush = make(color);
        SolidColorBrush::new(color, device_brush, self.generation())
    }
}

} // verus!
