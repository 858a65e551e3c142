//! Two-dimensional geometry in whole device-independent pixels.

use vstd::prelude::*;

verus! {

/// 2D point representation.
#[derive(Clone, Copy, Debug, PartialEq, Eq, Structural)]
pub struct Point2D {
    /// Co-ordinate along the x axis (horizontal).
    pub x: i32,
    /// Co-ordinate along the y axis (vertical).
    pub y: i32,
}

impl Point2D {
    /// The origin, `{x: 0, y: 0}`.
    pub fn zero() -> (point: Point2D)
        ensures
            point == (Point2D { x: 0, y: 0 }),
    {
        Point2D { x: 0, y: 0 }
    }
}

impl Default for Point2D {
    fn default() -> (point: Point2D)
        ensures
            point == (Point2D { x: 0, y: 0 }),
    {
        Point2D { x: 0, y: 0 }
    }
}

/// 2D size representation.
#[derive(Clone, Copy, Debug, PartialEq, Eq, Structural)]
pub struct Size2D {
    /// The extent of the element along the x axis.
    pub width: i32,
    /// The extent of the element along the y axis.
    pub height: i32,
}

impl Size2D {
    /// The empty size, `{width: 0, height: 0}`.
    pub fn zero() -> (size: Size2D)
        ensures
            size == (Size2D { width: 0, height: 0 }),
    {
        Size2D { width: 0, height: 0 }
    }

    /// The size of a single pixel, `{width: 1, height: 1}`.
    pub fn pixel() -> (size: Size2D)
        ensures
            size == (Size2D { width: 1, height: 1 }),
    {
        Size2D { width: 1, height: 1 }
    }
}

impl Default for Size2D {
    fn default() -> (size: Size2D)
        ensures
            size == (Size2D { width: 0, height: 0 }),
    {
        Size2D { width: 0, height: 0 }
    }
}

/// 2D rectangle, given by its edges.
#[derive(Clone, Copy, Debug, PartialEq, Eq, Structural)]
pub struct Rect2D {
    /// The left-most edge, or minimum x value.
    pub left: i32,
    /// The top-most edge, or minimum y value.
    pub top: i32,
    /// The right-most edge, or maximum x value.
    pub right: i32,
    /// The bottom-most edge, or maximum y value.
    pub bottom: i32,
}

impl Rect2D {
    /// Whether the rectangle of `size` anchored at `origin` has edges that
    /// fit the coordinate type.
    pub open spec fn fits(size: Size2D, origin: Point2D) -> bool {
        &&& i32::MIN <= origin.x + size.width <= i32::MAX
        &&& i32::MIN <= origin.y + size.height <= i32::MAX
    }

    /// Whether the extents of the rectangle fit the coordinate type.
    pub open spec fn measurable(self) -> bool {
        &&& i32::MIN <= self.right - self.left <= i32::MAX
        &&& i32::MIN <= self.bottom - self.top <= i32::MAX
    }

    /// The rectangle with zero area at the origin.
    pub fn zero() -> (rect: Rect2D)
        ensures
            rect == (Rect2D { left: 0, top: 0, right: 0, bottom: 0 }),
    {
        Rect2D { left: 0, top: 0, right: 0, bottom: 0 }
    }

    /// Constructs a rectangle with a given size, anchored with its top-left
    /// corner at `origin`.
    pub fn from_size_and_origin(size: Size2D, origin: Point2D) -> (rect: Rect2D)
        requires
            Self::fits(size, origin),
        ensures
            rect.left == origin.x,
            rect.top == origin.y,
            rect.right == origin.x + size.width,
            rect.bottom == origin.y + size.height,
    {
        Rect2D {
            left: origin.x,
            top: origin.y,
            right: origin.x + size.width,
            bottom: origin.y + size.height,
        }
    }

    /// Constructs the rectangle of `size` anchored at `origin`, or nothing
    /// if its edges would not fit the coordinate type.
    pub fn checked_from_size_and_origin(size: Size2D, origin: Point2D) -> (rect: Option<Rect2D>)
        ensures
            match rect {
                Some(r) => Self::fits(size, origin) && r == (Rect2D {
                    left: origin.x,
                    top: origin.y,
                    right: (origin.x + size.width) as i32,
                    bottom: (origin.y + size.height) as i32,
                }),
                None => !Self::fits(size, origin),
            },
    {
        match (origin.x.checked_add(size.width), origin.y.checked_add(size.height)) {
            (Some(right), Some(bottom)) => Some(
                Rect2D { left: origin.x, top: origin.y, right, bottom },
            ),
            _ => None,
        }
    }

    /// The extents of the rectangle, or nothing if they do not fit the
    /// coordinate type.
    pub fn size(&self) -> (size: Option<Size2D>)
        ensures
            match size {
                Some(s) => self.measurable() && s.width == self.right - self.left && s.height
                    == self.bottom - self.top,
                None => !self.measurable(),
            },
    {
        match (self.right.checked_sub(self.left), self.bottom.checked_sub(self.top)) {
            (Some(width), Some(height)) => Some(Size2D { width, height }),
            _ => None,
        }
    }

    /// Returns the width of the rectangle.
    pub fn width(&self) -> (width: i32)
        requires
            self.measurable(),
        ensures
            width == self.right - self.left,
    {
        self.right - self.left
    }

    /// Returns the height of the rectangle.
    pub fn height(&self) -> (height: i32)
        requires
            self.measurable(),
        ensures
            height == self.bottom - self.top,
    {
        self.bottom - self.top
    }
}

impl Default for Rect2D {
    fn default() -> (rect: Rect2D)
        ensures
            rect == (Rect2D { left: 0, top: 0, right: 0, bottom: 0 }),
    {
        Rect2D { left: 0, top: 0, right: 0, bottom: 0 }
    }
}

/// 2D rounded rectangle: the dimensions and corner radii of a rectangle
/// whose corners are replaced by quarter ellipses.
///
/// Even when both radii are zero, a rounded rectangle is different from a
/// rectangle: when stroked, its corners are roundly joined, not mitered.
#[derive(Clone, Copy, Debug, PartialEq, Eq, Structural)]
pub struct RoundedRect2D {
    /// The coordinates of the base rectangle.
    pub rect: Rect2D,
    /// The x-radius for the quarter ellipse that is drawn to replace every
    /// corner of the rectangle.
    pub radius_x: i32,
    /// The y-radius for the quarter ellipse that is drawn to replace every
    /// corner of the rectangle.
    pub radius_y: i32,
}

impl RoundedRect2D {
    /// The rounded rectangle with zero area and zero radii.
    pub fn zero() -> (rounded: RoundedRect2D)
        ensures
            rounded == (RoundedRect2D {
                rect: Rect2D { left: 0, top: 0, right: 0, bottom: 0 },
                radius_x: 0,
                radius_y: 0,
            }),
    {
        RoundedRect2D { rect: Rect2D::zero(), radius_x: 0, radius_y: 0 }
    }

    /// Constructs a rounded rectangle with a given size, anchored with its
    /// top-left corner at `origin`, all corners rounded by `corner_radius`.
    pub fn from_size_and_origin(size: Size2D, origin: Point2D, corner_radius: i32) -> (rounded:
        RoundedRect2D)
        requires
            Rect2D::fits(size, origin),
        ensures
            rounded.rect.left == origin.x,
            rounded.rect.top == origin.y,
            rounded.rect.right == origin.x + size.width,
            rounded.rect.bottom == origin.y + size.height,
            rounded.radius_x == corner_radius,
            rounded.radius_y == corner_radius,
    {
        RoundedRect2D {
            rect: Rect2D::from_size_and_origin(size, origin),
            radius_x: corner_radius,
            radius_y: corner_radius,
        }
    }

    /// Returns the width of the base rectangle.
    pub fn width(&self) -> (width: i32)
        requires
            self.rect.measurable(),
        ensures
            width == self.rect.right - self.rect.left,
    {
        self.rect.width()
    }

    /// Returns the height of the base rectangle.
    pub fn height(&self) -> (height: i32)
        requires
            self.rect.measurable(),
        ensures
            height == self.rect.bottom - self.rect.top,
    {
        self.rect.height()
    }
}

impl Default for RoundedRect2D {
    fn default() -> (rounded: RoundedRect2D)
        ensures
            rounded == (RoundedRect2D {
                rect: Rect2D { left: 0, top: 0, right: 0, bottom: 0 },
                radius_x: 0,
                radius_y: 0,
            }),
    {
        RoundedRect2D { rect: Rect2D::zero(), radius_x: 0, radius_y: 0 }
    }
}

/// 2D ellipse: the center point, x-radius, and y-radius.
#[derive(Clone, Copy, Debug, PartialEq, Eq, Structural)]
pub struct Ellipse2D {
    /// The center point of the ellipse.
    pub center: Point2D,
    /// The X-radius of the ellipse.
    pub radius_x: i32,
    /// The Y-radius of the ellipse.
    pub radius_y: i32,
}

impl Ellipse2D {
    /// The ellipse with zero area at the origin.
    pub fn zero() -> (ellipse: Ellipse2D)
        ensures
            ellipse == (Ellipse2D { center: Point2D { x: 0, y: 0 }, radius_x: 0, radius_y: 0 }),
    {
        Ellipse2D { center: Point2D::zero(), radius_x: 0, radius_y: 0 }
    }

    /// Constructs a circle centered at a given point.
    pub fn new_circle(center: Point2D, radius: i32) -> (ellipse: Ellipse2D)
        ensures
            ellipse == (Ellipse2D { center, radius_x: radius, radius_y: radius }),
    {
        Ellipse2D { center, radius_x: radius, radius_y: radius }
    }
}

impl Default for Ellipse2D {
    fn default() -> (ellipse: Ellipse2D)
        ensures
            ellipse == (Ellipse2D { center: Point2D { x: 0, y: 0 }, radius_x: 0, radius_y: 0 }),
    {
        Ellipse2D { center: Point2D::zero(), radius_x: 0, radius_y: 0 }
    }
}

} // verus!
