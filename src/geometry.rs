//! Axis-aligned rectangles in pixel units, and the transform that moves a
//! rectangle into the coordinate frame of another.
use vstd::prelude::*;

verus! {

/// The mathematical picture of a rectangle: its four edges as unbounded integers.
pub struct RectModel {
    pub left: int,
    pub top: int,
    pub right: int,
    pub bottom: int,
}

/// The rectangle with top-left corner `(x, y)`, `w` wide and `h` high.
pub open spec fn rect_from(x: int, y: int, w: int, h: int) -> RectModel {
    RectModel { left: x, top: y, right: x + w, bottom: y + h }
}

/// `rect` expressed in the frame whose origin is `base`'s top-left corner; width and
/// height are kept.
pub open spec fn adjusted(rect: RectModel, base: RectModel) -> RectModel {
    let left = rect.left - base.left;
    let top = rect.top - base.top;
    RectModel {
        left,
        top,
        right: left + (rect.right - rect.left),
        bottom: top + (rect.bottom - rect.top),
    }
}

/// Half-open containment: the left and top edges belong to the rectangle, the right
/// and bottom edges do not.
pub open spec fn contains_point(r: RectModel, x: int, y: int) -> bool {
    r.left <= x < r.right && r.top <= y < r.bottom
}

pub open spec fn fits_i32(v: int) -> bool {
    i32::MIN <= v <= i32::MAX
}

/// Every edge of `r` is representable as an `i32`.
pub open spec fn model_fits(r: RectModel) -> bool {
    fits_i32(r.left) && fits_i32(r.top) && fits_i32(r.right) && fits_i32(r.bottom)
}

/// `rect` can be moved into `base`'s frame without leaving the `i32` range.
pub open spec fn can_adjust(rect: RectModel, base: RectModel) -> bool {
    model_fits(adjusted(rect, base))
}

/// A point in pixels, such as the top-left corner of a window or a monitor.
#[derive(Debug, Clone, Copy, PartialEq, Eq, Structural)]
pub struct Position {
    pub x: i32,
    pub y: i32,
}

/// A width and a height in pixels.
#[derive(Debug, Clone, Copy, PartialEq, Eq, Structural)]
pub struct Size {
    pub width: u32,
    pub height: u32,
}

/// A rectangle as the operating system reports it, edge by edge. Unlike [`Rect`] it
/// may be inverted; the functions that take one check it.
#[derive(Debug, Clone, Copy, PartialEq, Eq, Structural)]
pub struct RawRect {
    pub left: i32,
    pub top: i32,
    pub right: i32,
    pub bottom: i32,
}

impl RawRect {
    pub open spec fn model(self) -> RectModel {
        RectModel {
            left: self.left as int,
            top: self.top as int,
            right: self.right as int,
            bottom: self.bottom as int,
        }
    }
}

/// Moving a rectangle into the frame of `base` and back out of it again gives the
/// rectangle back exactly. Moving back out is adding `base`'s top-left corner, or,
/// the same thing, moving into a frame `back` whose top-left corner is `base`'s negated.
pub proof fn lemma_adjust_round_trip(rect: RectModel, base: RectModel, back: RectModel)
    requires
        back.left == -base.left,
        back.top == -base.top,
    ensures
        ({
            let a = adjusted(rect, base);
            &&& a.left + base.left == rect.left
            &&& a.top + base.top == rect.top
            &&& a.right + base.left == rect.right
            &&& a.bottom + base.top == rect.bottom
        }),
        adjusted(adjusted(rect, base), back) == rect,
{
}

/// The bounding rectangle of a quad, in pixels. It is never inverted: its right edge
/// is never left of its left edge, nor its bottom edge above its top edge.
#[derive(Debug, Clone, Copy, PartialEq, Eq, Structural)]
pub struct Rect {
    left: i32,
    top: i32,
    right: i32,
    bottom: i32,
}

impl View for Rect {
    type V = RectModel;

    closed spec fn view(&self) -> RectModel {
        RectModel {
            left: self.left as int,
            top: self.top as int,
            right: self.right as int,
            bottom: self.bottom as int,
        }
    }
}

impl Rect {
    #[verifier::type_invariant]
    pub open spec fn well_formed(self) -> bool {
        &&& self@.left <= self@.right
        &&& self@.top <= self@.bottom
        &&& model_fits(self@)
    }

    /// Builds a rectangle from its top-left corner and its size.
    pub fn new(x: i32, y: i32, w: u32, h: u32) -> (r: Rect)
        requires
            x + w <= i32::MAX,
            y + h <= i32::MAX,
        ensures
            r@ == rect_from(x as int, y as int, w as int, h as int),
    {
        let right = (x as i64 + w as i64) as i32;
        let bottom = (y as i64 + h as i64) as i32;
        Rect { left: x, top: y, right, bottom }
    }

    /// The rectangle that `raw` describes, or `None` where it is inverted.
    pub fn from_raw(raw: RawRect) -> (r: Option<Rect>)
        ensures
            match r {
                Some(rect) => raw.left <= raw.right && raw.top <= raw.bottom && rect@ == raw.model(),
                None => raw.left > raw.right || raw.top > raw.bottom,
            },
    {
        if raw.left <= raw.right && raw.top <= raw.bottom {
            Some(Rect { left: raw.left, top: raw.top, right: raw.right, bottom: raw.bottom })
        } else {
            None
        }
    }

    /// Moves `rect` into the frame whose origin is `base`'s top-left corner, keeping its
    /// width and height.
    pub fn adjust(rect: Rect, base: Rect) -> (r: Rect)
        requires
            can_adjust(rect@, base@),
        ensures
            r@ == adjusted(rect@, base@),
    {
        proof {
            use_type_invariant(&rect);
        }
        let left = (rect.left as i64 - base.left as i64) as i32;
        let top = (rect.top as i64 - base.top as i64) as i32;
        let right = (left as i64 + (rect.right as i64 - rect.left as i64)) as i32;
        let bottom = (top as i64 + (rect.bottom as i64 - rect.top as i64)) as i32;
        Rect { left, top, right, bottom }
    }

    /// Whether the point `(x, y)` lies inside; the right and bottom edges are outside.
    pub fn contains(&self, x: i32, y: i32) -> (r: bool)
        ensures
            r == contains_point(self@, x as int, y as int),
    {
        x >= self.left && x < self.right && y >= self.top && y < self.bottom
    }

    /// The four edges as `(left, top, right, bottom)`.
    pub fn raw(&self) -> (r: (i32, i32, i32, i32))
        ensures
            r.0 == self@.left,
            r.1 == self@.top,
            r.2 == self@.right,
            r.3 == self@.bottom,
    {
        (self.left, self.top, self.right, self.bottom)
    }
}

} // verus!
