//! The virtual desktop: the bounding box of all monitors, which the overlay covers.
use vstd::prelude::*;

use crate::geometry::{Position, Rect, Size};

verus! {

/// The smallest axis-aligned rectangle covering every monitor.
#[derive(Debug, Clone, Copy, PartialEq, Eq, Structural)]
pub struct VirtualDesktopArea {
    pub position: Position,
    pub size: Size,
}

/// `v` is the least element of `s`.
pub open spec fn is_least(v: int, s: Seq<int>) -> bool {
    &&& forall|i: int| 0 <= i < s.len() ==> v <= s[i]
    &&& exists|i: int| 0 <= i < s.len() && s[i] == v
}

/// `v` is the greatest element of `s`.
pub open spec fn is_greatest(v: int, s: Seq<int>) -> bool {
    &&& forall|i: int| 0 <= i < s.len() ==> s[i] <= v
    &&& exists|i: int| 0 <= i < s.len() && s[i] == v
}

pub open spec fn lefts(rs: Seq<Rect>) -> Seq<int> {
    rs.map_values(|r: Rect| r@.left)
}

pub open spec fn tops(rs: Seq<Rect>) -> Seq<int> {
    rs.map_values(|r: Rect| r@.top)
}

pub open spec fn rights(rs: Seq<Rect>) -> Seq<int> {
    rs.map_values(|r: Rect| r@.right)
}

pub open spec fn bottoms(rs: Seq<Rect>) -> Seq<int> {
    rs.map_values(|r: Rect| r@.bottom)
}

/// `area` spans exactly from the least left and top edges of `monitors` to their greatest
/// right and bottom edges.
pub open spec fn bounds_all(area: VirtualDesktopArea, monitors: Seq<Rect>) -> bool {
    &&& is_least(area.position.x as int, lefts(monitors))
    &&& is_least(area.position.y as int, tops(monitors))
    &&& is_greatest(area.position.x + area.size.width, rights(monitors))
    &&& is_greatest(area.position.y + area.size.height, bottoms(monitors))
}

/// The area that the overlay must cover to span every monitor. With no monitor it is
/// empty, at the origin.
pub fn calculate_display_area(monitors: &[Rect]) -> (r: VirtualDesktopArea)
    ensures
        monitors@.len() == 0 ==> r == (VirtualDesktopArea {
            position: Position { x: 0, y: 0 },
            size: Size { width: 0, height: 0 },
        }),
        monitors@.len() > 0 ==> bounds_all(r, monitors@),
{
    if monitors.len() == 0 {
        return VirtualDesktopArea {
            position: Position { x: 0, y: 0 },
            size: Size { width: 0, height: 0 },
        };
    }
    let first = monitors[0];
    proof {
        use_type_invariant(&first);
    }
    let (mut min_x, mut min_y, mut max_x, mut max_y) = first.raw();
    let ghost mut at_min_x: int = 0;
    let ghost mut at_min_y: int = 0;
    let ghost mut at_max_x: int = 0;
    let ghost mut at_max_y: int = 0;
    let mut i: usize = 1;
    while i < monitors.len()
        invariant
            1 <= i <= monitors@.len(),
            forall|j: int| 0 <= j < i ==> {
                &&& min_x <= (#[trigger] monitors@[j])@.left <= monitors@[j]@.right <= max_x
                &&& min_y <= monitors@[j]@.top <= monitors@[j]@.bottom <= max_y
            },
            0 <= at_min_x < i && monitors@[at_min_x]@.left == min_x,
            0 <= at_min_y < i && monitors@[at_min_y]@.top == min_y,
            0 <= at_max_x < i && monitors@[at_max_x]@.right == max_x,
            0 <= at_max_y < i && monitors@[at_max_y]@.bottom == max_y,
        decreases monitors@.len() - i,
    {
        let monitor = monitors[i];
        proof {
            use_type_invariant(&monitor);
        }
        let (left, top, right, bottom) = monitor.raw();
        if left < min_x {
            min_x = left;
            proof {
                at_min_x = i as int;
            }
        }
        if top < min_y {
            min_y = top;
            proof {
                at_min_y = i as int;
            }
        }
        if right > max_x {
            max_x = right;
            proof {
                at_max_x = i as int;
            }
        }
        if bottom > max_y {
            max_y = bottom;
            proof {
                at_max_y = i as int;
            }
        }
        i = i + 1;
    }
    let r = VirtualDesktopArea {
        position: Position { x: min_x, y: min_y },
        size: Size {
            width: (max_x as i64 - min_x as i64) as u32,
            height: (max_y as i64 - min_y as i64) as u32,
        },
    };
    assert(lefts(monitors@)[at_min_x] == min_x);
    assert(tops(monitors@)[at_min_y] == min_y);
    assert(rights(monitors@)[at_max_x] == max_x);
    assert(bottoms(monitors@)[at_max_y] == max_y);
    r
}

} // verus!
