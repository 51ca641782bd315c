//! The geometry of one display: its full bounds and its work area.
use vstd::prelude::*;

use crate::error::WindowError;
use crate::geometry::{Position, RawRect, Rect, RectModel, Size};

verus! {

/// The two rectangles that the operating system reports for a monitor.
#[derive(Debug, Clone, Copy, PartialEq, Eq, Structural)]
pub struct MonitorAreas {
    /// The full bounds of the display.
    pub monitor: RawRect,
    /// The usable region, without taskbars and docks.
    pub work: RawRect,
}

pub struct MonitorModel {
    pub bounds: RectModel,
    pub work: RectModel,
    pub handle: int,
}

/// `inner` lies within `outer`.
pub open spec fn within(inner: RectModel, outer: RectModel) -> bool {
    outer.left <= inner.left && inner.right <= outer.right && outer.top <= inner.top
        && inner.bottom <= outer.bottom
}

/// Both areas are non-inverted and the work area lies within the full bounds.
pub open spec fn areas_usable(a: MonitorAreas) -> bool {
    &&& a.monitor.left <= a.monitor.right
    &&& a.monitor.top <= a.monitor.bottom
    &&& a.work.left <= a.work.right
    &&& a.work.top <= a.work.bottom
    &&& within(a.work.model(), a.monitor.model())
}

/// A display screen detected in the system, with the work area inside its bounds.
/// Both areas are half-open like every [`Rect`]: the right and bottom edges lie just
/// outside, so a work area may share any of its edges with the bounds.
#[derive(Debug, Clone, Copy)]
pub struct MonitorInfo {
    bounds: Rect,
    work: Rect,
    handle: isize,
}

impl View for MonitorInfo {
    type V = MonitorModel;

    closed spec fn view(&self) -> MonitorModel {
        MonitorModel { bounds: self.bounds@, work: self.work@, handle: self.handle as int }
    }
}

impl MonitorInfo {
    #[verifier::type_invariant]
    pub open spec fn well_formed(self) -> bool {
        within(self@.work, self@.bounds)
    }

    /// Builds the record of the monitor `handle` from the areas that the geometry query
    /// returned (`None` where the query failed). A null handle, a failed query, an
    /// inverted rectangle or a work area outside the bounds is a lookup failure.
    pub fn build(handle: isize, areas: Option<MonitorAreas>) -> (r: Result<MonitorInfo, WindowError>)
        ensures
            match r {
                Ok(m) => handle != 0 && areas is Some && areas_usable(areas->0) && m@ == (
                MonitorModel {
                    bounds: areas->0.monitor.model(),
                    work: areas->0.work.model(),
                    handle: handle as int,
                }),
                Err(e) => e == WindowError::LookupFailure && (handle == 0 || areas is None
                    || !areas_usable(areas->0)),
            },
    {
        if handle == 0 {
            return Err(WindowError::LookupFailure);
        }
        let areas = match areas {
            Some(a) => a,
            None => return Err(WindowError::LookupFailure),
        };
        let bounds = match Rect::from_raw(areas.monitor) {
            Some(b) => b,
            None => return Err(WindowError::LookupFailure),
        };
        let work = match Rect::from_raw(areas.work) {
            Some(w) => w,
            None => return Err(WindowError::LookupFailure),
        };
        if areas.work.left < areas.monitor.left || areas.work.right > areas.monitor.right
            || areas.work.top < areas.monitor.top || areas.work.bottom > areas.monitor.bottom {
            return Err(WindowError::LookupFailure);
        }
        Ok(MonitorInfo { bounds, work, handle })
    }

    /// The full bounds of the display.
    pub fn rect(&self) -> (r: Rect)
        ensures
            r@ == self@.bounds,
    {
        self.bounds
    }

    /// The operating system's handle of the display.
    pub fn handle(&self) -> (r: isize)
        ensures
            r == self@.handle,
    {
        self.handle
    }

    /// The work area of the display.
    pub fn work_rect(&self) -> (r: Rect)
        ensures
            r@ == self@.work,
    {
        self.work
    }
}

} // verus!
