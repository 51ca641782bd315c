//! Window records: the filter chain that decides which windows are kept, and the
//! centering of a window on its monitor.
use vstd::prelude::*;

use crate::error::WindowError;
use crate::geometry::{
    Position, RawRect, Rect, RectModel, Size, model_fits, rect_from,
};
use crate::monitor::{MonitorInfo, MonitorModel};
use crate::preferences::Preferences;

verus! {

/// Extended style: a tool window (utility and tray surfaces).
pub const WS_EX_TOOLWINDOW: u32 = 0x0000_0080;

/// Extended style: forces a top-level window onto the taskbar.
pub const WS_EX_APPWINDOW: u32 = 0x0004_0000;

/// Style: a child window.
pub const WS_CHILD: u32 = 0x4000_0000;

/// Style: a popup window.
pub const WS_POPUP: u32 = 0x8000_0000;

/// Reposition flag: keep the current size.
pub const SWP_NOSIZE: u32 = 0x0001;

/// Reposition flag: keep the current z-order.
pub const SWP_NOZORDER: u32 = 0x0004;

/// Reposition flag: do not activate the window.
pub const SWP_NOACTIVATE: u32 = 0x0010;

/// The flags of every reposition command: no resize, no reorder, no focus change.
pub const REPOSITION_FLAGS: u32 = SWP_NOSIZE | SWP_NOZORDER | SWP_NOACTIVATE;

/// What the operating system reports about one top-level window, gathered by the
/// caller during enumeration.
#[derive(Debug)]
pub struct WindowProbe {
    pub handle: isize,
    /// The handle refers to a live window.
    pub is_window: bool,
    pub title: String,
    pub ex_style: u32,
    pub style: u32,
    pub visible: bool,
    pub minimized: bool,
    pub maximized: bool,
    /// The visual bounds without the drop shadow, where the query succeeded.
    pub frame_bounds: Option<RawRect>,
    /// The raw window rectangle, where the query succeeded.
    pub window_rect: Option<RawRect>,
    /// The monitor nearest to the window, or why it could not be resolved.
    pub monitor: Result<MonitorInfo, WindowError>,
}

pub struct WindowModel {
    pub title: Seq<char>,
    pub bounds: RectModel,
    pub monitor: MonitorModel,
    pub handle: int,
}

pub open spec fn has_style(style: u32, flag: u32) -> bool {
    style & flag != 0
}

/// A tool window that is not also marked as an application window.
pub open spec fn is_tool_window(ex_style: u32) -> bool {
    has_style(ex_style, WS_EX_TOOLWINDOW) && !has_style(ex_style, WS_EX_APPWINDOW)
}

/// The filters that need no geometry: style, visibility, state and title.
pub open spec fn excluded_by_filters(p: WindowProbe, prefs: Preferences) -> bool {
    ||| is_tool_window(p.ex_style)
    ||| has_style(p.style, WS_CHILD) && !prefs.allow_child_ws
    ||| has_style(p.style, WS_POPUP) && !prefs.allow_popup_ws
    ||| !p.visible
    ||| p.minimized
    ||| p.maximized
    ||| p.title@.len() == 0
}

/// The bounds used for a window: the visual bounds where known, else the raw rectangle.
pub open spec fn probe_bounds(p: WindowProbe) -> Option<RawRect> {
    if p.frame_bounds is Some {
        p.frame_bounds
    } else {
        p.window_rect
    }
}

/// A window's bounds must have a positive width and height.
pub open spec fn bounds_usable(g: RawRect) -> bool {
    g.left < g.right && g.top < g.bottom
}

/// The top-left corner that centers a window of `window`'s size within `frame`.
pub open spec fn centered_origin(frame: RectModel, window: RectModel) -> (int, int) {
    (
        frame.left + (frame.right - frame.left) / 2 - (window.right - window.left) / 2,
        frame.top + (frame.bottom - frame.top) / 2 - (window.bottom - window.top) / 2,
    )
}

/// The window stands at the centered position within the full bounds of its monitor.
pub open spec fn is_centered_model(w: WindowModel) -> bool {
    (w.bounds.left, w.bounds.top) == centered_origin(w.monitor.bounds, w.bounds)
}

/// What the filter chain makes of a probe, in the order in which the filters apply.
pub open spec fn probe_outcome(p: WindowProbe, prefs: Preferences) -> Result<WindowModel, WindowError> {
    if p.handle == 0 || !p.is_window {
        Err(WindowError::InvalidHandle)
    } else if excluded_by_filters(p, prefs) {
        Err(WindowError::FilteredOut)
    } else if probe_bounds(p) is None || !bounds_usable(probe_bounds(p)->0) || p.monitor is Err {
        Err(WindowError::LookupFailure)
    } else {
        let w = WindowModel {
            title: p.title@,
            bounds: probe_bounds(p)->0.model(),
            monitor: (p.monitor->Ok_0)@,
            handle: p.handle as int,
        };
        if is_centered_model(w) {
            Err(WindowError::FilteredOut)
        } else {
            Ok(w)
        }
    }
}

/// The records that enumeration yields for `probes`, in their order: each probe that
/// passes the filter chain gives one, the others none.
pub open spec fn accepted_windows(probes: Seq<WindowProbe>, prefs: Preferences) -> Seq<WindowModel>
    decreases probes.len(),
{
    if probes.len() == 0 {
        Seq::empty()
    } else {
        let kept = accepted_windows(probes.drop_last(), prefs);
        match probe_outcome(probes.last(), prefs) {
            Ok(w) => kept.push(w),
            Err(_) => kept,
        }
    }
}

/// The frame that centering refers to.
pub open spec fn center_frame(w: WindowModel, use_work_area: bool) -> RectModel {
    if use_work_area {
        w.monitor.work
    } else {
        w.monitor.bounds
    }
}

/// The window moved so that its top-left corner is `(x, y)`, its size kept.
pub open spec fn moved_to(w: WindowModel, x: int, y: int) -> WindowModel {
    WindowModel {
        title: w.title,
        bounds: rect_from(x, y, w.bounds.right - w.bounds.left, w.bounds.bottom - w.bounds.top),
        monitor: w.monitor,
        handle: w.handle,
    }
}

/// The command `c` moves `w` and keeps its size, and `w` still fits the `i32` range there.
pub open spec fn command_applies(w: WindowModel, c: RepositionCommand) -> bool {
    &&& c.handle as int == w.handle
    &&& c.width as int == w.bounds.right - w.bounds.left
    &&& c.height as int == w.bounds.bottom - w.bounds.top
    &&& model_fits(moved_to(w, c.x as int, c.y as int).bounds)
}

/// The command that centers `w` in its frame, or `None` where the centered window would
/// leave the `i32` coordinate range.
pub open spec fn center_command(w: WindowModel, use_work_area: bool) -> Option<RepositionCommand> {
    let (x, y) = centered_origin(center_frame(w, use_work_area), w.bounds);
    if model_fits(moved_to(w, x, y).bounds) {
        Some(
            RepositionCommand {
                handle: w.handle as isize,
                x: x as i32,
                y: y as i32,
                width: (w.bounds.right - w.bounds.left) as u32,
                height: (w.bounds.bottom - w.bounds.top) as u32,
                flags: REPOSITION_FLAGS,
            },
        )
    } else {
        None
    }
}

/// Centering on the full monitor bounds, once the operating system has carried out
/// the command, leaves the window centered: the command applies to the window, and
/// the window moved to its position passes the centered check.
pub proof fn lemma_center_then_is_centered(w: WindowModel)
    requires
        w.bounds.left < w.bounds.right,
        w.bounds.top < w.bounds.bottom,
        isize::MIN <= w.handle <= isize::MAX,
        center_command(w, false) is Some,
    ensures
        ({
            let c = center_command(w, false)->0;
            &&& command_applies(w, c)
            &&& is_centered_model(moved_to(w, c.x as int, c.y as int))
        }),
{
}

/// A tool window that is not marked as an application window never passes the filter
/// chain, whatever its other attributes and the preferences are.
pub proof fn lemma_tool_window_excluded(p: WindowProbe, prefs: Preferences)
    requires
        is_tool_window(p.ex_style),
    ensures
        probe_outcome(p, prefs) is Err,
{
}

/// A request to the operating system to move a window, issued by the caller.
#[derive(Debug, Clone, Copy, PartialEq, Eq, Structural)]
pub struct RepositionCommand {
    pub handle: isize,
    pub x: i32,
    pub y: i32,
    pub width: u32,
    pub height: u32,
    pub flags: u32,
}

/// An active, visible application window: a non-empty title, bounds of positive width
/// and height, and the monitor it stands on.
#[derive(Debug)]
pub struct WindowInfo {
    title: String,
    bounds: Rect,
    monitor: MonitorInfo,
    handle: isize,
}

impl View for WindowInfo {
    type V = WindowModel;

    closed spec fn view(&self) -> WindowModel {
        WindowModel {
            title: self.title@,
            bounds: self.bounds@,
            monitor: self.monitor@,
            handle: self.handle as int,
        }
    }
}

/// The centered top-left corner of `window` within `frame`.
fn centered_target(frame: Rect, window: Rect) -> (r: (i64, i64))
    ensures
        (r.0 as int, r.1 as int) == centered_origin(frame@, window@),
{
    proof {
        use_type_invariant(&frame);
        use_type_invariant(&window);
    }
    let (fl, ft, fr, fb) = frame.raw();
    let (wl, wt, wr, wb) = window.raw();
    let x = fl as i64 + (fr as i64 - fl as i64) / 2 - (wr as i64 - wl as i64) / 2;
    let y = ft as i64 + (fb as i64 - ft as i64) / 2 - (wb as i64 - wt as i64) / 2;
    (x, y)
}

impl WindowInfo {
    #[verifier::type_invariant]
    pub open spec fn well_formed(self) -> bool {
        &&& self@.title.len() > 0
        &&& self@.bounds.left < self@.bounds.right
        &&& self@.bounds.top < self@.bounds.bottom
    }

    /// Runs the filter chain on one probe: a null or dead handle is `InvalidHandle`; a
    /// tool window, a child or popup window that the preferences do not allow, a hidden,
    /// minimized or maximized window or an untitled one is `FilteredOut`; missing or
    /// empty bounds, or an unresolved monitor, is `LookupFailure`; a window that already
    /// stands centered is `FilteredOut`. Otherwise the record of the window.
    pub fn build(probe: &WindowProbe, prefs: &Preferences) -> (r: Result<WindowInfo, WindowError>)
        ensures
            match r {
                Ok(w) => probe_outcome(*probe, *prefs) == Ok::<WindowModel, WindowError>(w@),
                Err(e) => probe_outcome(*probe, *prefs) == Err::<WindowModel, WindowError>(e),
            },
    {
        if probe.handle == 0 || !probe.is_window {
            return Err(WindowError::InvalidHandle);
        }
        if probe.ex_style & WS_EX_TOOLWINDOW != 0 && probe.ex_style & WS_EX_APPWINDOW == 0 {
            return Err(WindowError::FilteredOut);
        }
        if probe.style & WS_CHILD != 0 && !prefs.allow_child_ws {
            return Err(WindowError::FilteredOut);
        }
        if probe.style & WS_POPUP != 0 && !prefs.allow_popup_ws {
            return Err(WindowError::FilteredOut);
        }
        if !probe.visible || probe.minimized || probe.maximized {
            return Err(WindowError::FilteredOut);
        }
        if probe.title.as_str().is_empty() {
            return Err(WindowError::FilteredOut);
        }
        let raw = match probe.frame_bounds {
            Some(b) => b,
            None => match probe.window_rect {
                Some(b) => b,
                None => return Err(WindowError::LookupFailure),
            },
        };
        if raw.left >= raw.right || raw.top >= raw.bottom {
            return Err(WindowError::LookupFailure);
        }
        let monitor = match &probe.monitor {
            Ok(m) => *m,
            Err(_) => return Err(WindowError::LookupFailure),
        };
        let bounds = match Rect::from_raw(raw) {
            Some(b) => b,
            None => return Err(WindowError::LookupFailure),
        };
        let window = WindowInfo { title: probe.title.clone(), bounds, monitor, handle: probe.handle };
        if window.is_centered() {
            return Err(WindowError::FilteredOut);
        }
        Ok(window)
    }

    /// Whether the window stands centered within the full bounds of its monitor.
    pub fn is_centered(&self) -> (r: bool)
        ensures
            r == is_centered_model(self@),
    {
        let (x, y) = centered_target(self.monitor.rect(), self.bounds);
        let (left, top, _, _) = self.bounds.raw();
        left as i64 == x && top as i64 == y
    }

    /// The command that moves the window to the center of its monitor's work area
    /// (`use_work_area`) or full bounds, keeping its size, z-order and activation.
    /// Fails where the centered window would leave the `i32` coordinate range.
    pub fn center(&self, use_work_area: bool) -> (r: Result<RepositionCommand, WindowError>)
        ensures
            match center_command(self@, use_work_area) {
                Some(c) => r == Ok::<RepositionCommand, WindowError>(c),
                None => r == Err::<RepositionCommand, WindowError>(WindowError::RepositionFailure),
            },
    {
        proof {
            use_type_invariant(self);
        }
        let frame = if use_work_area {
            self.monitor.work_rect()
        } else {
            self.monitor.rect()
        };
        proof {
            use_type_invariant(&frame);
            use_type_invariant(&self.bounds);
        }
        let (x, y) = centered_target(frame, self.bounds);
        let (left, top, right, bottom) = self.bounds.raw();
        let width = right as i64 - left as i64;
        let height = bottom as i64 - top as i64;
        if x < i32::MIN as i64 || y < i32::MIN as i64 || x + width > i32::MAX as i64 || y + height
            > i32::MAX as i64 {
            return Err(WindowError::RepositionFailure);
        }
        Ok(
            RepositionCommand {
                handle: self.handle,
                x: x as i32,
                y: y as i32,
                width: width as u32,
                height: height as u32,
                flags: REPOSITION_FLAGS,
            },
        )
    }

    /// Records the outcome of a reposition command: where the operating system
    /// `accepted` it the window now stands at the command's position, else it stays
    /// where it was and the failure is returned.
    pub fn complete_center(&mut self, command: RepositionCommand, accepted: bool) -> (r: Result<(), WindowError>)
        requires
            command_applies(old(self)@, command),
        ensures
            accepted ==> r is Ok && final(self)@ == moved_to(old(self)@, command.x as int, command.y as int),
            !accepted ==> r == Err::<(), WindowError>(WindowError::RepositionFailure)
                && final(self)@ == old(self)@,
    {
        if !accepted {
            return Err(WindowError::RepositionFailure);
        }
        proof {
            use_type_invariant(&*self);
        }
        self.bounds = Rect::new(command.x, command.y, command.width, command.height);
        Ok(())
    }

    /// The bounds of the window.
    pub fn rect(&self) -> (r: Rect)
        ensures
            r@ == self@.bounds,
    {
        self.bounds
    }

    /// The top-left corner of the window.
    pub fn position(&self) -> (r: Position)
        ensures
            r.x == self@.bounds.left,
            r.y == self@.bounds.top,
    {
        let (left, top, _, _) = self.bounds.raw();
        Position { x: left, y: top }
    }

    /// The width and height of the window.
    pub fn size(&self) -> (r: Size)
        ensures
            r.width == self@.bounds.right - self@.bounds.left,
            r.height == self@.bounds.bottom - self@.bounds.top,
    {
        proof {
            use_type_invariant(self);
            use_type_invariant(&self.bounds);
        }
        let (left, top, right, bottom) = self.bounds.raw();
        Size { width: (right as i64 - left as i64) as u32, height: (bottom as i64 - top as i64) as u32 }
    }

    /// The title of the window.
    pub fn title(&self) -> (r: &str)
        ensures
            r@ == self@.title,
    {
        self.title.as_str()
    }

    /// The operating system's handle of the window.
    pub fn handle(&self) -> (r: isize)
        ensures
            r == self@.handle,
    {
        self.handle
    }

    /// The monitor the window stands on.
    pub fn monitor(&self) -> (r: MonitorInfo)
        ensures
            r@ == self@.monitor,
    {
        self.monitor
    }
}

/// The active and visible application windows among the probes of one enumeration, in
/// enumeration order. `scan` is `None` where the enumeration call itself failed, which
/// fails the whole discovery; a probe that fails the filter chain is skipped.
pub fn get_windows(scan: Option<Vec<WindowProbe>>, prefs: &Preferences) -> (r: Result<Vec<WindowInfo>, WindowError>)
    ensures
        match scan {
            None => r == Err::<Vec<WindowInfo>, WindowError>(WindowError::EnumerationFailure),
            Some(probes) => r is Ok && (r->Ok_0)@.map_values(|w: WindowInfo| w@)
                == accepted_windows(probes@, *prefs),
        },
{
    let probes = match scan {
        Some(p) => p,
        None => return Err(WindowError::EnumerationFailure),
    };
    let mut windows: Vec<WindowInfo> = Vec::new();
    let mut i: usize = 0;
    while i < probes.len()
        invariant
            i <= probes@.len(),
            windows@.map_values(|w: WindowInfo| w@) == accepted_windows(probes@.subrange(0, i as int), *prefs),
        decreases probes@.len() - i,
    {
        match WindowInfo::build(&probes[i], prefs) {
            Ok(w) => windows.push(w),
            Err(_) => {},
        }
        proof {
            assert(probes@.subrange(0, i + 1).drop_last() =~= probes@.subrange(0, i as int));
        }
        i = i + 1;
        assert(windows@.map_values(|w: WindowInfo| w@) =~= accepted_windows(probes@.subrange(0, i as int), *prefs));
    }
    assert(probes@.subrange(0, probes@.len() as int) =~= probes@);
    Ok(windows)
}

} // verus!
