//! Integer window geometry in signed physical pixels.
//!
//! The DIP-scaled measurements (sizes, ratios, the scaled sensor strip) are
//! computed from floating-point monitor scales by the shell; this module holds
//! the pixel values that result and the decisions made on them.

use vstd::prelude::*;

use super::state::DockEdge;

verus! {

/// Stable identity of a display.
#[derive(Debug, Clone, PartialEq, Eq, Hash)]
pub struct MonitorIdentity(pub String);

impl MonitorIdentity {
    pub fn new(value: &str) -> (r: MonitorIdentity)
        ensures
            r.0@ == value@,
    {
        MonitorIdentity(value.to_owned())
    }

    pub fn as_str(&self) -> (r: &str)
        ensures
            r@ == self.0@,
    {
        self.0.as_str()
    }
}

/// A rectangle in physical pixels.
#[derive(Debug, Clone, Copy, PartialEq, Eq, Structural)]
pub struct PhysicalRect {
    pub x: i32,
    pub y: i32,
    pub width: u32,
    pub height: u32,
}

impl PhysicalRect {
    pub open spec fn spec_right(self) -> int {
        self.x + self.width
    }

    pub open spec fn spec_bottom(self) -> int {
        self.y + self.height
    }

    pub fn new(x: i32, y: i32, width: u32, height: u32) -> (r: PhysicalRect)
        ensures
            r == (PhysicalRect { x, y, width, height }),
    {
        PhysicalRect { x, y, width, height }
    }

    /// Exclusive right edge; never overflows because it is widened to `i64`.
    pub fn right(self) -> (r: i64)
        ensures
            r == self.spec_right(),
    {
        self.x as i64 + self.width as i64
    }

    /// Exclusive bottom edge.
    pub fn bottom(self) -> (r: i64)
        ensures
            r == self.spec_bottom(),
    {
        self.y as i64 + self.height as i64
    }

    /// Whether `other` lies entirely inside `self`.
    pub fn contains(self, other: PhysicalRect) -> (r: bool)
        ensures
            r == (other.x >= self.x && other.y >= self.y && other.spec_right() <= self.spec_right()
                && other.spec_bottom() <= self.spec_bottom()),
    {
        other.x as i64 >= self.x as i64 && other.y as i64 >= self.y as i64 && other.right()
            <= self.right() && other.bottom() <= self.bottom()
    }
}

/// The pixel facts of one display that the window logic reads: its identity,
/// work area, whether it is the primary display, and the DIP-scaled edge
/// sensor thickness and undock threshold converted to pixels for its scale.
#[derive(Debug, Clone, PartialEq, Eq)]
pub struct MonitorMetrics {
    pub identity: MonitorIdentity,
    pub work_area: PhysicalRect,
    pub primary: bool,
    pub sensor_px: u32,
    pub undock_px: u32,
}

/// The expanded frame of the current placement for each docking choice.
#[derive(Debug, Clone, Copy, PartialEq, Eq, Structural)]
pub struct EdgeFrames {
    pub floating: PhysicalRect,
    pub left: PhysicalRect,
    pub right: PhysicalRect,
    pub top: PhysicalRect,
}

impl EdgeFrames {
    pub open spec fn spec_for_edge(self, edge: Option<DockEdge>) -> PhysicalRect {
        match edge {
            None => self.floating,
            Some(DockEdge::Left) => self.left,
            Some(DockEdge::Right) => self.right,
            Some(DockEdge::Top) => self.top,
        }
    }

    pub fn for_edge(&self, edge: Option<DockEdge>) -> (r: PhysicalRect)
        ensures
            r == self.spec_for_edge(edge),
    {
        match edge {
            None => self.floating,
            Some(DockEdge::Left) => self.left,
            Some(DockEdge::Right) => self.right,
            Some(DockEdge::Top) => self.top,
        }
    }
}

pub open spec fn clamp_i32(value: int) -> i32 {
    if value < i32::MIN {
        i32::MIN
    } else if value > i32::MAX {
        i32::MAX
    } else {
        value as i32
    }
}

/// Clamps a widened coordinate into the `i32` range.
pub fn saturating_i32(value: i64) -> (r: i32)
    ensures
        r == clamp_i32(value as int),
{
    if value < i32::MIN as i64 {
        i32::MIN
    } else if value > i32::MAX as i64 {
        i32::MAX
    } else {
        value as i32
    }
}

/// The collapsed frame: the expanded frame pushed past the docked edge of the
/// work area so that exactly `sensor_px` pixels stay on screen.
pub open spec fn spec_collapsed_frame(
    expanded: PhysicalRect,
    edge: DockEdge,
    monitor: MonitorMetrics,
) -> PhysicalRect {
    let work = monitor.work_area;
    let sensor = monitor.sensor_px as int;
    match edge {
        DockEdge::Left => PhysicalRect {
            x: clamp_i32(work.x - expanded.width + sensor),
            y: expanded.y,
            width: expanded.width,
            height: expanded.height,
        },
        DockEdge::Right => PhysicalRect {
            x: clamp_i32(work.spec_right() - sensor),
            y: expanded.y,
            width: expanded.width,
            height: expanded.height,
        },
        DockEdge::Top => PhysicalRect {
            x: expanded.x,
            y: clamp_i32(work.y - expanded.height + sensor),
            width: expanded.width,
            height: expanded.height,
        },
    }
}

pub fn collapsed_frame(expanded: PhysicalRect, edge: DockEdge, monitor: &MonitorMetrics) -> (r:
    PhysicalRect)
    ensures
        r == spec_collapsed_frame(expanded, edge, *monitor),
{
    let work = monitor.work_area;
    let sensor = monitor.sensor_px as i64;
    match edge {
        DockEdge::Left => PhysicalRect::new(
            saturating_i32(work.x as i64 - expanded.width as i64 + sensor),
            expanded.y,
            expanded.width,
            expanded.height,
        ),
        DockEdge::Right => PhysicalRect::new(
            saturating_i32(work.right() - sensor),
            expanded.y,
            expanded.width,
            expanded.height,
        ),
        DockEdge::Top => PhysicalRect::new(
            expanded.x,
            saturating_i32(work.y as i64 - expanded.height as i64 + sensor),
            expanded.width,
            expanded.height,
        ),
    }
}

/// How far the frame was dragged inward from the docked edge.
pub open spec fn inward_distance(edge: DockEdge, frame: PhysicalRect, work: PhysicalRect) -> int {
    match edge {
        DockEdge::Left => frame.x - work.x,
        DockEdge::Right => work.spec_right() - frame.spec_right(),
        DockEdge::Top => frame.y - work.y,
    }
}

/// A docked window undocks once it is dragged inward beyond the threshold.
pub fn should_undock(edge: DockEdge, frame: PhysicalRect, monitor: &MonitorMetrics) -> (r: bool)
    ensures
        r == (inward_distance(edge, frame, monitor.work_area) > monitor.undock_px),
{
    let work = monitor.work_area;
    let inward = match edge {
        DockEdge::Left => frame.x as i64 - work.x as i64,
        DockEdge::Right => work.right() - frame.right(),
        DockEdge::Top => frame.y as i64 - work.y as i64,
    };
    inward > monitor.undock_px as i64
}

/// The dock edge after a drag: undocking releases the edge, otherwise a newly
/// snapped edge wins and the previous edge is kept.
pub fn drag_dock_edge(previous: Option<DockEdge>, undocked: bool, snapped: Option<DockEdge>) -> (r:
    Option<DockEdge>)
    ensures
        previous is Some && undocked ==> r is None,
        !(previous is Some && undocked) ==> r == (if snapped is Some {
            snapped
        } else {
            previous
        }),
{
    if previous.is_some() && undocked {
        None
    } else if snapped.is_some() {
        snapped
    } else {
        previous
    }
}

/// Whether two displays carry the same identity text.
pub open spec fn same_identity(a: MonitorIdentity, b: MonitorIdentity) -> bool {
    a.0@ == b.0@
}

/// Whether `i` is the first display with the remembered identity.
pub open spec fn first_with_identity(monitors: Seq<MonitorMetrics>, id: MonitorIdentity, i: int) -> bool {
    &&& 0 <= i < monitors.len()
    &&& same_identity(monitors[i].identity, id)
    &&& forall|j: int| 0 <= j < i ==> !same_identity(#[trigger] monitors[j].identity, id)
}

/// Whether `i` is the first primary display.
pub open spec fn first_primary(monitors: Seq<MonitorMetrics>, i: int) -> bool {
    &&& 0 <= i < monitors.len()
    &&& monitors[i].primary
    &&& forall|j: int| 0 <= j < i ==> !(#[trigger] monitors[j]).primary
}

/// The display a stored placement is restored onto: the first display with the
/// remembered identity, else the first primary display, else the first display.
pub open spec fn spec_recovery_monitor(
    identity: Option<MonitorIdentity>,
    monitors: Seq<MonitorMetrics>,
) -> Option<int> {
    if identity is Some && exists|i: int| first_with_identity(monitors, identity->0, i) {
        Some(choose|i: int| first_with_identity(monitors, identity->0, i))
    } else if exists|i: int| first_primary(monitors, i) {
        Some(choose|i: int| first_primary(monitors, i))
    } else if monitors.len() > 0 {
        Some(0)
    } else {
        None
    }
}

/// Chooses the display a stored placement is restored onto after a display
/// topology change.
pub fn recovery_monitor(identity: &Option<MonitorIdentity>, monitors: &Vec<MonitorMetrics>) -> (r:
    Option<usize>)
    ensures
        match spec_recovery_monitor(*identity, monitors@) {
            Some(i) => r == Some(i as usize),
            None => r is None,
        },
{
    if let Some(id) = identity {
        let mut i: usize = 0;
        while i < monitors.len()
            invariant
                0 <= i <= monitors.len(),
                *identity == Some(*id),
                forall|j: int| 0 <= j < i ==> !same_identity(#[trigger] monitors@[j].identity, *id),
            decreases monitors.len() - i,
        {
            if monitors[i].identity.0 == id.0 {
                assert(first_with_identity(monitors@, *id, i as int));
                proof {
                    assert forall|k: int| first_with_identity(monitors@, *id, k) implies k == i by {
                        if k < i {
                        } else if k > i {
                            assert(!same_identity(monitors@[i as int].identity, *id));
                        }
                    }
                    let c = choose|k: int| first_with_identity(monitors@, *id, k);
                    assert(c == i);

                }
                return Some(i);
            }
            i += 1;
        }
        assert(!exists|k: int| first_with_identity(monitors@, *id, k));
    }
    let mut i: usize = 0;
    while i < monitors.len()
        invariant
            0 <= i <= monitors.len(),
            identity is None || !exists|k: int| first_with_identity(monitors@, identity->0, k),
            forall|j: int| 0 <= j < i ==> !(#[trigger] monitors@[j]).primary,
        decreases monitors.len() - i,
    {
        if monitors[i].primary {
            assert(first_primary(monitors@, i as int));
            proof {
                assert forall|k: int| first_primary(monitors@, k) implies k == i by {
                    if k > i {
                        assert(!monitors@[i as int].primary);
                    }
                }
                let c = choose|k: int| first_primary(monitors@, k);
                assert(c == i);
            }
            return Some(i);
        }
        i += 1;
    }
    assert(!exists|k: int| first_primary(monitors@, k));
    if monitors.len() > 0 {
        Some(0)
    } else {
        None
    }
}

}
