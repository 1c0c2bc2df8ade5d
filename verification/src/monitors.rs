//! Monitor geometry data.
//!
//! A monitor snapshot carries its full rectangle, its work-area rectangle
//! (excluding taskbars and app bars) and whether it is the primary monitor.
//! Enumerating the monitors happens outside the library; the library orders
//! the snapshots (primary first, then by coordinates) and answers simple
//! queries over the ordered list.

use vstd::prelude::*;
use vstd::seq_lib::to_multiset_insert;

verus! {

/// A snapshot of one monitor.
#[derive(Debug, Clone, Copy, PartialEq, Eq, Structural)]
pub struct MonitorInfo {
    /// X coordinate of the top-left corner (full monitor area).
    pub x: i32,
    /// Y coordinate of the top-left corner (full monitor area).
    pub y: i32,
    /// Monitor width in pixels (full monitor area).
    pub width: i32,
    /// Monitor height in pixels (full monitor area).
    pub height: i32,
    /// X coordinate of the work area (excludes taskbar and app bars).
    pub work_x: i32,
    /// Y coordinate of the work area (excludes taskbar and app bars).
    pub work_y: i32,
    /// Work area width in pixels.
    pub work_width: i32,
    /// Work area height in pixels.
    pub work_height: i32,
    /// Whether this is the primary monitor.
    pub is_primary: bool,
}

impl MonitorInfo {
    /// X coordinate of the right edge.
    pub fn right(&self) -> (r: i32)
        requires
            i32::MIN <= self.x + self.width <= i32::MAX,
        ensures
            r == self.x + self.width,
    {
        self.x + self.width
    }

    /// Y coordinate of the bottom edge.
    pub fn bottom(&self) -> (r: i32)
        requires
            i32::MIN <= self.y + self.height <= i32::MAX,
        ensures
            r == self.y + self.height,
    {
        self.y + self.height
    }
}

/// The display order of monitor snapshots: the primary monitor first, then
/// ascending x, then ascending y.
pub open spec fn spec_monitor_le(a: MonitorInfo, b: MonitorInfo) -> bool {
    if a.is_primary != b.is_primary {
        a.is_primary
    } else if a.x != b.x {
        a.x < b.x
    } else {
        a.y <= b.y
    }
}

fn monitor_le(a: MonitorInfo, b: MonitorInfo) -> (r: bool)
    ensures
        r == spec_monitor_le(a, b),
{
    if a.is_primary != b.is_primary {
        a.is_primary
    } else if a.x != b.x {
        a.x < b.x
    } else {
        a.y <= b.y
    }
}

/// Whether a sequence of snapshots is in display order.
pub open spec fn spec_monitors_sorted(s: Seq<MonitorInfo>) -> bool {
    forall|p: int, q: int|
        0 <= p <= q < s.len() ==> spec_monitor_le(#[trigger] s[p], #[trigger] s[q])
}

fn insertion_index(sorted: &Vec<MonitorInfo>, m: MonitorInfo) -> (j: usize)
    requires
        spec_monitors_sorted(sorted@),
    ensures
        j <= sorted@.len(),
        forall|k: int| 0 <= k < j ==> spec_monitor_le(#[trigger] sorted@[k], m),
        j < sorted@.len() ==> !spec_monitor_le(sorted@[j as int], m),
{
    let mut j: usize = 0;
    while j < sorted.len()
        invariant
            j <= sorted@.len(),
            forall|k: int| 0 <= k < j ==> spec_monitor_le(#[trigger] sorted@[k], m),
        decreases sorted@.len() - j,
    {
        if !monitor_le(sorted[j], m) {
            return j;
        }
        j = j + 1;
    }
    j
}

/// Puts monitor snapshots into display order: the primary monitor first,
/// then ascending coordinates. The result holds exactly the given
/// snapshots.
pub fn sort_monitors(monitors: &Vec<MonitorInfo>) -> (sorted: Vec<MonitorInfo>)
    ensures
        sorted@.len() == monitors@.len(),
        sorted@.to_multiset() == monitors@.to_multiset(),
        spec_monitors_sorted(sorted@),
{
    let mut result: Vec<MonitorInfo> = Vec::new();
    let mut i: usize = 0;
    proof {
        assert(result@ =~= monitors@.take(0));
    }
    while i < monitors.len()
        invariant
            i <= monitors.len(),
            result@.len() == i,
            result@.to_multiset() == monitors@.take(i as int).to_multiset(),
            spec_monitors_sorted(result@),
        decreases monitors.len() - i,
    {
        let m = monitors[i];
        let ghost prev = result@;
        let j = insertion_index(&result, m);
        result.insert(j, m);
        proof {
            to_multiset_insert(prev, j as int, m);
            assert(monitors@.take(i as int + 1) =~= monitors@.take(i as int).push(m));
            monitors@.take(i as int).to_multiset_ensures();
            prev.insert_ensures(j as int, m);
            assert forall|p: int, q: int|
                0 <= p <= q < result@.len() implies spec_monitor_le(
                #[trigger] result@[p],
                #[trigger] result@[q],
            ) by {
                if q > j {
                    assert(result@[q] == prev[q - 1]);
                }
                if p > j {
                    assert(result@[p] == prev[p - 1]);
                }
            }
        }
        i = i + 1;
    }
    proof {
        assert(monitors@.take(monitors@.len() as int) =~= monitors@);
    }
    result
}

/// Finds the first primary monitor in a list of snapshots, if any.
pub fn get_primary_monitor(monitors: &Vec<MonitorInfo>) -> (m: Option<MonitorInfo>)
    ensures
        m is None ==> forall|k: int|
            0 <= k < monitors@.len() ==> !(#[trigger] monitors@[k]).is_primary,
        m matches Some(mi) ==> mi.is_primary && exists|k: int|
            0 <= k < monitors@.len() && #[trigger] monitors@[k] == mi && forall|l: int|
                0 <= l < k ==> !(#[trigger] monitors@[l]).is_primary,
    {
    let mut k: usize = 0;
    while k < monitors.len()
        invariant
            k <= monitors@.len(),
            forall|l: int| 0 <= l < k ==> !(#[trigger] monitors@[l]).is_primary,
        decreases monitors@.len() - k,
    {
        if monitors[k].is_primary {
            return Some(monitors[k]);
        }
        k = k + 1;
    }
    None
}

/// The number of monitors in a list of snapshots.
pub fn get_monitor_count(monitors: &Vec<MonitorInfo>) -> (n: usize)
    ensures
        n == monitors@.len(),
{
    monitors.len()
}

} // verus!
