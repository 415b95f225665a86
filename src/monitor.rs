use vstd::prelude::*;

use crate::geometry::SerializableRect;
use crate::models::{AppProfile, MonitorInfo, SavedMonitorPos};

verus! {

/// What a monitor list says: each monitor's device name and rectangle, in order.
pub type Layout = Seq<(Seq<char>, SerializableRect)>;

/// A display change as the display-settings call takes it: device name, new
/// top-left position, and whether the device becomes primary.
pub type ChangeView = (Seq<char>, i32, i32, bool);

/// One position-only display-setting change, to be committed together with
/// the others of its batch.
#[derive(Clone, Debug)]
pub struct DisplayChange {
    pub device_name: String,
    pub x: i32,
    pub y: i32,
    pub set_primary: bool,
}

impl View for DisplayChange {
    type V = ChangeView;

    open spec fn view(&self) -> ChangeView {
        (self.device_name@, self.x, self.y, self.set_primary)
    }
}

pub open spec fn layout_of(ms: Seq<MonitorInfo>) -> Layout {
    ms.map_values(|m: MonitorInfo| m@)
}

pub open spec fn snapshot_layout_of(ss: Seq<SavedMonitorPos>) -> Layout {
    ss.map_values(|s: SavedMonitorPos| s@)
}

pub open spec fn changes_of(cs: Seq<DisplayChange>) -> Seq<ChangeView> {
    cs.map_values(|c: DisplayChange| c@)
}

/// No two monitors share a device name.
pub open spec fn unique_devices(layout: Layout) -> bool {
    forall|i: int, j: int|
        0 <= i < layout.len() && 0 <= j < layout.len() && i != j ==> #[trigger] layout[i].0
            != #[trigger] layout[j].0
}

/// `i` is the first monitor named `name`.
pub open spec fn is_first_device(layout: Layout, name: Seq<char>, i: int) -> bool {
    &&& 0 <= i < layout.len()
    &&& layout[i].0 == name
    &&& forall|j: int| 0 <= j < i ==> #[trigger] layout[j].0 != name
}

/// The rectangle of the first monitor named `name`, if any.
pub open spec fn spec_find_rect(layout: Layout, name: Seq<char>) -> Option<SerializableRect> {
    if exists|i: int| is_first_device(layout, name, i) {
        Some(layout[choose|i: int| is_first_device(layout, name, i)].1)
    } else {
        None
    }
}

/// The rectangle a profile targets: the live monitor with its device name,
/// else the rectangle cached in the profile.
pub open spec fn spec_resolve_target(layout: Layout, name: Seq<char>, cached: Option<SerializableRect>) -> Option<SerializableRect> {
    match spec_find_rect(layout, name) {
        Some(r) => Some(r),
        None => cached,
    }
}

pub open spec fn fits_i32(v: int) -> bool {
    i32::MIN <= v <= i32::MAX
}

/// Every corner of `r`, taken relative to the top-left of `origin`, is a
/// representable coordinate.
pub open spec fn shift_fits(r: SerializableRect, origin: SerializableRect) -> bool {
    &&& fits_i32(r.left - origin.left)
    &&& fits_i32(r.top - origin.top)
    &&& fits_i32(r.right - origin.left)
    &&& fits_i32(r.bottom - origin.top)
}

pub open spec fn switch_change(m: (Seq<char>, SerializableRect), origin: SerializableRect, target: Seq<char>) -> ChangeView {
    (m.0, (m.1.left - origin.left) as i32, (m.1.top - origin.top) as i32, m.0 == target)
}

/// The changes that make `target` primary: every monitor keeps its place
/// relative to the target, whose top-left becomes the origin. `None` when the
/// target is not there or a shifted position is not representable.
pub open spec fn spec_switch_primary(layout: Layout, target: Seq<char>) -> Option<Seq<ChangeView>> {
    match spec_find_rect(layout, target) {
        None => None,
        Some(origin) => if forall|i: int| 0 <= i < layout.len() ==> shift_fits(#[trigger] layout[i].1, origin) {
            Some(layout.map_values(|m: (Seq<char>, SerializableRect)| switch_change(m, origin, target)))
        } else {
            None
        },
    }
}

pub open spec fn restore_change(s: (Seq<char>, SerializableRect)) -> ChangeView {
    (s.0, s.1.left, s.1.top, s.1.spec_at_origin())
}

/// The changes that put every monitor of a snapshot back where it was, the
/// one that was at the origin becoming primary again.
pub open spec fn spec_restore(snapshot: Layout) -> Seq<ChangeView> {
    snapshot.map_values(|s: (Seq<char>, SerializableRect)| restore_change(s))
}

/// A monitor moved so that its top-left is at (x, y), keeping its size.
pub open spec fn moved(r: SerializableRect, x: int, y: int) -> SerializableRect {
    SerializableRect {
        left: x as i32,
        top: y as i32,
        right: (x + r.spec_width()) as i32,
        bottom: (y + r.spec_height()) as i32,
    }
}

pub open spec fn change_for(cs: Seq<ChangeView>, name: Seq<char>, j: int) -> bool {
    0 <= j < cs.len() && cs[j].0 == name
}

pub open spec fn apply_change_to(m: (Seq<char>, SerializableRect), cs: Seq<ChangeView>) -> (Seq<char>, SerializableRect) {
    if exists|j: int| change_for(cs, m.0, j) {
        let c = cs[choose|j: int| change_for(cs, m.0, j)];
        (m.0, moved(m.1, c.1 as int, c.2 as int))
    } else {
        m
    }
}

/// The layout after a committed batch of position-only changes: a monitor
/// named in the batch moves to its new position, keeping its size.
pub open spec fn apply_display_changes(layout: Layout, cs: Seq<ChangeView>) -> Layout {
    layout.map_values(|m: (Seq<char>, SerializableRect)| apply_change_to(m, cs))
}

/// Some change of the batch names `name` and marks it primary.
pub open spec fn marked_primary(cs: Seq<ChangeView>, name: Seq<char>) -> bool {
    exists|j: int| change_for(cs, name, j) && #[trigger] cs[j].3
}

proof fn lemma_first_device_unique(layout: Layout, name: Seq<char>, i: int, k: int)
    requires
        is_first_device(layout, name, i),
        is_first_device(layout, name, k),
    ensures
        i == k,
{
    if i < k {
        assert(layout[i].0 != name);
    } else if k < i {
        assert(layout[k].0 != name);
    }
}

proof fn lemma_first_device_exists(layout: Layout, name: Seq<char>, i: int)
    requires
        0 <= i < layout.len(),
        layout[i].0 == name,
    ensures
        exists|k: int| is_first_device(layout, name, k),
    decreases i,
{
    if forall|j: int| 0 <= j < i ==> #[trigger] layout[j].0 != name {
        assert(is_first_device(layout, name, i));
    } else {
        let j = choose|j: int| 0 <= j < i && #[trigger] layout[j].0 == name;
        lemma_first_device_exists(layout, name, j);
    }
}

/// The first-match rectangle is found exactly when some monitor carries the
/// name; with unique names it is that monitor's rectangle.
pub proof fn lemma_find_rect_matches(layout: Layout, name: Seq<char>)
    ensures
        spec_find_rect(layout, name) is Some <==> exists|i: int|
            0 <= i < layout.len() && #[trigger] layout[i].0 == name,
        unique_devices(layout) ==> forall|i: int|
            0 <= i < layout.len() && #[trigger] layout[i].0 == name ==> spec_find_rect(layout, name)
                == Some(layout[i].1),
{
    if exists|i: int| 0 <= i < layout.len() && #[trigger] layout[i].0 == name {
        let i = choose|i: int| 0 <= i < layout.len() && #[trigger] layout[i].0 == name;
        lemma_first_device_exists(layout, name, i);
    }
    if unique_devices(layout) {
        assert forall|i: int| 0 <= i < layout.len() && #[trigger] layout[i].0 == name implies spec_find_rect(layout, name) == Some(layout[i].1) by {
            lemma_first_device_exists(layout, name, i);
            let k = choose|k: int| is_first_device(layout, name, k);
            if k != i {
                assert(layout[k].0 != layout[i].0);
            }
        }
    }
}

/// The rectangle of the first monitor whose device name is `device_name`.
pub fn find_monitor_rect(monitors: &Vec<MonitorInfo>, device_name: &String) -> (r: Option<SerializableRect>)
    ensures
        r == spec_find_rect(layout_of(monitors@), device_name@),
{
    let ghost layout = layout_of(monitors@);
    let mut i: usize = 0;
    while i < monitors.len()
        invariant
            i <= monitors.len(),
            layout == layout_of(monitors@),
            forall|j: int| 0 <= j < i ==> #[trigger] layout[j].0 != device_name@,
        decreases monitors.len() - i,
    {
        if monitors[i].device_name == *device_name {
            proof {
                assert(is_first_device(layout, device_name@, i as int));
                let k = choose|k: int| is_first_device(layout, device_name@, k);
                lemma_first_device_unique(layout, device_name@, i as int, k);
            }
            return Some(monitors[i].rect);
        }
        i += 1;
    }
    None
}

/// The rectangle a profile's window goes to: the live monitor with the
/// profile's device name if there is one, else the profile's cached
/// rectangle; `None` when neither is there.
pub fn resolve_target_rect(profile: &AppProfile, monitors: &Vec<MonitorInfo>) -> (r: Option<SerializableRect>)
    ensures
        r == spec_resolve_target(layout_of(monitors@), profile.target_monitor_name@, profile.target_monitor_rect),
{
    match find_monitor_rect(monitors, &profile.target_monitor_name) {
        Some(rect) => Some(rect),
        None => profile.target_monitor_rect,
    }
}

/// How a profile's target resolves against the live monitors: a live monitor
/// with the device name wins (the first one; with unique names, the one), the
/// cached rectangle is the fallback, and nothing comes back exactly when both
/// are missing.
pub proof fn lemma_resolve_target(layout: Layout, name: Seq<char>, cached: Option<SerializableRect>)
    ensures
        (exists|i: int| 0 <= i < layout.len() && #[trigger] layout[i].0 == name)
            ==> spec_resolve_target(layout, name, cached) == spec_find_rect(layout, name)
            && spec_find_rect(layout, name) is Some,
        unique_devices(layout) ==> forall|i: int| 0 <= i < layout.len() && #[trigger] layout[i].0 == name
            ==> spec_resolve_target(layout, name, cached) == Some(layout[i].1),
        (forall|i: int| 0 <= i < layout.len() ==> #[trigger] layout[i].0 != name)
            ==> spec_resolve_target(layout, name, cached) == cached,
        spec_resolve_target(layout, name, cached) is None <==> (cached is None && forall|i: int|
            0 <= i < layout.len() ==> #[trigger] layout[i].0 != name),
{
    lemma_find_rect_matches(layout, name);
}

/// Captures every monitor's device name and rectangle, in order, so that the
/// layout can be put back later.
pub fn snapshot_monitor_layout(monitors: &Vec<MonitorInfo>) -> (r: Vec<SavedMonitorPos>)
    ensures
        snapshot_layout_of(r@) == layout_of(monitors@),
{
    let mut out: Vec<SavedMonitorPos> = Vec::new();
    let mut i: usize = 0;
    while i < monitors.len()
        invariant
            i <= monitors.len(),
            out.len() == i,
            snapshot_layout_of(out@) == layout_of(monitors@).subrange(0, i as int),
        decreases monitors.len() - i,
    {
        let m = &monitors[i];
        out.push(SavedMonitorPos { device_name: m.device_name.clone(), rect: m.rect });
        proof {
            assert(out@[i as int]@ == layout_of(monitors@)[i as int]);
            assert(snapshot_layout_of(out@) =~= layout_of(monitors@).subrange(0, i + 1));
        }
        i += 1;
    }
    proof {
        assert(layout_of(monitors@).subrange(0, monitors@.len() as int) =~= layout_of(monitors@));
    }
    out
}

fn fits_i32_exec(v: i64) -> (r: bool)
    ensures
        r == fits_i32(v as int),
{
    i32::MIN as i64 <= v && v <= i32::MAX as i64
}

/// The batch of position-only changes that makes `target_device_name` the
/// primary monitor: each monitor is placed relative to the target's top-left
/// corner, so that the target lands at the origin, and the target alone is
/// marked primary. `None` when no monitor has that name or a shifted position
/// would not be a representable coordinate.
pub fn switch_primary_to(target_device_name: &String, monitors: &Vec<MonitorInfo>) -> (r: Option<Vec<DisplayChange>>)
    ensures
        match r {
            Some(cs) => spec_switch_primary(layout_of(monitors@), target_device_name@) == Some(changes_of(cs@)),
            None => spec_switch_primary(layout_of(monitors@), target_device_name@) is None,
        },
{
    let ghost layout = layout_of(monitors@);
    let origin = match find_monitor_rect(monitors, target_device_name) {
        Some(rect) => rect,
        None => return None,
    };
    let ghost target = target_device_name@;
    let mut out: Vec<DisplayChange> = Vec::new();
    let mut i: usize = 0;
    while i < monitors.len()
        invariant
            i <= monitors.len(),
            layout == layout_of(monitors@),
            target == target_device_name@,
            spec_find_rect(layout, target) == Some(origin),
            out.len() == i,
            forall|j: int| 0 <= j < i ==> shift_fits(#[trigger] layout[j].1, origin),
            changes_of(out@) == layout.subrange(0, i as int).map_values(
                |m: (Seq<char>, SerializableRect)| switch_change(m, origin, target),
            ),
        decreases monitors.len() - i,
    {
        let m = &monitors[i];
        let x = m.rect.left as i64 - origin.left as i64;
        let y = m.rect.top as i64 - origin.top as i64;
        let xr = m.rect.right as i64 - origin.left as i64;
        let yb = m.rect.bottom as i64 - origin.top as i64;
        if !(fits_i32_exec(x) && fits_i32_exec(y) && fits_i32_exec(xr) && fits_i32_exec(yb)) {
            proof {
                assert(!shift_fits(layout[i as int].1, origin));
            }
            return None;
        }
        let primary = m.device_name == *target_device_name;
        let ghost prev = out@;
        out.push(DisplayChange { device_name: m.device_name.clone(), x: x as i32, y: y as i32, set_primary: primary });
        proof {
            assert(layout[i as int] == m@);
            assert(out@[i as int]@ == switch_change(layout[i as int], origin, target));
            assert forall|k: int| 0 <= k < i implies #[trigger] out@[k]@ == switch_change(layout[k], origin, target) by {
                assert(out@[k] == prev[k]);
                assert(changes_of(prev)[k] == layout.subrange(0, i as int).map_values(
                    |m: (Seq<char>, SerializableRect)| switch_change(m, origin, target))[k]);
            }
            assert(changes_of(out@) =~= layout.subrange(0, i + 1).map_values(
                |m: (Seq<char>, SerializableRect)| switch_change(m, origin, target),
            ));
        }
        i += 1;
    }
    proof {
        assert(layout.subrange(0, layout.len() as int) =~= layout);
    }
    Some(out)
}

/// The batch of position-only changes that puts every monitor of `snapshot`
/// back at its captured position, marking primary the monitor that was at
/// the origin.
pub fn restore_monitor_layout(snapshot: &Vec<SavedMonitorPos>) -> (r: Vec<DisplayChange>)
    ensures
        changes_of(r@) == spec_restore(snapshot_layout_of(snapshot@)),
{
    let ghost layout = snapshot_layout_of(snapshot@);
    let mut out: Vec<DisplayChange> = Vec::new();
    let mut i: usize = 0;
    while i < snapshot.len()
        invariant
            i <= snapshot.len(),
            layout == snapshot_layout_of(snapshot@),
            out.len() == i,
            changes_of(out@) == layout.subrange(0, i as int).map_values(
                |s: (Seq<char>, SerializableRect)| restore_change(s),
            ),
        decreases snapshot.len() - i,
    {
        let s = &snapshot[i];
        let ghost prev = out@;
        out.push(DisplayChange {
            device_name: s.device_name.clone(),
            x: s.rect.left,
            y: s.rect.top,
            set_primary: s.rect.at_origin(),
        });
        proof {
            assert(layout[i as int] == s@);
            assert(out@[i as int]@ == restore_change(layout[i as int]));
            assert forall|k: int| 0 <= k < i implies #[trigger] out@[k]@ == restore_change(layout[k]) by {
                assert(out@[k] == prev[k]);
                assert(changes_of(prev)[k] == layout.subrange(0, i as int).map_values(
                    |s: (Seq<char>, SerializableRect)| restore_change(s))[k]);
            }
            assert(changes_of(out@) =~= layout.subrange(0, i + 1).map_values(
                |s: (Seq<char>, SerializableRect)| restore_change(s),
            ));
        }
        i += 1;
    }
    proof {
        assert(layout.subrange(0, layout.len() as int) =~= layout);
    }
    out
}

proof fn lemma_change_for_index(cs: Seq<ChangeView>, layout: Layout, i: int)
    requires
        unique_devices(layout),
        cs.len() == layout.len(),
        forall|j: int| 0 <= j < cs.len() ==> #[trigger] cs[j].0 == layout[j].0,
        0 <= i < layout.len(),
    ensures
        exists|j: int| change_for(cs, layout[i].0, j),
        forall|j: int| change_for(cs, layout[i].0, j) ==> j == i,
{
    assert(change_for(cs, layout[i].0, i));
    assert forall|j: int| change_for(cs, layout[i].0, j) implies j == i by {
        if j != i {
            assert(cs[j].0 == layout[j].0);
            assert(layout[j].0 != layout[i].0);
        }
    }
}

/// Switching the primary monitor and then restoring the snapshot taken before
/// the switch gives back the layout from before: every monitor is at its former
/// rectangle, so the monitor at the origin (the primary one) is the same as
/// before. After the switch alone, the target sits at the origin with its
/// size kept, and it alone is marked primary. Device names identify
/// displays, so the monitors of a live layout have distinct names.
pub proof fn lemma_switch_restore_round_trip(layout: Layout, target: Seq<char>)
    requires
        unique_devices(layout),
        spec_switch_primary(layout, target) is Some,
    ensures
        ({
            let switch = spec_switch_primary(layout, target).unwrap();
            let switched = apply_display_changes(layout, switch);
            let restored = apply_display_changes(switched, spec_restore(layout));
            &&& restored == layout
            &&& forall|i: int| 0 <= i < layout.len() ==> (#[trigger] restored[i].1.spec_at_origin()
                <==> layout[i].1.spec_at_origin())
            &&& forall|i: int| 0 <= i < layout.len() && #[trigger] layout[i].0 == target ==> {
                &&& switched[i].1.spec_at_origin()
                &&& switched[i].1.spec_width() == layout[i].1.spec_width()
                &&& switched[i].1.spec_height() == layout[i].1.spec_height()
            }
            &&& forall|i: int| 0 <= i < layout.len() ==> (marked_primary(switch, #[trigger] layout[i].0)
                <==> layout[i].0 == target)
        }),
{
    let origin = spec_find_rect(layout, target).unwrap();
    let switch = spec_switch_primary(layout, target).unwrap();
    let switched = apply_display_changes(layout, switch);
    let back = spec_restore(layout);
    let restored = apply_display_changes(switched, back);
    lemma_find_rect_matches(layout, target);
    assert forall|i: int| 0 <= i < layout.len() implies #[trigger] switched[i] == (layout[i].0,
        moved(layout[i].1, layout[i].1.left - origin.left, layout[i].1.top - origin.top)) by {
        lemma_change_for_index(switch, layout, i);
        assert(shift_fits(layout[i].1, origin));
    }
    assert forall|i: int| 0 <= i < layout.len() implies #[trigger] switched[i].1.spec_width()
        == layout[i].1.spec_width() && switched[i].1.spec_height() == layout[i].1.spec_height()
        && switched[i].0 == layout[i].0 by {
        assert(shift_fits(layout[i].1, origin));
    }
    assert(unique_devices(switched));
    assert forall|i: int| 0 <= i < layout.len() implies #[trigger] restored[i] == layout[i] by {
        lemma_change_for_index(back, switched, i);
    }
    assert(restored =~= layout);
    assert forall|i: int| 0 <= i < layout.len() && #[trigger] layout[i].0 == target implies {
        &&& switched[i].1.spec_at_origin()
        &&& switched[i].1.spec_width() == layout[i].1.spec_width()
        &&& switched[i].1.spec_height() == layout[i].1.spec_height()
    } by {
        assert(layout[i].1 == origin);
    }
    assert forall|i: int| 0 <= i < layout.len() implies (marked_primary(switch, #[trigger] layout[i].0)
        <==> layout[i].0 == target) by {
        lemma_change_for_index(switch, layout, i);
        if layout[i].0 == target {
            assert(change_for(switch, layout[i].0, i) && switch[i].3);
        }
    }
}

/// Every monitor named in the batch keeps its size when moved: its new
/// right and bottom edges are representable coordinates.
pub open spec fn batch_fits(layout: Layout, cs: Seq<ChangeView>) -> bool {
    forall|i: int, j: int|
        0 <= i < layout.len() && #[trigger] change_for(cs, layout[i].0, j) ==> fits_i32(
            cs[j].1 + layout[i].1.spec_width(),
        ) && fits_i32(cs[j].2 + layout[i].1.spec_height())
}

/// Committing the same batch of position-only changes a second time changes
/// nothing; in particular restoring a snapshot twice gives the layout that
/// restoring it once gives.
pub proof fn lemma_apply_changes_idempotent(layout: Layout, cs: Seq<ChangeView>)
    requires
        batch_fits(layout, cs),
    ensures
        apply_display_changes(apply_display_changes(layout, cs), cs) == apply_display_changes(layout, cs),
{
    let once = apply_display_changes(layout, cs);
    let twice = apply_display_changes(once, cs);
    assert forall|i: int| 0 <= i < layout.len() implies #[trigger] twice[i] == once[i] by {
        let m = layout[i];
        if exists|j: int| change_for(cs, m.0, j) {
            let j = choose|j: int| change_for(cs, m.0, j);
            assert(fits_i32(cs[j].1 + m.1.spec_width()) && fits_i32(cs[j].2 + m.1.spec_height()));
            assert(once[i].0 == m.0);
        }
    }
    assert(twice =~= once);
}

/// Restoring a snapshot of a layout twice gives what restoring it once
/// gives, the restored layout being the snapshot's.
pub proof fn lemma_restore_twice(current: Layout, snapshot: Layout)
    requires
        batch_fits(current, spec_restore(snapshot)),
    ensures
        apply_display_changes(apply_display_changes(current, spec_restore(snapshot)), spec_restore(snapshot))
            == apply_display_changes(current, spec_restore(snapshot)),
{
    lemma_apply_changes_idempotent(current, spec_restore(snapshot));
}

} // verus!
