use std::collections::HashMap;
use std::marker::PhantomData;
use std::rc::Rc;
use vstd::prelude::*;
use vstd::std_specs::hash::group_hash_axioms;

use crate::window::{IVec2, MonitorSelection, WindowPosition, WindowResolution, effective_scale, resolution_valid};

verus! {

broadcast use group_hash_axioms;

/// Maps application window identifiers to native windows.
///
/// Identifiers of both kinds are integers: an application identifier names a
/// window entity, a native identifier names a native window. `W` is the
/// native window handle that the registry owns.
///
/// Removing a window forgets its application identifier and drops its
/// handle, but keeps the native identifier's entry: an event that arrives
/// late for a closed window still resolves to the entity it belonged to, and
/// the native identifier is never taken by another entity.
#[derive(Debug)]
pub struct TaoWindows<W> {
    /// Native window handles, by native identifier.
    pub windows: HashMap<u64, W>,
    /// Native identifier of each live application window.
    pub entity_to_tao: HashMap<u64, u64>,
    /// Application identifier of each native identifier ever registered.
    pub tao_to_entity: HashMap<u64, u64>,
    /// Native windows may only be touched from the thread that owns the
    /// event loop: this keeps the registry from being sent or shared across
    /// threads.
    pub not_send_sync: PhantomData<Rc<()>>,
}

/// The contents of a [`TaoWindows`] registry.
pub struct RegistryView<W> {
    pub windows: Map<u64, W>,
    pub entity_to_tao: Map<u64, u64>,
    pub tao_to_entity: Map<u64, u64>,
}

impl<W> View for TaoWindows<W> {
    type V = RegistryView<W>;

    open spec fn view(&self) -> RegistryView<W> {
        RegistryView {
            windows: self.windows@,
            entity_to_tao: self.entity_to_tao@,
            tao_to_entity: self.tao_to_entity@,
        }
    }
}

/// The registry after registering `window`, with native identifier
/// `native_id`, for `entity`: unchanged where the entity already has a window
/// or the native identifier is already known.
pub open spec fn registry_after_create<W>(
    v: RegistryView<W>,
    entity: u64,
    native_id: u64,
    window: W,
) -> RegistryView<W> {
    if v.entity_to_tao.contains_key(entity) || v.tao_to_entity.contains_key(native_id) {
        v
    } else {
        RegistryView {
            windows: v.windows.insert(native_id, window),
            entity_to_tao: v.entity_to_tao.insert(entity, native_id),
            tao_to_entity: v.tao_to_entity.insert(native_id, entity),
        }
    }
}

/// Registering a second window for an application window changes nothing:
/// the entity keeps the native window of the first registration, and no
/// further handle is stored.
pub proof fn lemma_create_idempotent<W>(
    v: RegistryView<W>,
    entity: u64,
    first_id: u64,
    first: W,
    second_id: u64,
    second: W,
)
    requires
        !v.entity_to_tao.contains_key(entity),
        !v.tao_to_entity.contains_key(first_id),
    ensures
        ({
            let once = registry_after_create(v, entity, first_id, first);
            let twice = registry_after_create(once, entity, second_id, second);
            &&& twice == once
            &&& twice.entity_to_tao.contains_key(entity)
            &&& twice.windows.dom() =~= once.windows.dom()
        }),
{
    assert(registry_after_create(v, entity, first_id, first).entity_to_tao.contains_key(entity));
}

impl<W> Default for TaoWindows<W> {
    fn default() -> (r: Self)
        ensures
            r.wf(),
            r.windows@.is_empty(),
            r.entity_to_tao@.is_empty(),
            r.tao_to_entity@.is_empty(),
    {
        TaoWindows::new()
    }
}

/// What became of a handle given to [`TaoWindows::create_window`].
pub enum CreateOutcome<W> {
    /// The handle was stored for the entity.
    Created,
    /// The entity already had a window: the registry is unchanged and the
    /// handle is given back.
    AlreadyRegistered(W),
    /// The native identifier is already known to the registry, live or
    /// closed: the registry is unchanged and the handle is given back.
    NativeIdTaken(W),
}

impl<W> TaoWindows<W> {
    /// The registry's invariant: the two identifier maps are inverse on every
    /// live entity, every live entity has a handle, and every handle belongs
    /// to a live entity.
    pub open spec fn wf(&self) -> bool {
        &&& forall|e: u64| #[trigger]
            self.entity_to_tao@.contains_key(e) ==> {
                &&& self.tao_to_entity@.contains_key(self.entity_to_tao@[e])
                &&& self.tao_to_entity@[self.entity_to_tao@[e]] == e
                &&& self.windows@.contains_key(self.entity_to_tao@[e])
            }
        &&& forall|n: u64| #[trigger]
            self.windows@.contains_key(n) ==> {
                &&& self.tao_to_entity@.contains_key(n)
                &&& self.entity_to_tao@.contains_key(self.tao_to_entity@[n])
                &&& self.entity_to_tao@[self.tao_to_entity@[n]] == n
            }
    }

    /// Whether an application window has a native window.
    pub open spec fn is_registered(&self, entity: u64) -> bool {
        self.entity_to_tao@.contains_key(entity)
    }

    /// The native identifier of a registered application window.
    pub open spec fn native_id_of(&self, entity: u64) -> u64 {
        self.entity_to_tao@[entity]
    }

    /// An empty registry.
    pub fn new() -> (r: Self)
        ensures
            r.wf(),
            r.windows@.is_empty(),
            r.entity_to_tao@.is_empty(),
            r.tao_to_entity@.is_empty(),
    {
        TaoWindows {
            windows: HashMap::new(),
            entity_to_tao: HashMap::new(),
            tao_to_entity: HashMap::new(),
            not_send_sync: PhantomData,
        }
    }

    /// Registers the native window `window`, whose native identifier is
    /// `native_id`, for the application window `entity`.
    ///
    /// Nothing changes where the entity already has a window, or where the
    /// native identifier is already known: the handle is then given back.
    pub fn create_window(&mut self, entity: u64, native_id: u64, window: W) -> (r: CreateOutcome<W>)
        requires
            old(self).wf(),
        ensures
            final(self).wf(),
            final(self)@ == registry_after_create(old(self)@, entity, native_id, window),
            old(self).is_registered(entity) ==> *final(self) == *old(self) && r == CreateOutcome::AlreadyRegistered(window),
            !old(self).is_registered(entity) && old(self).tao_to_entity@.contains_key(native_id) ==>
                *final(self) == *old(self) && r == CreateOutcome::NativeIdTaken(window),
            !old(self).is_registered(entity) && !old(self).tao_to_entity@.contains_key(native_id) ==> {
                &&& r == CreateOutcome::<W>::Created
                &&& final(self).windows@ == old(self).windows@.insert(native_id, window)
                &&& final(self).entity_to_tao@ == old(self).entity_to_tao@.insert(entity, native_id)
                &&& final(self).tao_to_entity@ == old(self).tao_to_entity@.insert(native_id, entity)
            },
    {
        if self.entity_to_tao.contains_key(&entity) {
            return CreateOutcome::AlreadyRegistered(window);
        }
        if self.tao_to_entity.contains_key(&native_id) {
            return CreateOutcome::NativeIdTaken(window);
        }
        proof {
            assert(!self.windows@.contains_key(native_id));
        }
        self.entity_to_tao.insert(entity, native_id);
        self.tao_to_entity.insert(native_id, entity);
        self.windows.insert(native_id, window);
        CreateOutcome::Created
    }

    /// Every registered application window is found again from its native
    /// identifier.
    pub proof fn lemma_native_lookup_inverse(&self, entity: u64)
        requires
            self.wf(),
            self.is_registered(entity),
        ensures
            self.tao_to_entity@.contains_key(self.native_id_of(entity)),
            self.tao_to_entity@[self.native_id_of(entity)] == entity,
    {
    }

    /// The native window of an application window.
    pub fn get_window(&self, entity: u64) -> (r: Option<&W>)
        requires
            self.wf(),
        ensures
            self.is_registered(entity) ==> r == Some(&self.windows@[self.native_id_of(entity)]),
            !self.is_registered(entity) ==> r.is_none(),
    {
        match self.entity_to_tao.get(&entity) {
            Some(native_id) => self.windows.get(native_id),
            None => None,
        }
    }

    /// The application window that a native identifier belongs to, or
    /// belonged to before the window was removed.
    pub fn get_window_entity(&self, native_id: u64) -> (r: Option<u64>)
        ensures
            r == (if self.tao_to_entity@.contains_key(native_id) {
                Some(self.tao_to_entity@[native_id])
            } else {
                None::<u64>
            }),
    {
        match self.tao_to_entity.get(&native_id) {
            Some(e) => Some(*e),
            None => None,
        }
    }

    /// Forgets an application window and hands back its native window.
    ///
    /// The native identifier stays known, mapped to the entity.
    pub fn remove_window(&mut self, entity: u64) -> (r: Option<W>)
        requires
            old(self).wf(),
        ensures
            final(self).wf(),
            final(self).tao_to_entity@ == old(self).tao_to_entity@,
            final(self).entity_to_tao@ == old(self).entity_to_tao@.remove(entity),
            old(self).is_registered(entity) ==> {
                &&& r == Some(old(self).windows@[old(self).native_id_of(entity)])
                &&& final(self).windows@ == old(self).windows@.remove(old(self).native_id_of(entity))
            },
            !old(self).is_registered(entity) ==> r.is_none() && final(self).windows@ == old(self).windows@,
    {
        let native_id = match self.entity_to_tao.remove(&entity) {
            Some(n) => n,
            None => return None,
        };
        self.windows.remove(&native_id)
    }
}

/// A monitor-supported combination of resolution and refresh rate.
#[derive(Debug, Clone, Copy, PartialEq, Eq, Structural)]
pub struct VideoMode {
    pub width: u32,
    pub height: u32,
    pub bit_depth: u16,
    /// Refresh rate in hertz.
    pub refresh_rate: u16,
    /// Identifier of the monitor that offers this mode.
    pub monitor: u64,
}

/// What is known of a monitor.
#[derive(Debug)]
pub struct MonitorInfo {
    pub id: u64,
    /// Physical position of the monitor's top left corner.
    pub position: IVec2,
    /// Physical width.
    pub width: u32,
    /// Physical height.
    pub height: u32,
    /// Scale factor, in thousandths.
    pub scale_factor: u32,
    pub video_modes: Vec<VideoMode>,
}

/// `|a - b|`.
pub open spec fn abs_diff(a: u32, b: u32) -> int {
    if a > b { a - b } else { b - a }
}

/// Mode `a` fits a `width` x `height` target strictly better than mode `b`:
/// closer in width, then closer in height, then a higher refresh rate.
pub open spec fn fits_better(a: VideoMode, b: VideoMode, width: u32, height: u32) -> bool {
    ||| abs_diff(a.width, width) < abs_diff(b.width, width)
    ||| abs_diff(a.width, width) == abs_diff(b.width, width) && abs_diff(a.height, height) < abs_diff(b.height, height)
    ||| abs_diff(a.width, width) == abs_diff(b.width, width) && abs_diff(a.height, height) == abs_diff(b.height, height)
        && a.refresh_rate > b.refresh_rate
}

/// Mode `a` is strictly better than mode `b` natively: wider, then taller,
/// then a higher refresh rate.
pub open spec fn natively_better(a: VideoMode, b: VideoMode) -> bool {
    ||| a.width > b.width
    ||| a.width == b.width && a.height > b.height
    ||| a.width == b.width && a.height == b.height && a.refresh_rate > b.refresh_rate
}

/// `better` is a strict order whose incomparability is transitive, as a
/// lexicographic comparison of keys is.
pub open spec fn strict_weak_order(better: spec_fn(VideoMode, VideoMode) -> bool) -> bool {
    &&& forall|a: VideoMode| !#[trigger] better(a, a)
    &&& forall|a: VideoMode, b: VideoMode, c: VideoMode| #[trigger]
        better(a, b) && #[trigger] better(b, c) ==> better(a, c)
    &&& forall|a: VideoMode, b: VideoMode, c: VideoMode|
        !#[trigger] better(a, b) && #[trigger] better(c, b) ==> better(c, a)
}

proof fn lemma_fits_better_order(width: u32, height: u32)
    ensures
        strict_weak_order(|a: VideoMode, b: VideoMode| fits_better(a, b, width, height)),
{
}

proof fn lemma_natively_better_order()
    ensures
        strict_weak_order(|a: VideoMode, b: VideoMode| natively_better(a, b)),
{
}

/// One step of a scan for the first best mode: `best` is the first best of
/// `modes[..k]`; moving to `k` where it beats `best` keeps that so for
/// `modes[..k + 1]`.
proof fn lemma_scan_step(
    modes: Seq<VideoMode>,
    better: spec_fn(VideoMode, VideoMode) -> bool,
    best: int,
    k: int,
)
    requires
        strict_weak_order(better),
        0 <= best < k < modes.len(),
        forall|j: int| 0 <= j < k ==> !better(#[trigger] modes[j], modes[best]),
        forall|j: int| 0 <= j < best ==> better(modes[best], #[trigger] modes[j]),
    ensures
        better(modes[k], modes[best]) ==> {
            &&& forall|j: int| 0 <= j < k + 1 ==> !better(#[trigger] modes[j], modes[k])
            &&& forall|j: int| 0 <= j < k ==> better(modes[k], #[trigger] modes[j])
        },
        !better(modes[k], modes[best]) ==> forall|j: int|
            0 <= j < k + 1 ==> !better(#[trigger] modes[j], modes[best]),
{
    if better(modes[k], modes[best]) {
        assert forall|j: int| 0 <= j < k + 1 implies !better(#[trigger] modes[j], modes[k]) by {
            if j < k && better(modes[j], modes[k]) {
                assert(better(modes[j], modes[best]));
            }
        }
        assert forall|j: int| 0 <= j < k implies better(modes[k], #[trigger] modes[j]) by {
            if j < best {
                assert(better(modes[best], modes[j]));
            } else if j > best {
                assert(!better(modes[j], modes[best]));
            }
        }
    }
}

/// `modes[i]` is the first of the modes that no other mode fits better.
pub open spec fn is_first_fitting(modes: Seq<VideoMode>, i: int, width: u32, height: u32) -> bool {
    &&& 0 <= i < modes.len()
    &&& forall|j: int| 0 <= j < modes.len() ==> !fits_better(#[trigger] modes[j], modes[i], width, height)
    &&& forall|j: int| 0 <= j < i ==> fits_better(modes[i], #[trigger] modes[j], width, height)
}

/// `modes[i]` is the first of the modes that no other mode beats natively.
pub open spec fn is_first_native_best(modes: Seq<VideoMode>, i: int) -> bool {
    &&& 0 <= i < modes.len()
    &&& forall|j: int| 0 <= j < modes.len() ==> !natively_better(#[trigger] modes[j], modes[i])
    &&& forall|j: int| 0 <= j < i ==> natively_better(modes[i], #[trigger] modes[j])
}

/// The mode that best fits a `width` x `height` target, if there is a mode.
pub open spec fn fitting_mode(modes: Seq<VideoMode>, width: u32, height: u32) -> Option<VideoMode> {
    if modes.len() == 0 {
        None
    } else {
        Some(modes[choose|i: int| is_first_fitting(modes, i, width, height)])
    }
}

/// The natively best mode, if there is a mode.
pub open spec fn best_native_mode(modes: Seq<VideoMode>) -> Option<VideoMode> {
    if modes.len() == 0 {
        None
    } else {
        Some(modes[choose|i: int| is_first_native_best(modes, i)])
    }
}

proof fn lemma_first_fitting_unique(modes: Seq<VideoMode>, width: u32, height: u32, i: int, j: int)
    requires
        is_first_fitting(modes, i, width, height),
        is_first_fitting(modes, j, width, height),
    ensures
        i == j,
{
    if i < j {
        assert(fits_better(modes[j], modes[i], width, height));
    } else if j < i {
        assert(fits_better(modes[i], modes[j], width, height));
    }
}

proof fn lemma_first_native_best_unique(modes: Seq<VideoMode>, i: int, j: int)
    requires
        is_first_native_best(modes, i),
        is_first_native_best(modes, j),
    ensures
        i == j,
{
    if i < j {
        assert(natively_better(modes[j], modes[i]));
    } else if j < i {
        assert(natively_better(modes[i], modes[j]));
    }
}

/// The video mode that best fits a `width` x `height` target: the smallest
/// difference in width, then in height, then the highest refresh rate; the
/// first such mode in the monitor's list. None where the monitor reports no
/// video mode.
pub fn get_fitting_videomode(monitor: &MonitorInfo, width: u32, height: u32) -> (r: Option<VideoMode>)
    ensures
        r == fitting_mode(monitor.video_modes@, width, height),
{
    let modes = &monitor.video_modes;
    if modes.len() == 0 {
        return None;
    }
    let mut best: usize = 0;
    let mut k: usize = 1;
    while k < modes.len()
        invariant
            1 <= k <= modes.len(),
            best < k,
            forall|j: int| 0 <= j < k ==> !fits_better(#[trigger] modes@[j], modes@[best as int], width, height),
            forall|j: int| 0 <= j < best ==> fits_better(modes@[best as int], #[trigger] modes@[j], width, height),
        decreases modes.len() - k,
    {
        let a = &modes[k];
        let b = &modes[best];
        let da = u32_abs_diff(a.width, width);
        let db = u32_abs_diff(b.width, width);
        let ha = u32_abs_diff(a.height, height);
        let hb = u32_abs_diff(b.height, height);
        let wins = da < db || (da == db && ha < hb) || (da == db && ha == hb && a.refresh_rate > b.refresh_rate);
        proof {
            lemma_fits_better_order(width, height);
            lemma_scan_step(modes@, |a: VideoMode, b: VideoMode| fits_better(a, b, width, height), best as int, k as int);
        }
        if wins {
            best = k;
        }
        k = k + 1;
    }
    proof {
        assert(is_first_fitting(modes@, best as int, width, height));
        let i = choose|i: int| is_first_fitting(modes@, i, width, height);
        lemma_first_fitting_unique(modes@, width, height, i, best as int);
    }
    Some(modes[best])
}

fn u32_abs_diff(a: u32, b: u32) -> (r: u32)
    ensures
        r == abs_diff(a, b),
{
    if a > b {
        a - b
    } else {
        b - a
    }
}

/// The monitor's best video mode: the widest, then the tallest, then the
/// highest refresh rate; the first such mode in the monitor's list. None
/// where the monitor reports no video mode.
pub fn get_best_videomode(monitor: &MonitorInfo) -> (r: Option<VideoMode>)
    ensures
        r == best_native_mode(monitor.video_modes@),
{
    let modes = &monitor.video_modes;
    if modes.len() == 0 {
        return None;
    }
    let mut best: usize = 0;
    let mut k: usize = 1;
    while k < modes.len()
        invariant
            1 <= k <= modes.len(),
            best < k,
            forall|j: int| 0 <= j < k ==> !natively_better(#[trigger] modes@[j], modes@[best as int]),
            forall|j: int| 0 <= j < best ==> natively_better(modes@[best as int], #[trigger] modes@[j]),
        decreases modes.len() - k,
    {
        let a = &modes[k];
        let b = &modes[best];
        let wins = a.width > b.width || (a.width == b.width && a.height > b.height) || (a.width == b.width
            && a.height == b.height && a.refresh_rate > b.refresh_rate);
        proof {
            lemma_natively_better_order();
            lemma_scan_step(modes@, |a: VideoMode, b: VideoMode| natively_better(a, b), best as int, k as int);
        }
        if wins {
            best = k;
        }
        k = k + 1;
    }
    proof {
        assert(is_first_native_best(modes@, best as int));
        let i = choose|i: int| is_first_native_best(modes@, i);
        lemma_first_native_best_unique(modes@, i, best as int);
    }
    Some(modes[best])
}

/// The monitor that a selection names, if it is there.
pub open spec fn select_monitor(
    selection: MonitorSelection,
    available: Seq<MonitorInfo>,
    primary: Option<MonitorInfo>,
    current: Option<MonitorInfo>,
) -> Option<MonitorInfo> {
    match selection {
        MonitorSelection::Current => current,
        MonitorSelection::Primary => primary,
        MonitorSelection::Index(n) => if n < available.len() { Some(available[n as int]) } else { None },
    }
}

/// A length at scale `from` brought to scale `to`, rounded to the nearest
/// whole pixel (halves up) and at most `u32::MAX`.
pub open spec fn rescale(length: u32, from: u32, to: u32) -> int {
    let v = (2 * (length as int * to as int) + from) / (2 * from as int);
    if v > u32::MAX { u32::MAX as int } else { v }
}

/// The coordinate that centers a window of length `window` on a screen of
/// length `screen` starting at `origin`: half the free space, which is none
/// where the window is the larger, past the origin, rounded to the nearest
/// whole pixel (halves away from zero) and kept within `i32`.
pub open spec fn center_coord(screen: u32, window: int, origin: i32) -> i32 {
    let free: int = if screen >= window { screen - window } else { 0 };
    let half = free / 2;
    let v = if free % 2 == 1 && half + origin >= 0 { half + origin + 1 } else { half + origin };
    if v > i32::MAX { i32::MAX } else if v < i32::MIN { i32::MIN } else { v as i32 }
}

/// Where a window of the given resolution is centered on a monitor. The
/// window's size is taken at the monitor's scale factor, since the window's
/// own is not known before it exists.
pub open spec fn centered_on(monitor: MonitorInfo, resolution: WindowResolution) -> IVec2 {
    let w = rescale(resolution.physical_width, effective_scale(resolution), monitor.scale_factor);
    let h = rescale(resolution.physical_height, effective_scale(resolution), monitor.scale_factor);
    IVec2 { x: center_coord(monitor.width, w, monitor.position.x), y: center_coord(monitor.height, h, monitor.position.y) }
}

/// The physical position a window is placed at, if any.
pub open spec fn resolved_position(
    position: WindowPosition,
    resolution: WindowResolution,
    available: Seq<MonitorInfo>,
    primary: Option<MonitorInfo>,
    current: Option<MonitorInfo>,
) -> Option<IVec2> {
    match position {
        WindowPosition::Automatic => None,
        WindowPosition::Centered(selection) => match select_monitor(selection, available, primary, current) {
            Some(m) => Some(centered_on(m, resolution)),
            None => None,
        },
        WindowPosition::At(x, y) => Some(IVec2 { x, y }),
    }
}

/// Every monitor that could be selected has a positive scale factor.
pub open spec fn monitors_valid(
    available: Seq<MonitorInfo>,
    primary: Option<MonitorInfo>,
    current: Option<MonitorInfo>,
) -> bool {
    &&& forall|i: int| 0 <= i < available.len() ==> #[trigger] available[i].scale_factor > 0
    &&& primary matches Some(m) ==> m.scale_factor > 0
    &&& current matches Some(m) ==> m.scale_factor > 0
}

fn rescale_exec(length: u32, from: u32, to: u32) -> (r: u32)
    requires
        from > 0,
    ensures
        r == rescale(length, from, to),
{
    let l = length as u128;
    let t = to as u128;
    proof {
        assert(l * t <= 0xffff_ffff * 0xffff_ffff) by (nonlinear_arith)
            requires
                l <= 0xffff_ffff,
                t <= 0xffff_ffff,
        ;
    }
    let num: u128 = 2 * (l * t) + from as u128;
    let v: u128 = num / (2 * from as u128);
    if v > u32::MAX as u128 {
        u32::MAX
    } else {
        v as u32
    }
}

fn center_coord_exec(screen: u32, window: u32, origin: i32) -> (r: i32)
    ensures
        r == center_coord(screen, window as int, origin),
{
    let free: i64 = if screen >= window { (screen - window) as i64 } else { 0 };
    let half: i64 = free / 2;
    let v: i64 = if free % 2 == 1 && half + origin as i64 >= 0 {
        half + origin as i64 + 1
    } else {
        half + origin as i64
    };
    if v > i32::MAX as i64 {
        i32::MAX
    } else if v < i32::MIN as i64 {
        i32::MIN
    } else {
        v as i32
    }
}

/// The physical position for a window: none for an automatic position, or
/// where the selected monitor is not there; the window centered on the
/// selected monitor; or the given coordinates.
pub fn tao_window_position(
    position: &WindowPosition,
    resolution: &WindowResolution,
    available_monitors: &Vec<MonitorInfo>,
    primary_monitor: Option<&MonitorInfo>,
    current_monitor: Option<&MonitorInfo>,
) -> (r: Option<IVec2>)
    requires
        resolution_valid(*resolution),
        monitors_valid(
            available_monitors@,
            match primary_monitor { Some(m) => Some(*m), None => None },
            match current_monitor { Some(m) => Some(*m), None => None },
        ),
    ensures
        r == resolved_position(
            *position,
            *resolution,
            available_monitors@,
            match primary_monitor { Some(m) => Some(*m), None => None },
            match current_monitor { Some(m) => Some(*m), None => None },
        ),
{
    match position {
        WindowPosition::Automatic => None,
        WindowPosition::Centered(selection) => {
            let monitor: Option<&MonitorInfo> = match selection {
                MonitorSelection::Current => current_monitor,
                MonitorSelection::Primary => primary_monitor,
                MonitorSelection::Index(n) => if *n < available_monitors.len() {
                    Some(&available_monitors[*n])
                } else {
                    None
                },
            };
            match monitor {
                Some(m) => {
                    let scale = resolution.scale();
                    let w = rescale_exec(resolution.physical_width, scale, m.scale_factor);
                    let h = rescale_exec(resolution.physical_height, scale, m.scale_factor);
                    let x = center_coord_exec(m.width, w, m.position.x);
                    let y = center_coord_exec(m.height, h, m.position.y);
                    Some(IVec2 { x, y })
                },
                None => None,
            }
        },
        WindowPosition::At(x, y) => Some(IVec2 { x: *x, y: *y }),
    }
}

} // verus!
