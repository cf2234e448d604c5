//! The compositor's event loop: what is advertised to clients, and what each
//! turn of the loop has to do.

use vstd::prelude::*;

use crate::clipboard::ClipboardForwarder;
use crate::messages::Rect;
use crate::text::same;

verus! {

/// How long after the last activity the loop keeps its active pace, in
/// milliseconds.
pub const IDLE_GRACE_MS: u64 = 30_000;

/// How long an idle loop sleeps at most, in milliseconds.
pub const IDLE_POLL_TIMEOUT_MS: i32 = 1_000;

/// How long an active loop sleeps at most, in milliseconds. It caps the rate at
/// which frame callbacks are answered.
pub const ACTIVE_POLL_TIMEOUT_MS: i32 = 8;

/// Least time between two rounds of frame callbacks of an idle loop, in
/// milliseconds.
pub const IDLE_FRAME_INTERVAL_MS: u64 = 1_000;

/// Least time between two rounds of poking the clients' surfaces, in
/// milliseconds.
pub const POKE_INTERVAL_MS: u64 = 16;

/// Refresh rate of the virtual output in millihertz. It bounds the rate at which
/// an inner compositor hands over frames.
pub const VIRTUAL_OUTPUT_REFRESH_MHZ: i32 = 240_000;

/// Refresh period that presentation feedback reports, in nanoseconds: that of
/// [`VIRTUAL_OUTPUT_REFRESH_MHZ`], rounded.
pub const PRESENTATION_REFRESH_PERIOD_NS: u32 = 4_166_667;

/// Clock that presentation feedback is given in: the monotonic one.
pub const PRESENTATION_CLOCK_ID: u32 = 1;

/// Milliseconds of a monotonic time stamp.
pub fn monotonic_ms(sec: u64, nsec: u64) -> (r: u64)
    requires
        sec * 1000 + nsec as int / 1_000_000 <= u64::MAX,
    ensures
        r == sec * 1000 + nsec as int / 1_000_000,
{
    sec * 1_000 + nsec / 1_000_000
}

/// Milliseconds from `then` to `now`, and zero where `now` is earlier.
pub open spec fn elapsed(now: u64, then: u64) -> int {
    if now >= then {
        now - then
    } else {
        0
    }
}

fn since(now: u64, then: u64) -> (r: u64)
    ensures
        r == elapsed(now, then),
{
    if now >= then {
        now - then
    } else {
        0
    }
}

/// Paces frame callbacks and surface pokes.
#[derive(Clone, Copy, Debug, PartialEq, Eq, Structural)]
pub struct FramePacer {
    pub last_poke_ms: u64,
    pub last_drain_cb_ms: u64,
}

/// What one turn of the loop has to do after clients' requests were handled.
#[derive(Clone, Copy, Debug, PartialEq, Eq, Structural)]
pub struct Turn {
    /// Whether nothing has happened for long and nobody looks.
    pub idle: bool,
    /// Answer the frame callbacks and the presentation feedback that wait.
    pub drain: bool,
    /// Poke the clients' surfaces.
    pub poke: bool,
    /// How long to sleep at most, in milliseconds.
    pub timeout_ms: i32,
}

/// Whether the session is idle: nobody looks at its frames, and the last
/// activity is long past.
pub open spec fn is_idle(now: u64, has_consumer: bool, last_activity: u64) -> bool {
    !has_consumer && elapsed(now, last_activity) >= IDLE_GRACE_MS
}

impl FramePacer {
    /// A pacer that has done nothing yet.
    pub fn new() -> (r: FramePacer)
        ensures
            r.last_poke_ms == 0,
            r.last_drain_cb_ms == 0,
    {
        FramePacer { last_poke_ms: 0, last_drain_cb_ms: 0 }
    }

    /// What a turn at `now` has to do.
    pub open spec fn turn_at(self, now: u64, has_consumer: bool, last_activity: u64) -> Turn {
        let idle = is_idle(now, has_consumer, last_activity);
        Turn {
            idle,
            drain: elapsed(now, self.last_drain_cb_ms) >= if idle {
                IDLE_FRAME_INTERVAL_MS as int
            } else {
                0
            },
            poke: elapsed(now, self.last_poke_ms) >= POKE_INTERVAL_MS,
            timeout_ms: if idle {
                IDLE_POLL_TIMEOUT_MS
            } else {
                ACTIVE_POLL_TIMEOUT_MS
            },
        }
    }

    /// Decides what a turn at `now_ms` has to do, and notes that it is done.
    pub fn turn(&mut self, now_ms: u64, has_consumer: bool, last_activity_ms: u64) -> (r: Turn)
        ensures
            r == old(self).turn_at(now_ms, has_consumer, last_activity_ms),
            final(self).last_drain_cb_ms == if r.drain {
                now_ms
            } else {
                old(self).last_drain_cb_ms
            },
            final(self).last_poke_ms == if r.poke {
                now_ms
            } else {
                old(self).last_poke_ms
            },
    {
        let idle: bool = !has_consumer && since(now_ms, last_activity_ms) >= IDLE_GRACE_MS;
        let interval: u64 = if idle {
            IDLE_FRAME_INTERVAL_MS
        } else {
            0
        };
        let drain: bool = since(now_ms, self.last_drain_cb_ms) >= interval;
        if drain {
            self.last_drain_cb_ms = now_ms;
        }
        let poke: bool = since(now_ms, self.last_poke_ms) >= POKE_INTERVAL_MS;
        if poke {
            self.last_poke_ms = now_ms;
        }
        let timeout_ms: i32 = if idle {
            IDLE_POLL_TIMEOUT_MS
        } else {
            ACTIVE_POLL_TIMEOUT_MS
        };
        Turn { idle, drain, poke, timeout_ms }
    }
}

/// How accepting a connection went.
#[derive(Clone, Copy, Debug, PartialEq, Eq, Structural)]
pub enum Accepted {
    /// A connection, and whether its client could be entered.
    Client { entered: bool },
    WouldBlock,
    Failed,
}

/// Whether to look for another connection, and whether what was found counts as
/// activity.
pub fn accept_step(accepted: Accepted) -> (r: (bool, bool))
    ensures
        r.0 == (accepted is Client),
        r.1 == (accepted == Accepted::Client { entered: true }),
{
    match accepted {
        Accepted::Client { entered } => (true, entered),
        Accepted::WouldBlock => (false, false),
        Accepted::Failed => (false, false),
    }
}

/// Whether explicit synchronisation is switched off by the setting of that
/// value.
pub fn syncobj_disabled(value: Option<&str>) -> (r: bool)
    ensures
        r == match value {
            Some(v) => v@ != "0"@ && v@.len() > 0,
            None => false,
        },
{
    match value {
        Some(v) => {
            proof {
                reveal_strlit("");
            }
            assert(v@.len() == 0 ==> v@ =~= ""@);
            !same(v, "0") && !same(v, "")
        },
        None => false,
    }
}

/// Numbers that events are told apart by.
#[derive(Clone, Copy, Debug, PartialEq, Eq, Structural)]
pub struct Serials {
    pub next: u32,
}

impl Serials {
    /// Numbers from one on.
    pub fn new() -> (r: Serials)
        ensures
            r.next == 1,
    {
        Serials { next: 1 }
    }

    /// The next number. After the largest one they start over.
    pub fn next_serial(&mut self) -> (r: u32)
        ensures
            r == old(self).next,
            final(self).next == if old(self).next == u32::MAX {
                0
            } else {
                (old(self).next + 1) as u32
            },
    {
        let n: u32 = self.next;
        self.next = n.wrapping_add(1);
        n
    }
}

/// An interface that clients can bind.
#[derive(Clone, Copy, Debug, PartialEq, Eq, Structural)]
pub enum Interface {
    WlCompositor,
    WlSubcompositor,
    WlShm,
    WlSeat,
    WlOutput,
    XdgWmBase,
    WlDataDeviceManager,
    ZwpLinuxDmabufV1,
    WlDrm,
    WpSinglePixelBufferManagerV1,
    WpViewporter,
    ZwpKeyboardShortcutsInhibitManagerV1,
    WpPresentation,
    ZxdgDecorationManagerV1,
    WpFractionalScaleManagerV1,
    ZwpPrimarySelectionDeviceManagerV1,
    ZwpPointerConstraintsV1,
    ZwpRelativePointerManagerV1,
    ZwpTextInputManagerV3,
    ZwlrLayerShellV1,
    ZxdgOutputManagerV1,
    XdgActivationV1,
    ExtIdleNotifierV1,
    WpLinuxDrmSyncobjManagerV1,
    WpAlphaModifierV1,
    ZxdgExporterV2,
    ZxdgImporterV2,
    OrgKdePlasmaWindowManagement,
    ZwlrScreencopyManagerV1,
}

/// An interface with the version that is advertised.
#[derive(Clone, Copy, Debug, PartialEq, Eq, Structural)]
pub struct Global {
    pub interface: Interface,
    pub version: u32,
}

/// The version that an interface is advertised with.
pub open spec fn advertised_version(interface: Interface) -> u32 {
    match interface {
        Interface::WlCompositor => 6,
        Interface::WlSeat => 7,
        Interface::WlOutput => 4,
        Interface::XdgWmBase => 5,
        Interface::WlDataDeviceManager => 3,
        Interface::ZwpLinuxDmabufV1 => 5,
        Interface::WlDrm => 2,
        Interface::ZwlrLayerShellV1 => 4,
        Interface::ZxdgOutputManagerV1 => 3,
        Interface::OrgKdePlasmaWindowManagement => 8,
        Interface::ZwlrScreencopyManagerV1 => 3,
        _ => 1,
    }
}

fn version_of(interface: Interface) -> (r: u32)
    ensures
        r == advertised_version(interface),
{
    match interface {
        Interface::WlCompositor => 6,
        Interface::WlSeat => 7,
        Interface::WlOutput => 4,
        Interface::XdgWmBase => 5,
        Interface::WlDataDeviceManager => 3,
        Interface::ZwpLinuxDmabufV1 => 5,
        Interface::WlDrm => 2,
        Interface::ZwlrLayerShellV1 => 4,
        Interface::ZxdgOutputManagerV1 => 3,
        Interface::OrgKdePlasmaWindowManagement => 8,
        Interface::ZwlrScreencopyManagerV1 => 3,
        _ => 1,
    }
}

/// The interfaces that are advertised before explicit synchronisation, in order.
pub open spec fn leading_interfaces() -> Seq<Interface> {
    seq![
        Interface::WlCompositor,
        Interface::WlSubcompositor,
        Interface::WlShm,
        Interface::WlSeat,
        Interface::WlOutput,
        Interface::XdgWmBase,
        Interface::WlDataDeviceManager,
        Interface::ZwpLinuxDmabufV1,
        Interface::WlDrm,
        Interface::WpSinglePixelBufferManagerV1,
        Interface::WpViewporter,
        Interface::ZwpKeyboardShortcutsInhibitManagerV1,
        Interface::WpPresentation,
        Interface::ZxdgDecorationManagerV1,
        Interface::WpFractionalScaleManagerV1,
        Interface::ZwpPrimarySelectionDeviceManagerV1,
        Interface::ZwpPointerConstraintsV1,
        Interface::ZwpRelativePointerManagerV1,
        Interface::ZwpTextInputManagerV3,
        Interface::ZwlrLayerShellV1,
        Interface::ZxdgOutputManagerV1,
        Interface::XdgActivationV1,
        Interface::ExtIdleNotifierV1,
    ]
}

/// The interfaces that are advertised after it, in order.
pub open spec fn trailing_interfaces() -> Seq<Interface> {
    seq![
        Interface::WpAlphaModifierV1,
        Interface::ZxdgExporterV2,
        Interface::ZxdgImporterV2,
        Interface::OrgKdePlasmaWindowManagement,
        Interface::ZwlrScreencopyManagerV1,
    ]
}

/// Every interface that is advertised, in order.
pub open spec fn advertised_interfaces(syncobj: bool) -> Seq<Interface> {
    if syncobj {
        leading_interfaces().push(Interface::WpLinuxDrmSyncobjManagerV1) + trailing_interfaces()
    } else {
        leading_interfaces() + trailing_interfaces()
    }
}

fn interfaces(syncobj: bool) -> (r: Vec<Interface>)
    ensures
        r@ == advertised_interfaces(syncobj),
{
    let mut v: Vec<Interface> = Vec::new();
    v.push(Interface::WlCompositor);
    v.push(Interface::WlSubcompositor);
    v.push(Interface::WlShm);
    v.push(Interface::WlSeat);
    v.push(Interface::WlOutput);
    v.push(Interface::XdgWmBase);
    v.push(Interface::WlDataDeviceManager);
    v.push(Interface::ZwpLinuxDmabufV1);
    v.push(Interface::WlDrm);
    v.push(Interface::WpSinglePixelBufferManagerV1);
    v.push(Interface::WpViewporter);
    v.push(Interface::ZwpKeyboardShortcutsInhibitManagerV1);
    v.push(Interface::WpPresentation);
    v.push(Interface::ZxdgDecorationManagerV1);
    v.push(Interface::WpFractionalScaleManagerV1);
    v.push(Interface::ZwpPrimarySelectionDeviceManagerV1);
    v.push(Interface::ZwpPointerConstraintsV1);
    v.push(Interface::ZwpRelativePointerManagerV1);
    v.push(Interface::ZwpTextInputManagerV3);
    v.push(Interface::ZwlrLayerShellV1);
    v.push(Interface::ZxdgOutputManagerV1);
    v.push(Interface::XdgActivationV1);
    v.push(Interface::ExtIdleNotifierV1);
    assert(v@ =~= leading_interfaces());
    if syncobj {
        v.push(Interface::WpLinuxDrmSyncobjManagerV1);
    }
    v.push(Interface::WpAlphaModifierV1);
    v.push(Interface::ZxdgExporterV2);
    v.push(Interface::ZxdgImporterV2);
    v.push(Interface::OrgKdePlasmaWindowManagement);
    v.push(Interface::ZwlrScreencopyManagerV1);
    assert(v@ =~= advertised_interfaces(syncobj));
    v
}

/// What is advertised to clients. Explicit synchronisation is only where there
/// is a device for it.
pub fn globals(syncobj: bool) -> (r: Vec<Global>)
    ensures
        r@.len() == advertised_interfaces(syncobj).len(),
        forall|i: int|
            0 <= i < r@.len() ==> #[trigger] r@[i] == (Global {
                interface: advertised_interfaces(syncobj)[i],
                version: advertised_version(advertised_interfaces(syncobj)[i]),
            }),
{
    let names: Vec<Interface> = interfaces(syncobj);
    let n: usize = names.len();
    let mut r: Vec<Global> = Vec::new();
    let mut i: usize = 0;
    while i < n
        invariant
            i <= n == names@.len(),
            names@ == advertised_interfaces(syncobj),
            r@.len() == i,
            forall|k: int|
                0 <= k < i ==> #[trigger] r@[k] == (Global {
                    interface: names@[k],
                    version: advertised_version(names@[k]),
                }),
        decreases n - i,
    {
        let interface: Interface = names[i];
        r.push(Global { interface, version: version_of(interface) });
        i = i + 1;
    }
    r
}

/// State of the compositor's loop.
#[derive(Debug)]
pub struct Compositor {
    pub pacer: FramePacer,
    pub serials: Serials,
    pub clipboard: ClipboardForwarder,
    /// The device for explicit synchronisation, where there is one.
    pub syncobj_device: Option<u64>,
}

impl Compositor {
    /// A compositor at its start.
    pub fn new(syncobj_device: Option<u64>) -> (r: Compositor)
        ensures
            r.pacer == (FramePacer { last_poke_ms: 0, last_drain_cb_ms: 0 }),
            r.serials.next == 1,
            r.clipboard.last_sent == 0,
            r.syncobj_device == syncobj_device,
    {
        Compositor {
            pacer: FramePacer::new(),
            serials: Serials::new(),
            clipboard: ClipboardForwarder::new(),
            syncobj_device,
        }
    }

    /// Decides whether a client may bring in a timeline. `imported` is the handle
    /// that the device gave for it.
    pub fn import_timeline(&self, imported: Option<u64>) -> (r: Result<u64, &'static str>)
        ensures
            match r {
                Ok(h) => self.syncobj_device is Some && imported == Some(h),
                Err(e) => if self.syncobj_device is None {
                    e@ == "syncobj device unavailable"@
                } else {
                    imported is None && e@ == "FD_TO_HANDLE failed"@
                },
            },
    {
        if self.syncobj_device.is_none() {
            return Err("syncobj device unavailable");
        }
        match imported {
            Some(h) => Ok(h),
            None => Err("FD_TO_HANDLE failed"),
        }
    }
}

/// What a new toplevel window is registered and configured with.
#[derive(Clone, Copy, Debug, PartialEq, Eq, Structural)]
pub struct NewToplevel {
    pub pid: i32,
    pub geometry: Rect,
    pub serial: u32,
}

impl Compositor {
    /// A new toplevel fills the output. A process that cannot be found out is
    /// minus one.
    pub fn get_toplevel(&mut self, pid: Option<i32>, width: u32, height: u32) -> (r: NewToplevel)
        ensures
            r.pid == match pid {
                Some(p) => p,
                None => -1i32,
            },
            r.geometry == (Rect { x: 0, y: 0, width, height }),
            r.serial == old(self).serials.next,
            final(self).serials.next == if old(self).serials.next == u32::MAX {
                0
            } else {
                (old(self).serials.next + 1) as u32
            },
            *final(self) == (Compositor { serials: final(self).serials, ..*old(self) }),
    {
        let serial: u32 = self.serials.next_serial();
        NewToplevel {
            pid: match pid {
                Some(p) => p,
                None => -1,
            },
            geometry: Rect { x: 0, y: 0, width, height },
            serial,
        }
    }
}

/// While somebody looks at the frames, or something happened lately, frame
/// callbacks are answered in every turn.
pub proof fn active_sessions_are_not_throttled(
    pacer: FramePacer,
    now: u64,
    has_consumer: bool,
    last_activity: u64,
)
    requires
        has_consumer || elapsed(now, last_activity) < IDLE_GRACE_MS,
    ensures
        pacer.turn_at(now, has_consumer, last_activity).drain,
        pacer.turn_at(now, has_consumer, last_activity).timeout_ms == ACTIVE_POLL_TIMEOUT_MS,
{
}

/// An idle session answers frame callbacks at most once a second.
pub proof fn idle_sessions_are_throttled(
    pacer: FramePacer,
    now: u64,
    has_consumer: bool,
    last_activity: u64,
)
    requires
        is_idle(now, has_consumer, last_activity),
        pacer.turn_at(now, has_consumer, last_activity).drain,
    ensures
        now >= pacer.last_drain_cb_ms + IDLE_FRAME_INTERVAL_MS,
{
}

/// The advertised refresh rate and the reported refresh period belong together:
/// the period is the one of the rate, rounded to the nearest nanosecond.
pub proof fn refresh_period_matches_rate()
    ensures
        2 * (PRESENTATION_REFRESH_PERIOD_NS * VIRTUAL_OUTPUT_REFRESH_MHZ - 1_000_000_000_000)
            <= VIRTUAL_OUTPUT_REFRESH_MHZ,
        2 * (1_000_000_000_000 - PRESENTATION_REFRESH_PERIOD_NS * VIRTUAL_OUTPUT_REFRESH_MHZ)
            <= VIRTUAL_OUTPUT_REFRESH_MHZ,
{
    assert(4_166_667 * 240_000 == 1_000_000_080_000) by (nonlinear_arith);
}

/// Explicit synchronisation is advertised exactly where there is a device for
/// it.
pub proof fn syncobj_is_advertised_with_a_device(syncobj: bool)
    ensures
        advertised_interfaces(syncobj).contains(Interface::WpLinuxDrmSyncobjManagerV1) <==> syncobj,
{
    if syncobj {
        assert(advertised_interfaces(true)[leading_interfaces().len() as int]
            == Interface::WpLinuxDrmSyncobjManagerV1);
    } else {
        assert forall|i: int| 0 <= i < advertised_interfaces(false).len() implies #[trigger]
        advertised_interfaces(false)[i] != Interface::WpLinuxDrmSyncobjManagerV1 by {
            let n = leading_interfaces().len() as int;
            if i < n {
                assert(advertised_interfaces(false)[i] == leading_interfaces()[i]);
            } else {
                assert(advertised_interfaces(false)[i] == trailing_interfaces()[i - n]);
            }
        }
    }
}

/// Frame callbacks are answered in every turn while somebody looks or something
/// happened in the last half minute; else at most once a second. Surfaces are poked
/// at most every sixteen milliseconds. An active loop sleeps up to eight
/// milliseconds, an idle one up to a second. What was done is what the next turn
/// counts from.
pub proof fn turns_keep_their_pace(
    now: u64,
    has_consumer: bool,
    last_activity: u64,
    r: Turn,
)
    requires
        last_activity <= now,
    ensures
        forall|m: &mut FramePacer|
            m.last_drain_cb_ms <= now && m.last_poke_ms <= now && #[trigger] call_ensures(
                FramePacer::turn,
                (m, now, has_consumer, last_activity),
                r,
            ) ==> {
                &&& r.idle <==> !has_consumer && now - last_activity >= 30_000
                &&& !r.idle ==> r.drain && r.timeout_ms == 8
                &&& r.idle ==> (r.drain <==> now - m.last_drain_cb_ms >= 1_000) && r.timeout_ms
                    == 1_000
                &&& r.poke <==> now - m.last_poke_ms >= 16
                &&& r.drain ==> final(m).last_drain_cb_ms == now
                &&& !r.drain ==> final(m).last_drain_cb_ms == m.last_drain_cb_ms
                &&& r.poke ==> final(m).last_poke_ms == now
                &&& !r.poke ==> final(m).last_poke_ms == m.last_poke_ms
            },
{
}

/// Two turns at the same time poke once.
pub proof fn pokes_do_not_repeat_at_once(
    now: u64,
    has_consumer: bool,
    last_activity: u64,
    r: Turn,
    again: Turn,
)
    ensures
        forall|a: &mut FramePacer, b: &mut FramePacer|
            *b == *final(a) && r.poke && #[trigger] call_ensures(
                FramePacer::turn,
                (a, now, has_consumer, last_activity),
                r,
            ) && #[trigger] call_ensures(
                FramePacer::turn,
                (b, now, has_consumer, last_activity),
                again,
            ) ==> !again.poke,
{
}

/// Serials are handed out one after the other, and after the largest they start
/// over: no two that follow each other are the same.
pub proof fn serials_follow_each_other(r: u32, again: u32)
    ensures
        forall|a: &mut Serials, b: &mut Serials|
            *b == *final(a) && #[trigger] call_ensures(Serials::next_serial, (a,), r) && #[trigger]
            call_ensures(Serials::next_serial, (b,), again) ==> r == a.next && (r < u32::MAX
                ==> again == r + 1) && (r == u32::MAX ==> again == 0),
{
}

/// Each interface is advertised in the version that is spoken, the compositor's
/// own first; explicit synchronisation adds one to their number.
pub proof fn interfaces_are_advertised_in_their_versions(syncobj: bool, r: Vec<Global>, i: int)
    requires
        call_ensures(globals, (syncobj,), r),
        0 <= i < r@.len(),
    ensures
        r@.len() == if syncobj {
            29nat
        } else {
            28nat
        },
        r@[i].interface == Interface::WlCompositor ==> r@[i].version == 6,
        r@[i].interface == Interface::WlShm ==> r@[i].version == 1,
        r@[i].interface == Interface::WlSeat ==> r@[i].version == 7,
        r@[i].interface == Interface::WlOutput ==> r@[i].version == 4,
        r@[i].interface == Interface::XdgWmBase ==> r@[i].version == 5,
        r@[i].interface == Interface::WlDataDeviceManager ==> r@[i].version == 3,
        r@[i].interface == Interface::ZwpLinuxDmabufV1 ==> r@[i].version == 5,
        r@[i].interface == Interface::WlDrm ==> r@[i].version == 2,
        r@[i].interface == Interface::ZwlrLayerShellV1 ==> r@[i].version == 4,
        r@[i].interface == Interface::ZxdgOutputManagerV1 ==> r@[i].version == 3,
        r@[i].interface == Interface::OrgKdePlasmaWindowManagement ==> r@[i].version == 8,
        r@[i].interface == Interface::ZwlrScreencopyManagerV1 ==> r@[i].version == 3,
        r@[i].interface == Interface::WpPresentation ==> r@[i].version == 1,
        r@[i].interface == Interface::WpViewporter ==> r@[i].version == 1,
        r@[i].interface == Interface::WpLinuxDrmSyncobjManagerV1 ==> r@[i].version == 1 && syncobj,
        r@[0].interface == Interface::WlCompositor,
        r@.last().interface == Interface::ZwlrScreencopyManagerV1,
{
}

/// No interface is advertised twice.
pub proof fn interfaces_are_advertised_once(syncobj: bool, i: int, j: int)
    requires
        0 <= i < j < advertised_interfaces(syncobj).len(),
    ensures
        advertised_interfaces(syncobj)[i] != advertised_interfaces(syncobj)[j],
{
    lemma_rank(syncobj, i);
    lemma_rank(syncobj, j);
}

/// Place of an interface in the list with explicit synchronisation.
pub open spec fn rank(interface: Interface) -> int {
    match interface {
        Interface::WlCompositor => 0,
        Interface::WlSubcompositor => 1,
        Interface::WlShm => 2,
        Interface::WlSeat => 3,
        Interface::WlOutput => 4,
        Interface::XdgWmBase => 5,
        Interface::WlDataDeviceManager => 6,
        Interface::ZwpLinuxDmabufV1 => 7,
        Interface::WlDrm => 8,
        Interface::WpSinglePixelBufferManagerV1 => 9,
        Interface::WpViewporter => 10,
        Interface::ZwpKeyboardShortcutsInhibitManagerV1 => 11,
        Interface::WpPresentation => 12,
        Interface::ZxdgDecorationManagerV1 => 13,
        Interface::WpFractionalScaleManagerV1 => 14,
        Interface::ZwpPrimarySelectionDeviceManagerV1 => 15,
        Interface::ZwpPointerConstraintsV1 => 16,
        Interface::ZwpRelativePointerManagerV1 => 17,
        Interface::ZwpTextInputManagerV3 => 18,
        Interface::ZwlrLayerShellV1 => 19,
        Interface::ZxdgOutputManagerV1 => 20,
        Interface::XdgActivationV1 => 21,
        Interface::ExtIdleNotifierV1 => 22,
        Interface::WpLinuxDrmSyncobjManagerV1 => 23,
        Interface::WpAlphaModifierV1 => 24,
        Interface::ZxdgExporterV2 => 25,
        Interface::ZxdgImporterV2 => 26,
        Interface::OrgKdePlasmaWindowManagement => 27,
        Interface::ZwlrScreencopyManagerV1 => 28,
    }
}

proof fn lemma_rank(syncobj: bool, i: int)
    requires
        0 <= i < advertised_interfaces(syncobj).len(),
    ensures
        rank(advertised_interfaces(syncobj)[i]) == if !syncobj && i >= 23 {
            i + 1
        } else {
            i
        },
{
}

/// A toplevel fills the output from its origin on, under a serial of its own; a
/// process that cannot be found out is minus one.
pub proof fn toplevels_fill_the_output(pid: Option<i32>, width: u32, height: u32, r: NewToplevel)
    ensures
        forall|m: &mut Compositor|
            #[trigger] call_ensures(Compositor::get_toplevel, (m, pid, width, height), r) ==> {
                &&& r.geometry.x == 0 && r.geometry.y == 0
                &&& r.geometry.width == width && r.geometry.height == height
                &&& pid is Some ==> r.pid == pid->0
                &&& pid is None ==> r.pid == -1
                &&& r.serial == m.serials.next
                &&& final(m).serials.next != r.serial
                &&& final(m).syncobj_device == m.syncobj_device
            },
{
}

/// A timeline is brought in exactly where there is a device that gave a handle for
/// it.
pub proof fn timelines_need_a_device(
    c: Compositor,
    imported: Option<u64>,
    r: Result<u64, &'static str>,
)
    requires
        call_ensures(Compositor::import_timeline, (&c, imported), r),
    ensures
        r is Ok <==> c.syncobj_device is Some && imported is Some,
        r matches Ok(h) ==> imported == Some(h),
{
}

/// Explicit synchronisation is switched off by any setting but an empty one and
/// zero.
pub proof fn sync_is_switched_off_by_a_setting(value: Option<&str>, r: bool)
    requires
        call_ensures(syncobj_disabled, (value,), r),
    ensures
        value is None ==> !r,
        value matches Some(v) ==> v@.len() == 0 || v@ == "0"@ ==> !r,
        value matches Some(v) ==> v@.len() > 0 && v@ != "0"@ ==> r,
{
}

/// Connections are looked for while there are any, and one counts as activity
/// exactly where its client could be entered.
pub proof fn connections_count_once_entered(accepted: Accepted, r: (bool, bool))
    requires
        call_ensures(accept_step, (accepted,), r),
    ensures
        accepted matches Accepted::Client { entered } ==> r.0 && (r.1 <==> entered),
        accepted is WouldBlock || accepted is Failed ==> !r.0 && !r.1,
{
}

/// A time stamp in milliseconds is less than one short of its seconds and
/// nanoseconds.
pub proof fn milliseconds_are_rounded_down(sec: u64, nsec: u64, r: u64)
    requires
        sec * 1000 + nsec as int / 1_000_000 <= u64::MAX,
        call_ensures(monotonic_ms, (sec, nsec), r),
    ensures
        r * 1_000_000 <= sec * 1_000_000_000 + nsec < (r + 1) * 1_000_000,
{
}

/// A compositor starts with serial one and nothing paced or forwarded; activity in
/// the future counts as just now.
pub proof fn compositors_start_fresh(
    device: Option<u64>,
    c: Compositor,
    now: u64,
    last_activity: u64,
    r: Turn,
)
    requires
        call_ensures(Compositor::new, (device,), c),
    ensures
        c.serials.next == 1,
        c.pacer.last_poke_ms == 0 && c.pacer.last_drain_cb_ms == 0,
        c.clipboard.last_sent == 0,
        c.syncobj_device == device,
        forall|m: &mut FramePacer|
            last_activity > now && #[trigger] call_ensures(
                FramePacer::turn,
                (m, now, false, last_activity),
                r,
            ) ==> !r.idle && r.drain,
{
}

} // verus!
