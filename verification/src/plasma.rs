//! Window list for a desktop shell's task bar.
//!
//! A window's unique name is its number in decimal.

use vstd::prelude::*;
use vstd::string::*;

use crate::messages::{Rect, WindowInfo};
use crate::text::{dec_u64, parse};
#[allow(unused_imports)]
use crate::text::{decimal, decimal_reads_back, parsed};

verus! {

/// The window that a task bar entry stands for.
#[derive(Clone, Copy, Debug, PartialEq, Eq, Structural)]
pub struct PlasmaWindowData {
    pub window_id: u32,
}

/// An event on the list.
#[derive(Clone, Copy, Debug, PartialEq, Eq, Structural)]
pub enum ManagerEvent {
    /// Whether the windows are hidden to show the desktop: zero, they are not.
    ShowDesktopChanged(u32),
    Window(u32),
    /// The window, with its unique name.
    WindowWithUuid(u32),
    /// An empty stacking order.
    StackingOrderChanged,
    /// An empty stacking order of unique names.
    StackingOrderUuidChanged,
}

/// Unique name of a window.
pub fn window_uuid(window_id: u32) -> (r: String)
    ensures
        r@ == decimal(window_id as int),
{
    dec_u64(window_id as u64)
}

/// The window of that unique name. What is no name stands for window zero, which
/// does not exist.
pub fn window_of_uuid(uuid: &str) -> (r: PlasmaWindowData)
    ensures
        r.window_id == match parsed(uuid@, u32::MAX as u64) {
            Some(n) => n,
            None => 0,
        },
{
    PlasmaWindowData {
        window_id: match parse(uuid, u32::MAX as u64) {
            Some(n) => n as u32,
            None => 0,
        },
    }
}

/// The windows that exist when the list is bound.
pub open spec fn replayed(ids: Seq<u32>, version: u32, n: int) -> Seq<ManagerEvent>
    decreases n,
{
    if n <= 0 {
        Seq::empty()
    } else {
        let w = ids[n - 1];
        let last = if version >= 13 {
            seq![ManagerEvent::Window(w), ManagerEvent::WindowWithUuid(w)]
        } else {
            seq![ManagerEvent::Window(w)]
        };
        replayed(ids, version, n - 1) + last
    }
}

/// What a client is told that binds the list.
pub open spec fn bound(ids: Seq<u32>, version: u32) -> Seq<ManagerEvent> {
    let order: Seq<ManagerEvent> = if version >= 12 {
        seq![ManagerEvent::StackingOrderChanged, ManagerEvent::StackingOrderUuidChanged]
    } else if version >= 11 {
        seq![ManagerEvent::StackingOrderChanged]
    } else {
        Seq::empty()
    };
    seq![ManagerEvent::ShowDesktopChanged(0)] + replayed(ids, version, ids.len() as int) + order
}

/// What a client is told that binds the list while these windows exist.
pub fn bind(ids: &Vec<u32>, version: u32) -> (r: Vec<ManagerEvent>)
    ensures
        r@ == bound(ids@, version),
{
    let mut v: Vec<ManagerEvent> = Vec::new();
    v.push(ManagerEvent::ShowDesktopChanged(0));
    let n: usize = ids.len();
    let ghost first = seq![ManagerEvent::ShowDesktopChanged(0)];
    assert(v@ =~= first + replayed(ids@, version, 0));
    let mut i: usize = 0;
    while i < n
        invariant
            i <= n == ids@.len(),
            v@ == first + replayed(ids@, version, i as int),
        decreases n - i,
    {
        let w: u32 = ids[i];
        v.push(ManagerEvent::Window(w));
        if version >= 13 {
            v.push(ManagerEvent::WindowWithUuid(w));
        }
        i = i + 1;
        assert(v@ =~= first + replayed(ids@, version, i as int));
    }
    if version >= 11 {
        v.push(ManagerEvent::StackingOrderChanged);
    }
    if version >= 12 {
        v.push(ManagerEvent::StackingOrderUuidChanged);
    }
    assert(v@ =~= bound(ids@, version));
    v
}

/// An event on an entry.
#[derive(Clone, Copy, Debug, PartialEq, Eq, Structural)]
pub enum WindowEvent {
    /// The window's own title.
    TitleChanged,
    /// The window's own application id.
    AppIdChanged,
    PidChanged(u32),
    Geometry(Rect),
    /// Bit set of what can be done with the window.
    StateChanged(u32),
    Unmapped,
    /// The entry has been described in full.
    InitialState,
}

/// A window that can be closed and maximised.
pub const WINDOW_FLAGS: u32 = 0x500;

/// What a client is told about a window that exists.
pub open spec fn described(info: WindowInfo, version: u32) -> Seq<WindowEvent> {
    let title: Seq<WindowEvent> = if info.title@.len() > 0 {
        seq![WindowEvent::TitleChanged]
    } else {
        Seq::empty()
    };
    let app: Seq<WindowEvent> = if info.app_id@.len() > 0 {
        seq![WindowEvent::AppIdChanged]
    } else {
        Seq::empty()
    };
    let pid: Seq<WindowEvent> = if version >= 4 {
        seq![WindowEvent::PidChanged(info.pid as u32)]
    } else {
        Seq::empty()
    };
    let geometry: Seq<WindowEvent> = if version >= 6 {
        seq![WindowEvent::Geometry(info.geometry)]
    } else {
        Seq::empty()
    };
    let done: Seq<WindowEvent> = if version >= 4 {
        seq![WindowEvent::InitialState]
    } else {
        Seq::empty()
    };
    title + app + pid + geometry + seq![WindowEvent::StateChanged(WINDOW_FLAGS)] + done
}

/// What a client is told about a window that does not exist.
pub open spec fn described_missing(version: u32) -> Seq<WindowEvent> {
    if version >= 4 {
        seq![WindowEvent::Unmapped, WindowEvent::InitialState]
    } else {
        seq![WindowEvent::Unmapped]
    }
}

/// Whether `i` is the first position of a window of that number, or the length of
/// the list where there is none.
pub open spec fn first_window(windows: Seq<WindowInfo>, id: u32, i: int) -> bool {
    &&& 0 <= i <= windows.len()
    &&& forall|k: int| 0 <= k < i ==> (#[trigger] windows[k]).id != id
    &&& i < windows.len() ==> windows[i].id == id
}

fn describe(info: &WindowInfo, version: u32) -> (r: Vec<WindowEvent>)
    ensures
        r@ == described(*info, version),
{
    let mut v: Vec<WindowEvent> = Vec::new();
    if info.title.as_str().unicode_len() > 0 {
        v.push(WindowEvent::TitleChanged);
    }
    if info.app_id.as_str().unicode_len() > 0 {
        v.push(WindowEvent::AppIdChanged);
    }
    if version >= 4 {
        v.push(WindowEvent::PidChanged(info.pid as u32));
    }
    if version >= 6 {
        v.push(WindowEvent::Geometry(info.geometry));
    }
    v.push(WindowEvent::StateChanged(WINDOW_FLAGS));
    if version >= 4 {
        v.push(WindowEvent::InitialState);
    }
    assert(v@ =~= described(*info, version));
    v
}

/// What a client is told about an entry, and the window that it stands for. An
/// entry for a window that does not exist is described as unmapped, so that its
/// client does not wait for it.
pub fn send_plasma_window_initial_state(windows: &Vec<WindowInfo>, window_id: u32, version: u32) -> (r: (
    Option<usize>,
    Vec<WindowEvent>,
))
    ensures
        match r.0 {
            Some(i) => i < windows@.len() && first_window(windows@, window_id, i as int) && r.1@
                == described(windows@[i as int], version),
            None => first_window(windows@, window_id, windows@.len() as int) && r.1@
                == described_missing(version),
        },
{
    let n: usize = windows.len();
    let mut i: usize = 0;
    while i < n
        invariant
            i <= n == windows@.len(),
            forall|k: int| 0 <= k < i ==> (#[trigger] windows@[k]).id != window_id,
        decreases n - i,
    {
        if windows[i].id == window_id {
            return (Some(i), describe(&windows[i], version));
        }
        i = i + 1;
    }
    let mut v: Vec<WindowEvent> = Vec::new();
    v.push(WindowEvent::Unmapped);
    if version >= 4 {
        v.push(WindowEvent::InitialState);
    }
    assert(v@ =~= described_missing(version));
    (None, v)
}

/// A window's unique name leads back to the window.
pub proof fn uuids_lead_back(window_id: u32)
    ensures
        parsed(decimal(window_id as int), u32::MAX as u64) == Some(window_id as u64),
{
    decimal_reads_back(window_id as u64, u32::MAX as u64);
}

/// From the fourth version on every entry is described to its end, whether or
/// not its window exists: a client never waits for it.
pub proof fn entries_are_always_completed(info: WindowInfo, version: u32)
    requires
        version >= 4,
    ensures
        described(info, version).last() == WindowEvent::InitialState,
        described_missing(version).last() == WindowEvent::InitialState,
{
}

/// A client that binds the list is told of every window that exists, in order,
/// and that the desktop is not shown; names come with the windows from the
/// thirteenth version on.
pub proof fn every_window_is_told(ids: Vec<u32>, version: u32, r: Vec<ManagerEvent>, i: int)
    requires
        call_ensures(bind, (&ids, version), r),
        0 <= i < ids@.len(),
    ensures
        r@[0] == ManagerEvent::ShowDesktopChanged(0),
        version < 13 ==> r@[1 + i] == ManagerEvent::Window(ids@[i]),
        version >= 13 ==> r@[1 + 2 * i] == ManagerEvent::Window(ids@[i]) && r@[2 + 2 * i]
            == ManagerEvent::WindowWithUuid(ids@[i]),
        version < 11 ==> r@.len() == 1 + ids@.len(),
        version == 11 ==> r@.len() == 2 + ids@.len() && r@.last()
            == ManagerEvent::StackingOrderChanged,
        version == 12 ==> r@.len() == 3 + ids@.len(),
        version >= 13 ==> r@.len() == 3 + 2 * ids@.len(),
        version >= 12 ==> r@[r@.len() - 2] == ManagerEvent::StackingOrderChanged && r@.last()
            == ManagerEvent::StackingOrderUuidChanged,
{
    lemma_replayed(ids@, version, ids@.len() as int, i);
}

proof fn lemma_replayed(ids: Seq<u32>, version: u32, n: int, i: int)
    requires
        0 <= i < n <= ids.len(),
    ensures
        version < 13 ==> replayed(ids, version, n).len() == n && replayed(ids, version, n)[i]
            == ManagerEvent::Window(ids[i]),
        version >= 13 ==> replayed(ids, version, n).len() == 2 * n && replayed(ids, version, n)[2
            * i] == ManagerEvent::Window(ids[i]) && replayed(ids, version, n)[2 * i + 1]
            == ManagerEvent::WindowWithUuid(ids[i]),
    decreases n,
{
    if i < n - 1 {
        lemma_replayed(ids, version, n - 1, i);
    } else if n > 1 {
        lemma_replayed(ids, version, n - 1, 0);
    } else {
        assert(replayed(ids, version, 0).len() == 0);
    }
}

/// An entry is described by the first window of its number: its title and its
/// application where it has them, its process and its place from the versions on
/// that know them, and what can be done with it. Without such a window it is
/// described as unmapped.
pub proof fn entries_describe_their_window(
    windows: Vec<WindowInfo>,
    window_id: u32,
    version: u32,
    r: (Option<usize>, Vec<WindowEvent>),
)
    requires
        call_ensures(send_plasma_window_initial_state, (&windows, window_id, version), r),
    ensures
        r.0 is None <==> forall|k: int|
            0 <= k < windows@.len() ==> (#[trigger] windows@[k]).id != window_id,
        r.0 is None ==> r.1@[0] == WindowEvent::Unmapped,
        r.0 matches Some(i) ==> {
            let w = windows@[i as int];
            &&& w.id == window_id
            &&& forall|k: int| 0 <= k < i ==> (#[trigger] windows@[k]).id != window_id
            &&& r.1@.contains(WindowEvent::StateChanged(0x500))
            &&& r.1@.contains(WindowEvent::TitleChanged) <==> w.title@.len() > 0
            &&& r.1@.contains(WindowEvent::AppIdChanged) <==> w.app_id@.len() > 0
            &&& version >= 6 ==> r.1@.contains(WindowEvent::Geometry(w.geometry))
            &&& version >= 4 && w.pid >= 0 ==> r.1@.contains(WindowEvent::PidChanged(w.pid as u32))
            &&& !r.1@.contains(WindowEvent::Unmapped)
        },
{
    if let Some(i) = r.0 {
        let w = windows@[i as int];
        let d = r.1@;
        let t: int = if w.title@.len() > 0 {
            1
        } else {
            0
        };
        let a: int = if w.app_id@.len() > 0 {
            1
        } else {
            0
        };
        let p: int = if version >= 4 {
            1
        } else {
            0
        };
        let g: int = if version >= 6 {
            1
        } else {
            0
        };
        if t == 1 {
            assert(d[0] == WindowEvent::TitleChanged);
        }
        if a == 1 {
            assert(d[t] == WindowEvent::AppIdChanged);
        }
        if p == 1 {
            assert(d[t + a] == WindowEvent::PidChanged(w.pid as u32));
        }
        if g == 1 {
            assert(d[t + a + p] == WindowEvent::Geometry(w.geometry));
        }
        assert(d[t + a + p + g] == WindowEvent::StateChanged(0x500));
    }
}

/// A unique name leads to the window of its number, and what is no name to none.
pub proof fn names_lead_to_their_window(
    window_id: u32,
    name: String,
    back: PlasmaWindowData,
    uuid: &str,
)
    requires
        call_ensures(window_uuid, (window_id,), name),
        uuid@ == name@,
        call_ensures(window_of_uuid, (uuid,), back),
    ensures
        back.window_id == window_id,
{
    uuids_lead_back(window_id);
}

/// A client that binds before there are windows is told of the desktop and of the
/// stacking order alone.
pub proof fn no_windows_are_told_where_there_are_none(
    ids: Vec<u32>,
    version: u32,
    r: Vec<ManagerEvent>,
)
    requires
        call_ensures(bind, (&ids, version), r),
        ids@.len() == 0,
    ensures
        r@.len() == if version >= 12 {
            3int
        } else if version == 11 {
            2
        } else {
            1
        },
        r@[0] == ManagerEvent::ShowDesktopChanged(0),
        version >= 11 ==> r@[1] == ManagerEvent::StackingOrderChanged,
        version >= 12 ==> r@[2] == ManagerEvent::StackingOrderUuidChanged,
{
}

} // verus!
