//! The clipboard between the session and its surroundings.
//!
//! Unless sharing is on, the session's clipboard is a world of its own.

use vstd::prelude::*;

use crate::text::same;

verus! {

/// One form of what the clipboard holds.
#[derive(Debug, Clone)]
pub struct ClipboardEntry {
    pub mime: String,
    pub data: Vec<u8>,
}

/// What the clipboard holds, in every form that was fetched.
#[derive(Debug, Clone)]
pub struct ClipboardContent {
    pub entries: Vec<ClipboardEntry>,
}

/// Remembers which clipboard was last forwarded to the session's clients.
#[derive(Debug, Clone, Copy, PartialEq, Eq, Structural)]
pub struct ClipboardForwarder {
    pub last_sent: u64,
}

/// Highest version of an offer.
pub const OFFER_VERSION: u32 = 3;

impl ClipboardForwarder {
    /// Nothing has been forwarded yet.
    pub fn new() -> (r: ClipboardForwarder)
        ensures
            r.last_sent == 0,
    {
        ClipboardForwarder { last_sent: 0 }
    }

    /// Whether a clipboard at `version` is forwarded.
    pub open spec fn forwards(self, share: bool, version: u64, has_content: bool) -> bool {
        share && version != self.last_sent && has_content
    }

    /// The forwarder after a clipboard at `version` was looked at.
    pub open spec fn after(self, share: bool, version: u64) -> ClipboardForwarder {
        if share {
            ClipboardForwarder { last_sent: version }
        } else {
            self
        }
    }

    /// Decides whether the outer clipboard, which is at `version`, is to be
    /// forwarded now. A version counts as forwarded even where it holds nothing.
    pub fn drain_clipboard(&mut self, share: bool, version: u64, has_content: bool) -> (r: bool)
        ensures
            r == old(self).forwards(share, version, has_content),
            *final(self) == old(self).after(share, version),
    {
        if !share {
            return false;
        }
        if version == self.last_sent {
            return false;
        }
        self.last_sent = version;
        has_content
    }
}

/// The version of the offer for a device.
pub fn offer_version(device_version: u32) -> (r: u32)
    ensures
        r == if device_version <= OFFER_VERSION {
            device_version
        } else {
            OFFER_VERSION
        },
{
    if device_version <= OFFER_VERSION {
        device_version
    } else {
        OFFER_VERSION
    }
}

impl ClipboardContent {
    /// Position of the first form of that type; the number of forms where there
    /// is none.
    pub open spec fn first_form(self, mime: Seq<char>, i: int) -> bool {
        &&& 0 <= i <= self.entries@.len()
        &&& forall|k: int| 0 <= k < i ==> (#[trigger] self.entries@[k]).mime@ != mime
        &&& i < self.entries@.len() ==> self.entries@[i].mime@ == mime
    }

    /// The bytes to hand to a client that asks for the type. There are none where
    /// the clipboard has no such form.
    pub fn receive(&self, mime: &str) -> (r: Option<&Vec<u8>>)
        ensures
            match r {
                Some(data) => exists|i: int|
                    #![trigger self.entries@[i]]
                    i < self.entries@.len() && self.first_form(mime@, i) && *data
                        == self.entries@[i].data,
                None => self.first_form(mime@, self.entries@.len() as int),
            },
    {
        let n: usize = self.entries.len();
        let mut i: usize = 0;
        while i < n
            invariant
                i <= n == self.entries@.len(),
                forall|k: int| 0 <= k < i ==> (#[trigger] self.entries@[k]).mime@ != mime@,
            decreases n - i,
        {
            if same(self.entries[i].mime.as_str(), mime) {
                assert(self.first_form(mime@, i as int));
                return Some(&self.entries[i].data);
            }
            i = i + 1;
        }
        None
    }

    /// The types that an offer lists, in order.
    pub fn types(&self) -> (r: Vec<String>)
        ensures
            r@.len() == self.entries@.len(),
            forall|i: int| 0 <= i < r@.len() ==> (#[trigger] r@[i])@ == self.entries@[i].mime@,
    {
        let n: usize = self.entries.len();
        let mut r: Vec<String> = Vec::new();
        let mut i: usize = 0;
        while i < n
            invariant
                i <= n == self.entries@.len(),
                r@.len() == i,
                forall|k: int| 0 <= k < i ==> (#[trigger] r@[k])@ == self.entries@[k].mime@,
            decreases n - i,
        {
            r.push(self.entries[i].mime.clone());
            i = i + 1;
        }
        r
    }
}

/// What a client's choice of selection means for the outer clipboard.
#[derive(Debug)]
pub enum SelectionChange {
    /// The clipboard is not shared.
    Ignored,
    /// The client offers these types.
    Offered(Vec<String>),
    /// The selection is empty.
    Cleared,
}

/// Decides what a client's choice of selection means. `source` holds the types
/// of the source that it chose.
pub fn set_selection(share: bool, source: Option<Vec<String>>) -> (r: SelectionChange)
    ensures
        r == if !share {
            SelectionChange::Ignored
        } else {
            match source {
                Some(types) => SelectionChange::Offered(types),
                None => SelectionChange::Cleared,
            }
        },
{
    if !share {
        return SelectionChange::Ignored;
    }
    match source {
        Some(types) => SelectionChange::Offered(types),
        None => SelectionChange::Cleared,
    }
}

/// A clipboard is forwarded at most once: until its version changes, nothing
/// more is forwarded.
pub proof fn forwarding_happens_once(
    f: ClipboardForwarder,
    share: bool,
    version: u64,
    has_content: bool,
)
    ensures
        f.forwards(share, version, has_content) ==> !f.after(share, version).forwards(
            share,
            version,
            has_content,
        ),
{
}

/// An isolated clipboard is never forwarded, and nothing is remembered of it.
pub proof fn isolated_clipboards_stay_inside(
    f: ClipboardForwarder,
    version: u64,
    has_content: bool,
)
    ensures
        !f.forwards(false, version, has_content),
        f.after(false, version) == f,
{
}

/// A clipboard is forwarded exactly where it is shared, has changed since it was
/// last looked at and holds something; it counts as looked at either way, unless
/// it is not shared.
pub proof fn changed_clipboards_are_forwarded(share: bool, version: u64, has_content: bool, r: bool)
    ensures
        forall|m: &mut ClipboardForwarder|
            #[trigger] call_ensures(
                ClipboardForwarder::drain_clipboard,
                (m, share, version, has_content),
                r,
            ) ==> {
                &&& r <==> share && has_content && version != m.last_sent
                &&& share ==> final(m).last_sent == version
                &&& !share ==> final(m).last_sent == m.last_sent
            },
{
}

/// A client that asks for a type is handed the bytes of the first form of that
/// type, and nothing exactly where there is none.
pub proof fn forms_are_handed_out_by_type(
    content: ClipboardContent,
    mime: &str,
    r: Option<&Vec<u8>>,
    i: int,
)
    requires
        call_ensures(ClipboardContent::receive, (&content, mime), r),
        0 <= i < content.entries@.len(),
        content.entries@[i].mime@ == mime@,
        forall|k: int| 0 <= k < i ==> (#[trigger] content.entries@[k]).mime@ != mime@,
    ensures
        r matches Some(data) && data@ == content.entries@[i].data@,
{
    if let Some(data) = r {
        let j = choose|j: int|
            #![trigger content.entries@[j]]
            j < content.entries@.len() && content.first_form(mime@, j) && *data
                == content.entries@[j].data;
        assert(content.first_form(mime@, j));
        if j < i {
            assert(content.entries@[j].mime@ != mime@);
        }
        if i < j {
            assert(content.entries@[i].mime@ != mime@);
        }
    } else {
        assert(content.entries@[i].mime@ != mime@);
    }
}

/// A type that the clipboard does not have is answered with nothing, and an offer
/// lists the types that it has, in order.
pub proof fn missing_forms_are_not_handed_out(
    content: ClipboardContent,
    mime: &str,
    r: Option<&Vec<u8>>,
    types: Vec<String>,
    i: int,
)
    requires
        call_ensures(ClipboardContent::receive, (&content, mime), r),
        call_ensures(ClipboardContent::types, (&content,), types),
    ensures
        (forall|k: int|
            0 <= k < content.entries@.len() ==> (#[trigger] content.entries@[k]).mime@ != mime@)
            ==> r is None,
        types@.len() == content.entries@.len(),
        0 <= i < types@.len() ==> types@[i]@ == content.entries@[i].mime@,
{
}

/// A selection reaches the outside only where the clipboard is shared: its types
/// where there is one, else that there is none.
pub proof fn selections_reach_the_outside_when_shared(
    share: bool,
    source: Option<Vec<String>>,
    r: SelectionChange,
    device_version: u32,
    v: u32,
)
    requires
        call_ensures(set_selection, (share, source), r),
        call_ensures(offer_version, (device_version,), v),
    ensures
        !share ==> r is Ignored,
        share ==> (source matches Some(types) ==> r == SelectionChange::Offered(types)),
        share && source is None ==> r is Cleared,
        v <= 3 && v <= device_version && (v == 3 || v == device_version),
{
}

} // verus!
