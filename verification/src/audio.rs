//! Sharing the host's audio sockets with a session.
//!
//! The host's sockets are linked into the session's runtime directory, where
//! applications look for them. PulseAudio refuses a linked directory, so its
//! directory is a real one and only the socket in it is a link.

use vstd::prelude::*;
use vstd::string::*;

use crate::text::dec_u64;
#[allow(unused_imports)]
use crate::text::decimal;

verus! {

/// What was created for a session, by path.
#[derive(Debug, Clone)]
pub struct AudioLinks {
    pub links: Vec<String>,
    pub dirs: Vec<String>,
}

impl AudioLinks {
    /// Nothing.
    pub fn empty() -> (r: AudioLinks)
        ensures
            r.links@ == Seq::<String>::empty(),
            r.dirs@ == Seq::<String>::empty(),
    {
        AudioLinks { links: Vec::new(), dirs: Vec::new() }
    }
}

/// `name` in the directory `dir`.
pub open spec fn joined(dir: Seq<char>, name: Seq<char>) -> Seq<char> {
    if dir.len() == 0 {
        name
    } else if dir.last() == '/' {
        dir + name
    } else {
        dir + seq!['/'] + name
    }
}

/// `name`, which is no absolute path, in the directory `dir`.
pub fn join(dir: &str, name: &str) -> (r: String)
    ensures
        r@ == joined(dir@, name@),
{
    let n: usize = dir.unicode_len();
    let mut s: String = String::from_str(dir);
    if n > 0 && dir.get_char(n - 1) != '/' {
        s.append("/");
        proof {
            reveal_strlit("/");
            assert("/"@ =~= seq!['/']);
        }
    }
    s.append(name);
    assert(s@ =~= joined(dir@, name@));
    s
}

/// Runtime directory of a user on the host.
pub fn host_runtime_dir(uid: u32) -> (r: String)
    ensures
        r@ == "/run/user/"@ + decimal(uid as int),
{
    let mut s: String = String::from_str("/run/user/");
    s.append(dec_u64(uid as u64).as_str());
    s
}

/// What stands at a path, without following a link.
#[derive(Debug, Clone, Copy, PartialEq, Eq, Structural)]
pub enum Entry {
    Missing,
    Symlink,
    File,
    Directory,
    /// Something else, such as a socket.
    Other,
    /// It could not be looked at.
    Unreadable,
}

/// How the directory for the PulseAudio socket is made ready.
#[derive(Debug, Clone, Copy, PartialEq, Eq, Structural)]
pub enum PulseDirStep {
    /// It is there.
    Keep,
    /// Create it, for this user alone.
    Create,
    /// It cannot be had: something else stands there, which is left alone.
    Fail,
}

/// Decides how the directory for the PulseAudio socket is made ready.
pub fn ensure_pulse_dir(entry: Entry) -> (r: PulseDirStep)
    ensures
        r == match entry {
            Entry::Missing => PulseDirStep::Create,
            Entry::Directory => PulseDirStep::Keep,
            _ => PulseDirStep::Fail,
        },
{
    match entry {
        Entry::Missing => PulseDirStep::Create,
        Entry::Directory => PulseDirStep::Keep,
        Entry::Unreadable => PulseDirStep::Fail,
        Entry::Symlink => PulseDirStep::Fail,
        Entry::File => PulseDirStep::Fail,
        Entry::Other => PulseDirStep::Fail,
    }
}

/// Permissions of the directory for the PulseAudio socket.
pub const PULSE_DIR_MODE: u32 = 0o700;

/// What is removed before a link is made.
#[derive(Debug, Clone, Copy, PartialEq, Eq, Structural)]
pub enum Removal {
    Nothing,
    File,
    /// The directory and everything in it.
    Tree,
}

/// What is removed before a link is made. A link is removed itself; it is not
/// followed.
pub open spec fn removal(entry: Entry) -> Removal {
    match entry {
        Entry::Missing | Entry::Unreadable => Removal::Nothing,
        Entry::Symlink | Entry::File => Removal::File,
        _ => Removal::Tree,
    }
}

/// Decides what is removed before a link is made, so that a stale entry cannot
/// stand in its way.
pub fn link_force(entry: Entry) -> (r: Removal)
    ensures
        r == removal(entry),
{
    match entry {
        Entry::Missing => Removal::Nothing,
        Entry::Unreadable => Removal::Nothing,
        Entry::Symlink => Removal::File,
        Entry::File => Removal::File,
        Entry::Directory => Removal::Tree,
        Entry::Other => Removal::Tree,
    }
}

/// What became of one socket.
#[derive(Debug, Clone, Copy, PartialEq, Eq, Structural)]
pub enum LinkOutcome {
    /// The host has no such socket.
    Absent,
    Linked,
    Failed,
}

/// What became of the PulseAudio socket.
#[derive(Debug, Clone, Copy, PartialEq, Eq, Structural)]
pub enum PulseOutcome {
    /// The host has no such socket.
    Absent,
    /// The directory could not be made ready.
    NoDirectory,
    /// The directory is there, and whether it was created and the link made.
    Directory { created: bool, linked: bool },
}

/// The paths of the links that were made, in order.
pub open spec fn made_links(
    session_dir: Seq<char>,
    pulse: PulseOutcome,
    pipewire: LinkOutcome,
    manager: LinkOutcome,
) -> Seq<Seq<char>> {
    let native: Seq<Seq<char>> = match pulse {
        PulseOutcome::Directory { linked: true, .. } => seq![
            joined(joined(session_dir, "pulse"@), "native"@),
        ],
        _ => Seq::empty(),
    };
    let first: Seq<Seq<char>> = if pipewire == LinkOutcome::Linked {
        seq![joined(session_dir, "pipewire-0"@)]
    } else {
        Seq::empty()
    };
    let second: Seq<Seq<char>> = if manager == LinkOutcome::Linked {
        seq![joined(session_dir, "pipewire-0-manager"@)]
    } else {
        Seq::empty()
    };
    native + first + second
}

/// The paths of the directories that were made.
pub open spec fn made_dirs(session_dir: Seq<char>, pulse: PulseOutcome) -> Seq<Seq<char>> {
    match pulse {
        PulseOutcome::Directory { created: true, .. } => seq![joined(session_dir, "pulse"@)],
        _ => Seq::empty(),
    }
}

/// The contents of a list of strings.
pub open spec fn texts(v: Seq<String>) -> Seq<Seq<char>> {
    Seq::new(v.len(), |i: int| v[i]@)
}

/// Collects what was created for a session from what became of each socket. Also
/// tells whether the host has any of them.
pub fn setup(
    session_dir: &str,
    pulse: PulseOutcome,
    pipewire: LinkOutcome,
    manager: LinkOutcome,
) -> (r: (AudioLinks, bool))
    ensures
        texts(r.0.links@) == made_links(session_dir@, pulse, pipewire, manager),
        texts(r.0.dirs@) == made_dirs(session_dir@, pulse),
        r.1 == (pulse != PulseOutcome::Absent || pipewire != LinkOutcome::Absent || manager
            != LinkOutcome::Absent),
{
    let mut out: AudioLinks = AudioLinks::empty();
    let mut any_present: bool = false;
    match pulse {
        PulseOutcome::Absent => {},
        PulseOutcome::NoDirectory => {
            any_present = true;
        },
        PulseOutcome::Directory { created, linked } => {
            any_present = true;
            let pulse_dir: String = join(session_dir, "pulse");
            if linked {
                out.links.push(join(pulse_dir.as_str(), "native"));
            }
            if created {
                out.dirs.push(pulse_dir);
            }
        },
    }
    match pipewire {
        LinkOutcome::Absent => {},
        LinkOutcome::Failed => {
            any_present = true;
        },
        LinkOutcome::Linked => {
            any_present = true;
            out.links.push(join(session_dir, "pipewire-0"));
        },
    }
    match manager {
        LinkOutcome::Absent => {},
        LinkOutcome::Failed => {
            any_present = true;
        },
        LinkOutcome::Linked => {
            any_present = true;
            out.links.push(join(session_dir, "pipewire-0-manager"));
        },
    }
    assert(texts(out.links@) =~= made_links(session_dir@, pulse, pipewire, manager));
    assert(texts(out.dirs@) =~= made_dirs(session_dir@, pulse));
    (out, any_present)
}

/// What is removed when the session ends.
#[derive(Debug)]
pub enum CleanupStep {
    RemoveFile(String),
    /// Remove the directory with everything in it.
    RemoveTree(String),
}

/// Whether the steps remove those links and then those directories, in order.
pub open spec fn removes(
    links: Seq<Seq<char>>,
    dirs: Seq<Seq<char>>,
    steps: Seq<CleanupStep>,
) -> bool {
    &&& steps.len() == links.len() + dirs.len()
    &&& forall|i: int|
        0 <= i < links.len() ==> (#[trigger] steps[i] matches CleanupStep::RemoveFile(p) && p@
            == links[i])
    &&& forall|i: int|
        links.len() <= i < steps.len() ==> (#[trigger] steps[i] matches CleanupStep::RemoveTree(p)
            && p@ == dirs[i - links.len()])
}

/// What is removed when the session ends: the links, then the directories that
/// held some of them, with whatever else has come to lie in them.
pub fn cleanup(audio: AudioLinks) -> (r: Vec<CleanupStep>)
    ensures
        removes(texts(audio.links@), texts(audio.dirs@), r@),
{
    let mut steps: Vec<CleanupStep> = Vec::new();
    let n: usize = audio.links.len();
    let m: usize = audio.dirs.len();
    let mut i: usize = 0;
    while i < n
        invariant
            i <= n == audio.links@.len(),
            steps@.len() == i,
            forall|k: int|
                0 <= k < i ==> (#[trigger] steps@[k] matches CleanupStep::RemoveFile(p) && p@
                    == audio.links@[k]@),
        decreases n - i,
    {
        steps.push(CleanupStep::RemoveFile(audio.links[i].clone()));
        i = i + 1;
    }
    let mut j: usize = 0;
    while j < m
        invariant
            j <= m == audio.dirs@.len(),
            n == audio.links@.len(),
            steps@.len() == n + j,
            forall|k: int|
                0 <= k < n ==> (#[trigger] steps@[k] matches CleanupStep::RemoveFile(p) && p@
                    == audio.links@[k]@),
            forall|k: int|
                n <= k < n + j ==> (#[trigger] steps@[k] matches CleanupStep::RemoveTree(p) && p@
                    == audio.dirs@[k - n]@),
        decreases m - j,
    {
        steps.push(CleanupStep::RemoveTree(audio.dirs[j].clone()));
        j = j + 1;
    }
    steps
}

/// Something in a file system.
pub enum Node {
    /// A link, with its target.
    Link(Seq<char>),
    File,
    Directory,
    /// Something else, such as a socket.
    Other,
}

/// What stands at each path.
pub type Files = Map<Seq<char>, Node>;

/// What stands at a path, without following a link.
pub open spec fn entry_at(files: Files, path: Seq<char>) -> Entry {
    if !files.dom().contains(path) {
        Entry::Missing
    } else {
        match files[path] {
            Node::Link(_) => Entry::Symlink,
            Node::File => Entry::File,
            Node::Directory => Entry::Directory,
            Node::Other => Entry::Other,
        }
    }
}

/// Whether the path `p` lies in the directory `dir` or below.
pub open spec fn lies_in(p: Seq<char>, dir: Seq<char>) -> bool {
    &&& p.len() > dir.len()
    &&& p.take(dir.len() as int) == dir
    &&& (dir.len() == 0 || dir.last() == '/' || p[dir.len() as int] == '/')
}

/// The files after that has been removed at `path`; `None` where it cannot be.
pub open spec fn after_removal(files: Files, path: Seq<char>, what: Removal) -> Option<Files> {
    match what {
        Removal::Nothing => Some(files),
        Removal::File => if entry_at(files, path) == Entry::Symlink || entry_at(files, path)
            == Entry::File {
            Some(files.remove(path))
        } else {
            None
        },
        Removal::Tree => if entry_at(files, path) == Entry::Directory {
            Some(files.restrict(Set::new(|p: Seq<char>| p != path && !lies_in(p, path))))
        } else {
            None
        },
    }
}

/// The files after a link to `src` has been forced at `dst`: what stands there
/// is removed as [`link_force`] says, and the link is made. `None` where that
/// fails.
pub open spec fn after_link(files: Files, src: Seq<char>, dst: Seq<char>) -> Option<Files> {
    match after_removal(files, dst, removal(entry_at(files, dst))) {
        Some(rest) => Some(rest.insert(dst, Node::Link(src))),
        None => None,
    }
}

/// Forcing a link twice is the same as forcing it once: the second time succeeds
/// too and changes nothing. The link leads to `src`, and everything that does
/// not stand at `dst` or below is as it was before, `src` among it. Where a link
/// stood at `dst` before, that is all that is replaced: it is not followed, so
/// what it led to stays.
pub proof fn forcing_a_link_is_idempotent(files: Files, src: Seq<char>, dst: Seq<char>)
    requires
        after_link(files, src, dst) is Some,
        src != dst,
        !lies_in(src, dst),
    ensures
        ({
            let once = after_link(files, src, dst)->0;
            &&& after_link(once, src, dst) == Some(once)
            &&& entry_at(once, dst) == Entry::Symlink
            &&& once[dst] == Node::Link(src)
            &&& entry_at(once, src) == entry_at(files, src)
            &&& forall|p: Seq<char>|
                p != dst && !lies_in(p, dst) ==> #[trigger] once.dom().contains(p)
                    == files.dom().contains(p)
            &&& forall|p: Seq<char>|
                p != dst && !lies_in(p, dst) && files.dom().contains(p) ==> #[trigger] once[p]
                    == files[p]
            &&& entry_at(files, dst) == Entry::Symlink ==> once.remove(dst) == files.remove(dst)
        }),
{
    let once = after_link(files, src, dst)->0;
    assert(once.remove(dst).insert(dst, Node::Link(src)) =~= once);
    if entry_at(files, dst) == Entry::Symlink {
        assert(once.remove(dst) =~= files.remove(dst));
    }
}

/// The files after the links that were made for a session, and the directory
/// for one of them, as the outcomes tell.
pub open spec fn after_setup(
    files: Files,
    host: Seq<char>,
    session_dir: Seq<char>,
    pulse: PulseOutcome,
    pipewire: LinkOutcome,
    manager: LinkOutcome,
) -> Option<Files> {
    let pulse_dir = joined(session_dir, "pulse"@);
    let with_dir = match pulse {
        PulseOutcome::Directory { created: true, .. } => files.insert(pulse_dir, Node::Directory),
        _ => files,
    };
    let with_native = match pulse {
        PulseOutcome::Directory { linked: true, .. } => after_link(
            with_dir,
            joined(joined(host, "pulse"@), "native"@),
            joined(pulse_dir, "native"@),
        ),
        _ => Some(with_dir),
    };
    let with_pipewire = linked_socket(with_native, host, session_dir, "pipewire-0"@, pipewire);
    linked_socket(with_pipewire, host, session_dir, "pipewire-0-manager"@, manager)
}

/// The files after the host's socket `name` has been linked, as the outcome
/// tells.
pub open spec fn linked_socket(
    files: Option<Files>,
    host: Seq<char>,
    session_dir: Seq<char>,
    name: Seq<char>,
    outcome: LinkOutcome,
) -> Option<Files> {
    match files {
        Some(f) => if outcome == LinkOutcome::Linked {
            after_link(f, joined(host, name), joined(session_dir, name))
        } else {
            Some(f)
        },
        None => None,
    }
}

/// The files after the steps of a cleanup. A link is removed, not followed; a
/// directory is removed with everything in it; what is not there is passed over.
pub open spec fn after_steps(files: Files, steps: Seq<CleanupStep>) -> Files
    decreases steps.len(),
{
    if steps.len() == 0 {
        files
    } else {
        let before = after_steps(files, steps.drop_last());
        match steps.last() {
            CleanupStep::RemoveFile(p) => if entry_at(before, p@) == Entry::Directory {
                before
            } else {
                before.remove(p@)
            },
            CleanupStep::RemoveTree(p) => match after_removal(before, p@, Removal::Tree) {
                Some(rest) => rest,
                None => before,
            },
        }
    }
}

proof fn lemma_names_differ(dir: Seq<char>)
    ensures
        joined(dir, "pulse"@) != joined(dir, "pipewire-0"@),
        joined(dir, "pulse"@) != joined(dir, "pipewire-0-manager"@),
        joined(dir, "pipewire-0"@) != joined(dir, "pipewire-0-manager"@),
        joined(joined(dir, "pulse"@), "native"@) != joined(dir, "pulse"@),
        joined(joined(dir, "pulse"@), "native"@) != joined(dir, "pipewire-0"@),
        joined(joined(dir, "pulse"@), "native"@) != joined(dir, "pipewire-0-manager"@),
{
    reveal_strlit("pulse");
    reveal_strlit("native");
    reveal_strlit("pipewire-0");
    reveal_strlit("pipewire-0-manager");
    let base: int = joined(dir, "pulse"@).len() - 5;
    let native = joined(joined(dir, "pulse"@), "native"@);
    let pipewire = joined(dir, "pipewire-0"@);
    let manager = joined(dir, "pipewire-0-manager"@);
    assert(joined(dir, "pulse"@).last() == 'e');
    assert(manager.len() == pipewire.len() + 8);
    assert(native[base + 1] == 'u');
    assert(pipewire[base + 1] == 'i');
    assert(manager[base + 1] == 'i');
}

/// Cleaning up after a setup leaves the files exactly as they were before it,
/// where the session's directory held none of the names that are used: what
/// setup made is gone, and everything else, the host's sockets among it, is as
/// it was.
pub proof fn cleanup_undoes_setup(
    files: Files,
    host: Seq<char>,
    session_dir: Seq<char>,
    pulse: PulseOutcome,
    pipewire: LinkOutcome,
    manager: LinkOutcome,
    steps: Seq<CleanupStep>,
)
    requires
        !files.dom().contains(joined(session_dir, "pulse"@)),
        !files.dom().contains(joined(session_dir, "pipewire-0"@)),
        !files.dom().contains(joined(session_dir, "pipewire-0-manager"@)),
        forall|p: Seq<char>| #[trigger]
            files.dom().contains(p) ==> !lies_in(p, joined(session_dir, "pulse"@)),
        pulse matches PulseOutcome::Directory { created, .. } ==> created,
        removes(
            made_links(session_dir, pulse, pipewire, manager),
            made_dirs(session_dir, pulse),
            steps,
        ),
    ensures
        after_setup(files, host, session_dir, pulse, pipewire, manager) is Some,
        after_steps(
            after_setup(files, host, session_dir, pulse, pipewire, manager)->0,
            steps,
        ) == files,
{
    lemma_names_differ(session_dir);
    reveal_with_fuel(after_steps, 5);
    let dir = joined(session_dir, "pulse"@);
    let native = joined(dir, "native"@);
    let first = joined(session_dir, "pipewire-0"@);
    let second = joined(session_dir, "pipewire-0-manager"@);
    let links = made_links(session_dir, pulse, pipewire, manager);
    assert(lies_in(native, dir)) by {
        reveal_strlit("pulse");
        reveal_strlit("native");
        assert(dir.last() == 'e');
        assert(native.take(dir.len() as int) =~= dir);
    }
    let made = after_setup(files, host, session_dir, pulse, pipewire, manager)->0;
    let n = links.len() as int;
    let unlinked = after_steps(made, steps.take(n));
    let with_dir = match pulse {
        PulseOutcome::Directory { .. } => files.insert(dir, Node::Directory),
        _ => files,
    };
    assert(unlinked =~= with_dir);
    if n < steps.len() {
        assert(steps.drop_last() =~= steps.take(n));
        assert(after_removal(with_dir, dir, Removal::Tree)->0 =~= files);
    } else {
        assert(steps =~= steps.take(n));
    }
}

proof fn lemma_steps_only_remove(files: Files, steps: Seq<CleanupStep>, q: Seq<char>)
    ensures
        after_steps(files, steps).dom().contains(q) ==> files.dom().contains(q),
        after_steps(files, steps).dom().contains(q) ==> after_steps(files, steps)[q] == files[q],
    decreases steps.len(),
{
    if steps.len() > 0 {
        lemma_steps_only_remove(files, steps.drop_last(), q);
    }
}

proof fn lemma_lies_in_is_transitive(q: Seq<char>, dir: Seq<char>, top: Seq<char>)
    requires
        lies_in(q, dir),
        lies_in(dir, top),
    ensures
        lies_in(q, top),
{
    let n = top.len() as int;
    assert(q.take(n) =~= dir.take(n)) by {
        assert forall|k: int| 0 <= k < n implies q[k] == dir[k] by {
            assert(q.take(dir.len() as int)[k] == dir[k]);
        }
    }
    assert(q.take(dir.len() as int)[n] == dir[n]);
}

proof fn lemma_nothing_lies_in_a_missing_directory(
    files: Files,
    steps: Seq<CleanupStep>,
    dir: Seq<char>,
    q: Seq<char>,
)
    requires
        entry_at(files, dir) == Entry::Directory,
        lies_in(q, dir),
        !after_steps(files, steps).dom().contains(dir),
    ensures
        !after_steps(files, steps).dom().contains(q),
    decreases steps.len(),
{
    if steps.len() > 0 {
        let before = after_steps(files, steps.drop_last());
        if before.dom().contains(dir) {
            lemma_steps_only_remove(files, steps.drop_last(), dir);
            if let CleanupStep::RemoveTree(p) = steps.last() {
                if p@ != dir {
                    lemma_lies_in_is_transitive(q, dir, p@);
                }
            }
        } else {
            lemma_nothing_lies_in_a_missing_directory(files, steps.drop_last(), dir, q);
        }
    }
}

proof fn lemma_removed_trees_are_gone(files: Files, steps: Seq<CleanupStep>, i: int, q: Seq<char>)
    requires
        0 <= i < steps.len(),
        steps[i] is RemoveTree,
        entry_at(files, steps[i]->RemoveTree_0@) == Entry::Directory,
        q == steps[i]->RemoveTree_0@ || lies_in(q, steps[i]->RemoveTree_0@),
    ensures
        !after_steps(files, steps).dom().contains(q),
    decreases steps.len(),
{
    let rest = steps.drop_last();
    let dir = steps[i]->RemoveTree_0@;
    if i < rest.len() {
        assert(rest[i] == steps[i]);
        lemma_removed_trees_are_gone(files, rest, i, q);
    } else {
        lemma_steps_only_remove(files, rest, dir);
        if !after_steps(files, rest).dom().contains(dir) && q != dir {
            lemma_nothing_lies_in_a_missing_directory(files, rest, dir, q);
        }
    }
}

/// After a cleanup none of its directories is left, nor anything that lay in
/// one, whoever put it there.
pub proof fn cleanup_removes_whole_directories(
    files: Files,
    links: Seq<Seq<char>>,
    dirs: Seq<Seq<char>>,
    steps: Seq<CleanupStep>,
    j: int,
    q: Seq<char>,
)
    requires
        removes(links, dirs, steps),
        0 <= j < dirs.len(),
        entry_at(files, dirs[j]) == Entry::Directory,
        q == dirs[j] || lies_in(q, dirs[j]),
    ensures
        !after_steps(files, steps).dom().contains(q),
{
    let i = links.len() + j;
    assert(steps[i] is RemoveTree);
    lemma_removed_trees_are_gone(files, steps, i, q);
}

/// A name in a directory stands behind exactly one separator.
pub proof fn names_stand_behind_one_separator(dir: &str, name: &str, r: String, uid: u32, run: String)
    requires
        call_ensures(join, (dir, name), r),
        call_ensures(host_runtime_dir, (uid,), run),
    ensures
        dir@.len() == 0 ==> r@ == name@,
        dir@.len() > 0 && dir@.last() == '/' ==> r@ == dir@ + name@,
        dir@.len() > 0 && dir@.last() != '/' ==> r@ == dir@.push('/') + name@,
        run@ == "/run/user/"@ + decimal(uid as int),
{
    if dir@.len() > 0 && dir@.last() != '/' {
        assert(r@ =~= dir@.push('/') + name@);
    }
}

/// The directory for the socket is created where nothing stands, kept where it is
/// a directory, and not forced where anything else stands. What stands in a link's
/// way is removed: a link or a file itself, anything else with all it holds.
pub proof fn only_links_are_forced(entry: Entry, dir: PulseDirStep, r: Removal)
    requires
        call_ensures(ensure_pulse_dir, (entry,), dir),
        call_ensures(link_force, (entry,), r),
    ensures
        dir == PulseDirStep::Create <==> entry == Entry::Missing,
        dir == PulseDirStep::Keep <==> entry == Entry::Directory,
        r == Removal::File <==> entry == Entry::Symlink || entry == Entry::File,
        r == Removal::Tree <==> entry == Entry::Directory || entry == Entry::Other,
        r == Removal::Nothing <==> entry == Entry::Missing || entry == Entry::Unreadable,
{
}

/// What setup notes is what was made, and no more: each link under its own name in
/// the session's directory, the PulseAudio one inside its directory, and that
/// directory where it was created. The host has sockets where any was found.
pub proof fn setup_notes_what_was_made(
    dir: &str,
    pulse: PulseOutcome,
    pipewire: LinkOutcome,
    manager: LinkOutcome,
    r: (AudioLinks, bool),
)
    requires
        call_ensures(setup, (dir, pulse, pipewire, manager), r),
    ensures
        ({
            let links = texts(r.0.links@);
            let native = pulse matches PulseOutcome::Directory { linked, .. } && linked;
            let n: int = if native {
                1
            } else {
                0
            };
            let m: int = if pipewire == LinkOutcome::Linked {
                n + 1
            } else {
                n
            };
            &&& native ==> links[0] == joined(joined(dir@, "pulse"@), "native"@)
            &&& pipewire == LinkOutcome::Linked ==> links[n] == joined(dir@, "pipewire-0"@)
            &&& manager == LinkOutcome::Linked ==> links[m] == joined(dir@, "pipewire-0-manager"@)
            &&& links.len() == if manager == LinkOutcome::Linked {
                m + 1
            } else {
                m
            }
        }),
        (pulse matches PulseOutcome::Directory { created, .. } && created) ==> r.0.dirs@.len() == 1
            && r.0.dirs@[0]@ == joined(dir@, "pulse"@),
        !(pulse matches PulseOutcome::Directory { created, .. } && created) ==> r.0.dirs@.len()
            == 0,
        r.1 <==> !(pulse is Absent) || !(pipewire is Absent) || !(manager is Absent),
{
    let dirs = texts(r.0.dirs@);
    if pulse matches PulseOutcome::Directory { created, .. } && created {
        assert(dirs.len() == 1 && dirs[0] == joined(dir@, "pulse"@));
    } else {
        assert(dirs.len() == 0);
    }
}

/// A cleanup removes every link before any directory, each by its own path, and
/// nothing else.
pub proof fn cleanups_remove_links_first(audio: AudioLinks, r: Vec<CleanupStep>, i: int)
    requires
        call_ensures(cleanup, (audio,), r),
        0 <= i < r@.len(),
    ensures
        r@.len() == audio.links@.len() + audio.dirs@.len(),
        i < audio.links@.len() ==> (r@[i] matches CleanupStep::RemoveFile(p) && p@
            == audio.links@[i]@),
        i >= audio.links@.len() ==> (r@[i] matches CleanupStep::RemoveTree(p) && p@
            == audio.dirs@[i - audio.links@.len()]@),
{
}

} // verus!
