//! The attach server: which client the session's outer view belongs to.
//!
//! There is at most one outer view. Its thread is told to stop and waited for
//! before another one is spawned, so that a late teardown of the old thread
//! cannot undo what the new one has set up.

use vstd::prelude::*;

verus! {

/// Permissions of the attach socket: this user alone.
pub const ATTACH_SOCKET_MODE: u32 = 0o600;

/// How long the server sleeps at most, in milliseconds.
pub const ATTACH_POLL_TIMEOUT_MS: i32 = 1_000;

/// State of the attach server.
#[derive(Debug, Clone, Copy)]
pub struct AttachServer {
    /// The thread of the outer view.
    pub active_view: Option<u64>,
    /// The client that asked for it.
    pub current_attach: Option<u64>,
}

/// Why a client is disconnected.
#[derive(Debug, Clone, Copy, PartialEq, Eq, Structural)]
pub enum DetachReason {
    /// It asked for it.
    Detached,
    /// The compositor outside closed the window.
    OuterWindowClosed,
}

impl DetachReason {
    /// The text of [`DetachReason::message`].
    pub open spec fn text(self) -> Seq<char> {
        match self {
            DetachReason::Detached => "detached"@,
            DetachReason::OuterWindowClosed => "outer window closed by compositor"@,
        }
    }

    /// What the client is told.
    pub fn message(self) -> (r: &'static str)
        ensures
            r@ == self.text(),
    {
        match self {
            DetachReason::Detached => "detached",
            DetachReason::OuterWindowClosed => "outer window closed by compositor",
        }
    }
}

/// One thing that is to be done, in the order given.
#[derive(Debug, Clone, Copy, PartialEq, Eq, Structural)]
pub enum AttachEffect {
    /// Tell the view's thread to stop.
    RaiseStop(u64),
    /// Wait until the view's thread has ended.
    Join(u64),
    /// Spawn the thread of a new view.
    SpawnView,
    /// Forget how the view is woken.
    ClearWake,
    /// Disconnect the client.
    Disconnect(u64, DetachReason),
}

/// The effects of ending the view, if there is one.
pub open spec fn ended(view: Option<u64>) -> Seq<AttachEffect> {
    match view {
        Some(v) => seq![AttachEffect::RaiseStop(v), AttachEffect::Join(v)],
        None => Seq::empty(),
    }
}

/// The effects of letting the client go, if there is one and it still lives.
pub open spec fn let_go(client: Option<u64>, alive: bool, reason: DetachReason) -> Seq<AttachEffect> {
    match client {
        Some(c) if alive => seq![AttachEffect::Disconnect(c, reason)],
        _ => Seq::empty(),
    }
}

impl AttachServer {
    /// A server without a view.
    pub fn new() -> (r: AttachServer)
        ensures
            r.active_view is None,
            r.current_attach is None,
    {
        AttachServer { active_view: None, current_attach: None }
    }

    fn end_view(&mut self, effects: &mut Vec<AttachEffect>)
        ensures
            final(effects)@ == old(effects)@ + ended(old(self).active_view),
            *final(self) == (AttachServer { active_view: None, ..*old(self) }),
    {
        let ghost before = effects@;
        match self.active_view {
            Some(v) => {
                effects.push(AttachEffect::RaiseStop(v));
                effects.push(AttachEffect::Join(v));
            },
            None => {},
        }
        assert(effects@ =~= before + ended(self.active_view));
        self.active_view = None;
    }

    fn let_client_go(&mut self, alive: bool, reason: DetachReason, effects: &mut Vec<AttachEffect>)
        ensures
            final(effects)@ == old(effects)@ + let_go(old(self).current_attach, alive, reason),
            *final(self) == (AttachServer { current_attach: None, ..*old(self) }),
    {
        let ghost before = effects@;
        match self.current_attach {
            Some(c) => {
                if alive {
                    effects.push(AttachEffect::Disconnect(c, reason));
                }
            },
            None => {},
        }
        assert(effects@ =~= before + let_go(self.current_attach, alive, reason));
        self.current_attach = None;
    }

    /// A client asks for the outer view. The view that is there is ended first.
    /// When the new thread runs, it is to be noted with
    /// [`AttachServer::view_spawned`].
    pub fn get_surface(&mut self, client: u64) -> (r: Vec<AttachEffect>)
        ensures
            r@ == ended(old(self).active_view).push(AttachEffect::SpawnView),
            *final(self) == (AttachServer { active_view: None, current_attach: Some(client) }),
    {
        self.current_attach = Some(client);
        let mut effects: Vec<AttachEffect> = Vec::new();
        self.end_view(&mut effects);
        effects.push(AttachEffect::SpawnView);
        assert(effects@ =~= ended(old(self).active_view).push(AttachEffect::SpawnView));
        effects
    }

    /// Notes the thread of the view that was spawned.
    pub fn view_spawned(&mut self, view: u64)
        ensures
            *final(self) == (AttachServer { active_view: Some(view), ..*old(self) }),
    {
        self.active_view = Some(view);
    }

    /// The client asks to be detached. `alive` tells whether it is still
    /// connected.
    pub fn detach(&mut self, alive: bool) -> (r: Vec<AttachEffect>)
        ensures
            r@ == ended(old(self).active_view) + let_go(
                old(self).current_attach,
                alive,
                DetachReason::Detached,
            ) + seq![AttachEffect::ClearWake],
            *final(self) == (AttachServer { active_view: None, current_attach: None }),
    {
        let mut effects: Vec<AttachEffect> = Vec::new();
        self.end_view(&mut effects);
        self.let_client_go(alive, DetachReason::Detached, &mut effects);
        effects.push(AttachEffect::ClearWake);
        assert(effects@ =~= ended(old(self).active_view) + let_go(
            old(self).current_attach,
            alive,
            DetachReason::Detached,
        ) + seq![AttachEffect::ClearWake]);
        effects
    }

    /// Looks after the view in each turn of the loop. `stopped` tells whether its
    /// thread has set its stop flag, which it does when the window outside is
    /// closed.
    pub fn check_view(&mut self, stopped: bool, alive: bool) -> (r: Vec<AttachEffect>)
        ensures
            match old(self).active_view {
                Some(v) if stopped => r@ == seq![AttachEffect::Join(v), AttachEffect::ClearWake]
                    + let_go(old(self).current_attach, alive, DetachReason::OuterWindowClosed)
                    && *final(self) == (AttachServer { active_view: None, current_attach: None }),
                _ => r@.len() == 0 && *final(self) == *old(self),
            },
    {
        let mut effects: Vec<AttachEffect> = Vec::new();
        match self.active_view {
            Some(v) => {
                if stopped {
                    effects.push(AttachEffect::Join(v));
                    effects.push(AttachEffect::ClearWake);
                    self.active_view = None;
                    assert(effects@ =~= seq![AttachEffect::Join(v), AttachEffect::ClearWake]);
                    self.let_client_go(alive, DetachReason::OuterWindowClosed, &mut effects);
                }
            },
            None => {},
        }
        effects
    }
}

/// A view is spawned only after the one before it has been waited for.
pub proof fn views_do_not_overlap(server: AttachServer, view: u64)
    requires
        server.active_view == Some(view),
    ensures
        ended(server.active_view).push(AttachEffect::SpawnView) == seq![
            AttachEffect::RaiseStop(view),
            AttachEffect::Join(view),
            AttachEffect::SpawnView,
        ],
{
    assert(ended(server.active_view).push(AttachEffect::SpawnView) =~= seq![
        AttachEffect::RaiseStop(view),
        AttachEffect::Join(view),
        AttachEffect::SpawnView,
    ]);
}

/// A client that asks for the outer view gets a new one, and is from then on the
/// one that it belongs to; the view that was there is told to stop and waited for
/// first.
pub proof fn new_views_replace_the_old(client: u64, r: Vec<AttachEffect>)
    ensures
        forall|m: &mut AttachServer|
            #[trigger] call_ensures(AttachServer::get_surface, (m, client), r) ==> {
                &&& final(m).current_attach == Some(client)
                &&& final(m).active_view is None
                &&& r@.last() == AttachEffect::SpawnView
                &&& m.active_view matches Some(v) ==> r@ == seq![
                    AttachEffect::RaiseStop(v),
                    AttachEffect::Join(v),
                    AttachEffect::SpawnView,
                ]
                &&& m.active_view is None ==> r@.len() == 1
            },
{
    assert forall|m: &mut AttachServer| #[trigger]
        call_ensures(AttachServer::get_surface, (m, client), r) implies (m.active_view matches Some(
        v,
    ) ==> r@ == seq![
        AttachEffect::RaiseStop(v),
        AttachEffect::Join(v),
        AttachEffect::SpawnView,
    ]) by {
        if let Some(v) = m.active_view {
            views_do_not_overlap(*m, v);
        }
    }
}

/// Detaching ends the view, lets a client that still lives know why, and forgets
/// both; the wake is forgotten last.
pub proof fn detaching_leaves_nothing(alive: bool, r: Vec<AttachEffect>)
    ensures
        forall|m: &mut AttachServer|
            #[trigger] call_ensures(AttachServer::detach, (m, alive), r) ==> {
                &&& final(m).active_view is None
                &&& final(m).current_attach is None
                &&& r@.last() == AttachEffect::ClearWake
                &&& m.active_view matches Some(v) ==> r@.len() >= 3 && r@[0]
                    == AttachEffect::RaiseStop(v) && r@[1] == AttachEffect::Join(v)
                &&& m.current_attach matches Some(c) ==> alive ==> r@.len() >= 2 && r@[r@.len() - 2]
                    == AttachEffect::Disconnect(c, DetachReason::Detached)
                &&& !alive || m.current_attach is None ==> forall|i: int|
                    0 <= i < r@.len() ==> !((#[trigger] r@[i]) is Disconnect)
                &&& m.active_view is None && m.current_attach is None ==> r@.len() == 1
            },
{
}

/// A view whose window was closed outside is waited for, and its client is told
/// so where it still lives; a view that runs on is left alone.
pub proof fn closed_views_are_cleaned_up(stopped: bool, alive: bool, r: Vec<AttachEffect>)
    ensures
        forall|m: &mut AttachServer|
            #[trigger] call_ensures(AttachServer::check_view, (m, stopped, alive), r) ==> {
                &&& m.active_view is None || !stopped ==> r@.len() == 0 && *final(m) == *m
                &&& m.active_view is Some && stopped ==> {
                    &&& final(m).active_view is None
                    &&& final(m).current_attach is None
                    &&& r@[0] == AttachEffect::Join(m.active_view->0)
                    &&& r@[1] == AttachEffect::ClearWake
                    &&& m.current_attach matches Some(c) ==> alive ==> r@.len() == 3 && r@[2]
                        == AttachEffect::Disconnect(c, DetachReason::OuterWindowClosed)
                    &&& !alive || m.current_attach is None ==> r@.len() == 2
                }
            },
{
}

/// What a client is told when it is let go.
pub proof fn clients_are_told_why(reason: DetachReason, r: &'static str)
    requires
        call_ensures(DetachReason::message, (reason,), r),
    ensures
        reason == DetachReason::Detached ==> r@ == "detached"@,
        reason == DetachReason::OuterWindowClosed ==> r@ == "outer window closed by compositor"@,
{
}

/// A server starts without a view; one that was spawned is noted as the active one
/// and leaves the client as it is.
pub proof fn spawned_views_are_noted(s: AttachServer, view: u64)
    requires
        call_ensures(AttachServer::new, (), s),
    ensures
        s.active_view is None && s.current_attach is None,
        forall|m: &mut AttachServer|
            #[trigger] call_ensures(AttachServer::view_spawned, (m, view), ())
                ==> final(m).active_view == Some(view) && final(m).current_attach
                == m.current_attach,
{
}

} // verus!
