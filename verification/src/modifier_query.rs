//! Asking EGL which modifiers it can import.
//!
//! A [`ModifierQuery`] opens a display on the render node and asks for the
//! modifiers of both supported formats. It names what is to be done next and is
//! advanced with what came of it.

use vstd::prelude::*;

use crate::dmabuf::{collect_sampleable, ModifierReply, DRM_FORMAT_ARGB8888, DRM_FORMAT_XRGB8888};
#[allow(unused_imports)]
use crate::dmabuf::sampleable;

verus! {

/// What the query does next.
#[derive(Clone, Copy, Debug, PartialEq, Eq, Structural)]
pub enum QueryStage {
    OpenNode,
    CreateGbm,
    LoadLibrary,
    LoadEgl,
    GetDisplay,
    Initialize,
    ResolveQuery,
    /// Ask how many modifiers the format has; `second` tells which format.
    Count { second: bool },
    /// Fetch that many.
    Fetch { second: bool, count: usize },
    Done,
    Failed,
}

/// What came of it.
pub enum QueryReply {
    /// Whether a step of opening the display succeeded.
    Step(bool),
    /// The number of modifiers, and whether asking for it succeeded.
    Count { ok: bool, count: i32 },
    /// The modifiers; none where fetching them failed.
    Modifiers(Option<ModifierReply>),
}

/// A query in progress.
pub struct ModifierQuery {
    pub stage: QueryStage,
    /// The modifiers found so far.
    pub found: Vec<u64>,
}

/// The stage once one format is dealt with.
pub open spec fn after_format(second: bool) -> QueryStage {
    if second {
        QueryStage::Done
    } else {
        QueryStage::Count { second: true }
    }
}

/// The stage after a successful step of opening the display.
pub open spec fn after_step(stage: QueryStage) -> QueryStage {
    match stage {
        QueryStage::OpenNode => QueryStage::CreateGbm,
        QueryStage::CreateGbm => QueryStage::LoadLibrary,
        QueryStage::LoadLibrary => QueryStage::LoadEgl,
        QueryStage::LoadEgl => QueryStage::GetDisplay,
        QueryStage::GetDisplay => QueryStage::Initialize,
        QueryStage::Initialize => QueryStage::ResolveQuery,
        QueryStage::ResolveQuery => QueryStage::Count { second: false },
        _ => stage,
    }
}

/// Whether the display is still being opened.
pub open spec fn opening(stage: QueryStage) -> bool {
    match stage {
        QueryStage::Count { .. } | QueryStage::Fetch { .. } | QueryStage::Done
        | QueryStage::Failed => false,
        _ => true,
    }
}

/// The stage that a reply leads to. A format without modifiers is passed over;
/// a reply that does not answer what was asked changes nothing.
pub open spec fn stage_after(stage: QueryStage, reply: QueryReply) -> QueryStage {
    match (stage, reply) {
        (QueryStage::Count { second }, QueryReply::Count { ok, count }) => if ok && count > 0 {
            QueryStage::Fetch { second, count: count as usize }
        } else {
            after_format(second)
        },
        (QueryStage::Fetch { second, .. }, QueryReply::Modifiers(_)) => after_format(second),
        (s, QueryReply::Step(ok)) if opening(s) => if ok {
            after_step(s)
        } else {
            QueryStage::Failed
        },
        _ => stage,
    }
}

/// The modifiers that a reply adds: those that an ordinary texture can sample.
pub open spec fn found_by(stage: QueryStage, reply: QueryReply) -> Seq<u64> {
    match (stage, reply) {
        (QueryStage::Fetch { .. }, QueryReply::Modifiers(Some(m))) => sampleable(
            m,
            m.count as int,
        ),
        _ => Seq::empty(),
    }
}

impl ModifierQuery {
    /// Starts a query.
    pub fn begin() -> (r: ModifierQuery)
        ensures
            r.stage == QueryStage::OpenNode,
            r.found@.len() == 0,
    {
        ModifierQuery { stage: QueryStage::OpenNode, found: Vec::new() }
    }

    /// The format that is being asked about, where one is.
    pub fn format(&self) -> (r: Option<u32>)
        ensures
            r == match self.stage {
                QueryStage::Count { second } | QueryStage::Fetch { second, .. } => Some(
                    if second {
                        DRM_FORMAT_XRGB8888
                    } else {
                        DRM_FORMAT_ARGB8888
                    },
                ),
                _ => None,
            },
    {
        match self.stage {
            QueryStage::Count { second } => Some(Self::fourcc(second)),
            QueryStage::Fetch { second, .. } => Some(Self::fourcc(second)),
            _ => None,
        }
    }

    fn fourcc(second: bool) -> (r: u32)
        ensures
            r == if second {
                DRM_FORMAT_XRGB8888
            } else {
                DRM_FORMAT_ARGB8888
            },
    {
        if second {
            DRM_FORMAT_XRGB8888
        } else {
            DRM_FORMAT_ARGB8888
        }
    }

    fn next_format(&mut self, second: bool)
        ensures
            final(self).stage == after_format(second),
            final(self).found == old(self).found,
    {
        self.stage = if second {
            QueryStage::Done
        } else {
            QueryStage::Count { second: true }
        };
    }

    /// Takes a reply. Returns whether the render node is to be closed again: only
    /// where it could not be used, because a display keeps it for good.
    pub fn advance(&mut self, reply: QueryReply) -> (close: bool)
        requires
            reply matches QueryReply::Modifiers(Some(m)) ==> m.count <= m.modifiers@.len()
                && m.count <= m.external_only@.len(),
        ensures
            final(self).stage == stage_after(old(self).stage, reply),
            final(self).found@ == old(self).found@ + found_by(old(self).stage, reply),
            close == (old(self).stage == QueryStage::CreateGbm && reply == QueryReply::Step(false)),
    {
        let ghost before = self.found@;
        let stage: QueryStage = self.stage;
        match (stage, reply) {
            (QueryStage::Count { second }, QueryReply::Count { ok, count }) => {
                if ok && count > 0 {
                    self.stage = QueryStage::Fetch { second, count: count as usize };
                } else {
                    self.next_format(second);
                }
                assert(self.found@ =~= before + Seq::<u64>::empty());
                false
            },
            (QueryStage::Fetch { second, .. }, QueryReply::Modifiers(m)) => {
                match m {
                    Some(m) => {
                        collect_sampleable(&mut self.found, &m);
                    },
                    None => {
                        assert(self.found@ =~= before + Seq::<u64>::empty());
                    },
                }
                self.next_format(second);
                false
            },
            (QueryStage::OpenNode, QueryReply::Step(ok)) => {
                self.step(ok, QueryStage::CreateGbm);
                false
            },
            (QueryStage::CreateGbm, QueryReply::Step(ok)) => {
                self.step(ok, QueryStage::LoadLibrary);
                !ok
            },
            (QueryStage::LoadLibrary, QueryReply::Step(ok)) => {
                self.step(ok, QueryStage::LoadEgl);
                false
            },
            (QueryStage::LoadEgl, QueryReply::Step(ok)) => {
                self.step(ok, QueryStage::GetDisplay);
                false
            },
            (QueryStage::GetDisplay, QueryReply::Step(ok)) => {
                self.step(ok, QueryStage::Initialize);
                false
            },
            (QueryStage::Initialize, QueryReply::Step(ok)) => {
                self.step(ok, QueryStage::ResolveQuery);
                false
            },
            (QueryStage::ResolveQuery, QueryReply::Step(ok)) => {
                self.step(ok, QueryStage::Count { second: false });
                false
            },
            _ => {
                assert(self.found@ =~= before + Seq::<u64>::empty());
                false
            },
        }
    }

    fn step(&mut self, ok: bool, next: QueryStage)
        ensures
            final(self).stage == if ok {
                next
            } else {
                QueryStage::Failed
            },
            final(self).found@ == old(self).found@ + Seq::<u64>::empty(),
    {
        self.stage = if ok {
            next
        } else {
            QueryStage::Failed
        };
        assert(self.found@ =~= self.found@ + Seq::<u64>::empty());
    }

    /// What was found, once the query is over; `None` where no display could be
    /// opened.
    pub fn outcome(self) -> (r: Option<Vec<u64>>)
        requires
            self.stage == QueryStage::Done || self.stage == QueryStage::Failed,
        ensures
            r == if self.stage == QueryStage::Done {
                Some(self.found)
            } else {
                None
            },
    {
        match self.stage {
            QueryStage::Done => Some(self.found),
            _ => None,
        }
    }
}

/// A query whose display is open ends by asking about both formats in turn,
/// whatever is answered about the first, and lists the modifiers of the first
/// before those of the second.
pub proof fn both_formats_are_asked_about(
    a: QueryReply,
    b: QueryReply,
    c: QueryReply,
    d: QueryReply,
)
    requires
        a matches QueryReply::Count { ok, count } && ok && count > 0,
        b is Modifiers,
        c matches QueryReply::Count { ok, count } && ok && count > 0,
        d is Modifiers,
    ensures
        ({
            let s1 = stage_after(QueryStage::Count { second: false }, a);
            let s2 = stage_after(s1, b);
            let s3 = stage_after(s2, c);
            &&& s2 == (QueryStage::Count { second: true })
            &&& stage_after(s3, d) == QueryStage::Done
            &&& found_by(s1, b) + found_by(s3, d) == (match b->Modifiers_0 {
                Some(m) => sampleable(m, m.count as int),
                None => Seq::empty(),
            }) + (match d->Modifiers_0 {
                Some(m) => sampleable(m, m.count as int),
                None => Seq::empty(),
            })
        }),
        forall|skip: QueryReply|
            (skip matches QueryReply::Count { ok, count } && (!ok || count <= 0)) ==> #[trigger]
            stage_after(QueryStage::Count { second: false }, skip) == (QueryStage::Count {
                second: true,
            }),
{
}

/// The display is opened step by step; a step that fails ends the query without a
/// result, and closes the node exactly where no device could be made on it.
pub proof fn queries_open_step_by_step(ok: bool, close: bool)
    ensures
        forall|m: &mut ModifierQuery|
            #[trigger] call_ensures(
                ModifierQuery::advance,
                (m, QueryReply::Step(ok)),
                close,
            ) ==> {
                let before = m.stage;
                let after = final(m).stage;
                &&& ok && before == QueryStage::OpenNode ==> after == QueryStage::CreateGbm
                &&& ok && before == QueryStage::CreateGbm ==> after == QueryStage::LoadLibrary
                &&& ok && before == QueryStage::LoadLibrary ==> after == QueryStage::LoadEgl
                &&& ok && before == QueryStage::LoadEgl ==> after == QueryStage::GetDisplay
                &&& ok && before == QueryStage::GetDisplay ==> after == QueryStage::Initialize
                &&& ok && before == QueryStage::Initialize ==> after == QueryStage::ResolveQuery
                &&& ok && before == QueryStage::ResolveQuery ==> after == (QueryStage::Count {
                    second: false,
                })
                &&& !ok && !(before is Count) && !(before is Fetch) && before != QueryStage::Done
                    ==> after == QueryStage::Failed
                &&& close <==> !ok && before == QueryStage::CreateGbm
                &&& final(m).found@ == m.found@
            },
{
}

/// The formats are asked about in order, with alpha and without; as many modifiers
/// are fetched as the format has.
pub proof fn each_format_is_counted_before_it_is_fetched(
    q: ModifierQuery,
    format: Option<u32>,
    second: bool,
    count: i32,
    close: bool,
)
    requires
        call_ensures(ModifierQuery::format, (&q,), format),
    ensures
        q.stage matches QueryStage::Count { second } ==> format == Some(
            if second {
                0x3432_5258u32
            } else {
                0x3432_5241u32
            },
        ),
        q.stage matches QueryStage::Fetch { second, .. } ==> format == Some(
            if second {
                0x3432_5258u32
            } else {
                0x3432_5241u32
            },
        ),
        !(q.stage is Count) && !(q.stage is Fetch) ==> format is None,
        forall|m: &mut ModifierQuery|
            m.stage == (QueryStage::Count { second }) && #[trigger] call_ensures(
                ModifierQuery::advance,
                (m, QueryReply::Count { ok: true, count }),
                close,
            ) ==> {
                &&& count > 0 ==> (final(m).stage matches QueryStage::Fetch { second: s, count: n }
                    && s == second && n == count)
                &&& count <= 0 && second ==> final(m).stage == QueryStage::Done
                &&& count <= 0 && !second ==> final(m).stage == (QueryStage::Count { second: true })
                &&& !close
            },
{
}

/// What was fetched is added behind what was found before; the outcome of a query
/// is everything that was found, and nothing where it failed.
pub proof fn found_modifiers_add_up(q: ModifierQuery, r: Option<Vec<u64>>, reply: ModifierReply, close: bool)
    requires
        q.stage == QueryStage::Done || q.stage == QueryStage::Failed,
        call_ensures(ModifierQuery::outcome, (q,), r),
        reply.count <= reply.modifiers@.len(),
        reply.count <= reply.external_only@.len(),
    ensures
        r is Some <==> q.stage == QueryStage::Done,
        r matches Some(v) ==> v == q.found,
        forall|m: &mut ModifierQuery|
            m.stage is Fetch && #[trigger] call_ensures(
                ModifierQuery::advance,
                (m, QueryReply::Modifiers(Some(reply))),
                close,
            ) ==> {
                &&& final(m).found@ == m.found@ + sampleable(reply, reply.count as int)
                &&& m.stage->Fetch_second ==> final(m).stage == QueryStage::Done
                &&& !m.stage->Fetch_second ==> final(m).stage == (QueryStage::Count {
                    second: true,
                })
            },
{
}

/// A query starts at its node, with nothing found.
pub proof fn queries_start_empty(r: ModifierQuery)
    requires
        call_ensures(ModifierQuery::begin, (), r),
    ensures
        r.stage == QueryStage::OpenNode,
        r.found@.len() == 0,
{
}

} // verus!
