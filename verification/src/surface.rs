//! Per-surface state and what a commit makes of it.
//!
//! Objects of the protocol are known by number: surfaces, callbacks and buffers
//! alike.

use vstd::prelude::*;

use crate::messages::Rect;

verus! {

/// A `wl_fixed` value: a signed 24.8 fixed-point number.
#[derive(Clone, Copy, Debug, PartialEq, Eq, Structural)]
pub struct Fixed(pub i32);

impl Fixed {
    /// Integer part, rounded towards zero.
    pub open spec fn whole(self) -> int {
        if self.0 >= 0 {
            self.0 as int / 256
        } else {
            -((-self.0 as int) / 256)
        }
    }

    /// Integer part, rounded towards zero.
    pub fn trunc(self) -> (r: i32)
        ensures
            r == self.whole(),
    {
        if self.0 >= 0 {
            self.0 / 256
        } else {
            let m: i64 = (-(self.0 as i64)) / 256;
            -(m as i32)
        }
    }
}

/// Crop and scale state of a surface.
#[derive(Clone, Copy, Debug)]
pub struct ViewportData {
    /// Source crop rectangle `(x, y, width, height)` in buffer coordinates.
    pub src: Option<(Fixed, Fixed, Fixed, Fixed)>,
    /// Destination size in surface coordinates.
    pub dst: Option<(i32, i32)>,
}

impl Default for ViewportData {
    fn default() -> (r: ViewportData)
        ensures
            r == (ViewportData { src: None, dst: None }),
    {
        ViewportData { src: None, dst: None }
    }
}

impl ViewportData {
    /// Sets the source rectangle. One with a negative left edge unsets it.
    pub fn set_source(&mut self, x: Fixed, y: Fixed, width: Fixed, height: Fixed)
        ensures
            *final(self) == (ViewportData {
                src: if x.0 < 0 {
                    None
                } else {
                    Some((x, y, width, height))
                },
                ..*old(self)
            }),
    {
        self.src = if x.0 < 0 {
            None
        } else {
            Some((x, y, width, height))
        };
    }

    /// Sets the destination size. One with a negative width unsets it.
    pub fn set_destination(&mut self, width: i32, height: i32)
        ensures
            *final(self) == (ViewportData {
                dst: if width < 0 {
                    None
                } else {
                    Some((width, height))
                },
                ..*old(self)
            }),
    {
        self.dst = if width < 0 {
            None
        } else {
            Some((width, height))
        };
    }
}

/// A buffer that a client attached.
#[derive(Clone, Copy, Debug, PartialEq, Eq, Structural)]
pub struct BufferRef {
    pub id: u64,
    /// Whether it lives in GPU memory.
    pub dmabuf: bool,
}

/// A point on a timeline that both sides can wait for and signal.
#[derive(Clone, Copy, Debug, PartialEq, Eq, Structural)]
pub struct TimelinePoint {
    pub timeline: u64,
    pub point: u64,
}

/// The point whose number is sent in two halves.
pub fn timeline_point(timeline: u64, hi: u32, lo: u32) -> (r: TimelinePoint)
    ensures
        r.timeline == timeline,
        r.point == hi * 0x1_0000_0000 + lo,
{
    TimelinePoint { timeline, point: hi as u64 * 0x1_0000_0000 + lo as u64 }
}

/// Explicit synchronisation of a surface: the points that hold for the next
/// commit.
#[derive(Clone, Copy, Debug)]
pub struct SurfaceSync {
    /// Signalled when the buffer may be read.
    pub pending_acquire: Option<TimelinePoint>,
    /// To be signalled when the buffer is handed back.
    pub pending_release: Option<TimelinePoint>,
}

/// A subsurface in its parent's list, with its position relative to the parent.
#[derive(Clone, Copy, Debug, PartialEq, Eq, Structural)]
pub struct SubsurfaceChild {
    pub surface: u64,
    pub x: i32,
    pub y: i32,
}

/// The two surfaces that a subsurface relates.
#[derive(Clone, Copy, Debug, PartialEq, Eq, Structural)]
pub struct SubsurfaceData {
    pub surface: u64,
    pub parent: u64,
}

/// The surface behind an `xdg_surface`.
#[derive(Clone, Copy, Debug, PartialEq, Eq, Structural)]
pub struct XdgSurfaceData {
    pub surface: u64,
}

/// The window behind an `xdg_toplevel`, and the process that owns it.
#[derive(Clone, Copy, Debug, PartialEq, Eq, Structural)]
pub struct ToplevelData {
    pub window_id: u32,
    pub pid: i32,
}

/// State of a surface.
#[derive(Debug)]
pub struct SurfaceData {
    /// The window of the surface's `xdg_toplevel`.
    pub xdg_toplevel_id: Option<u32>,
    /// Attached, and in force from the next commit on.
    pub pending_buffer: Option<BufferRef>,
    /// Committed last.
    pub current_buffer: Option<BufferRef>,
    /// Subsurfaces, from the bottom to the top.
    pub children: Vec<SubsurfaceChild>,
    pub viewport: ViewportData,
    pub shortcuts_inhibited: bool,
    /// Presentation feedback that waits for a frame.
    pub pending_feedbacks: Vec<u64>,
    pub is_layer_surface: bool,
    /// The window that the layer surface was registered as.
    pub layer_window_id: Option<u32>,
    /// Frame callbacks that wait for the next commit.
    pub surface_frame_cbs: Vec<u64>,
    pub surface_sync: Option<SurfaceSync>,
    /// What the client set as window geometry.
    pub content_rect: Option<Rect>,
    /// How a layer surface takes the keyboard, by its number on the wire.
    pub layer_keyboard_interactivity: u32,
}

impl Default for SurfaceData {
    fn default() -> (r: SurfaceData)
        ensures
            r.xdg_toplevel_id is None,
            r.pending_buffer is None,
            r.current_buffer is None,
            r.children@ == Seq::<SubsurfaceChild>::empty(),
            r.viewport == (ViewportData { src: None, dst: None }),
            !r.shortcuts_inhibited,
            r.pending_feedbacks@ == Seq::<u64>::empty(),
            !r.is_layer_surface,
            r.layer_window_id is None,
            r.surface_frame_cbs@ == Seq::<u64>::empty(),
            r.surface_sync is None,
            r.content_rect is None,
            r.layer_keyboard_interactivity == 0,
    {
        SurfaceData {
            xdg_toplevel_id: None,
            pending_buffer: None,
            current_buffer: None,
            children: Vec::new(),
            viewport: ViewportData::default(),
            shortcuts_inhibited: false,
            pending_feedbacks: Vec::new(),
            is_layer_surface: false,
            layer_window_id: None,
            surface_frame_cbs: Vec::new(),
            surface_sync: None,
            content_rect: None,
            layer_keyboard_interactivity: 0,
        }
    }
}

/// Keyboard interactivity of a layer surface that takes the keyboard for
/// itself.
pub const INTERACTIVITY_EXCLUSIVE: u32 = 1;

/// How long a commit waits for its acquire point, in nanoseconds.
pub const ACQUIRE_TIMEOUT_NS: i64 = 50_000_000;

/// The same while a recording is active: a torn frame would be recorded for
/// good, so a longer stall is accepted.
pub const ACQUIRE_TIMEOUT_RECORDING_NS: i64 = 500_000_000;

/// The first half of a commit: the points that held for it, and how long to wait
/// for the acquire point where there is one.
#[derive(Clone, Copy, Debug)]
pub struct CommitStart {
    pub acquire: Option<TimelinePoint>,
    pub timeout_ns: i64,
    pub release: Option<TimelinePoint>,
}

/// What a commit depends on besides the surface.
#[derive(Clone, Copy, Debug)]
pub struct CommitContext {
    /// Whether the acquire point was signalled in time, where there was one to
    /// wait for.
    pub acquire_signaled: bool,
    /// Whether an outer view shows the session.
    pub attached: bool,
    /// Whether the surface is the cursor's.
    pub is_cursor: bool,
    /// The session's logical size.
    pub width: u32,
    pub height: u32,
}

/// One thing that a commit has done, in the order in which it is to be done.
#[derive(Clone, Copy, Debug, PartialEq, Eq, Structural)]
pub enum CommitEffect {
    /// Hand the buffer back to its client.
    Release(BufferRef),
    /// Remember what to signal when the buffer is handed back.
    NoteReleasePoint(BufferRef, TimelinePoint),
    /// Hand the buffer back once the outer view is done with it.
    QueueDeferredRelease(BufferRef),
    /// Let the recording look at the surface.
    Tap { acquire_signaled: bool },
    /// The cursor's image may have changed.
    CursorDirty,
    /// Answer the frame callback when callbacks are next answered.
    QueueFrameCallback(u64),
    /// Note when the session last changed.
    RecordDamage,
    /// Register the layer surface as a window of that size.
    RegisterLayer { geometry: Rect, focus: bool },
}

/// The buffer effects of a commit that come before the recording looks.
pub open spec fn effects_before_tap(
    s: SurfaceData,
    start: CommitStart,
    cx: CommitContext,
) -> Seq<CommitEffect> {
    match s.pending_buffer {
        None => Seq::empty(),
        Some(new) => {
            let released: Seq<CommitEffect> = match s.current_buffer {
                Some(prev) if !prev.dmabuf => seq![CommitEffect::Release(prev)],
                _ => Seq::empty(),
            };
            let noted: Seq<CommitEffect> = match start.release {
                Some(p) => seq![CommitEffect::NoteReleasePoint(new, p)],
                None => Seq::empty(),
            };
            let deferred: Seq<CommitEffect> = if new.dmabuf && cx.attached {
                seq![CommitEffect::QueueDeferredRelease(new)]
            } else {
                Seq::empty()
            };
            released + noted + deferred
        },
    }
}

/// The buffer effects of a commit that come after the recording has looked.
pub open spec fn effects_after_tap(s: SurfaceData, cx: CommitContext) -> Seq<CommitEffect> {
    match s.pending_buffer {
        Some(new) if !(new.dmabuf && cx.attached) => seq![CommitEffect::Release(new)],
        _ => Seq::empty(),
    }
}

/// The effects of a commit that concern no buffer.
pub open spec fn closing_effects(s: SurfaceData, cx: CommitContext) -> Seq<CommitEffect> {
    let cursor: Seq<CommitEffect> = if cx.is_cursor {
        seq![CommitEffect::CursorDirty]
    } else {
        Seq::empty()
    };
    let layer: Seq<CommitEffect> = if s.is_layer_surface && s.layer_window_id is None {
        seq![
            CommitEffect::RegisterLayer {
                geometry: Rect { x: 0, y: 0, width: cx.width, height: cx.height },
                focus: s.layer_keyboard_interactivity == INTERACTIVITY_EXCLUSIVE,
            },
        ]
    } else {
        Seq::empty()
    };
    cursor + callbacks_queued(s.surface_frame_cbs@) + seq![CommitEffect::RecordDamage] + layer
}

/// Each callback is queued, in order.
pub open spec fn callbacks_queued(cbs: Seq<u64>) -> Seq<CommitEffect> {
    Seq::new(cbs.len(), |i: int| CommitEffect::QueueFrameCallback(cbs[i]))
}

/// Whether the new buffer's content is known to be complete: there was nothing to
/// wait for, or it was signalled in time.
pub open spec fn acquired(start: CommitStart, cx: CommitContext) -> bool {
    start.acquire is None || cx.acquire_signaled
}

/// Everything that a commit has done.
pub open spec fn commit_effects(s: SurfaceData, start: CommitStart, cx: CommitContext) -> Seq<
    CommitEffect,
> {
    effects_before_tap(s, start, cx) + seq![
        CommitEffect::Tap { acquire_signaled: acquired(start, cx) },
    ] + effects_after_tap(s, cx) + closing_effects(s, cx)
}

/// What `set_window_geometry` leaves as content rectangle.
pub open spec fn geometry_of(x: i32, y: i32, width: i32, height: i32) -> Option<Rect> {
    if x == -1 && y == -1 && width <= 0 && height <= 0 {
        None
    } else {
        Some(
            Rect {
                x,
                y,
                width: if width > 0 {
                    width as u32
                } else {
                    0
                },
                height: if height > 0 {
                    height as u32
                } else {
                    0
                },
            },
        )
    }
}

impl SurfaceData {
    /// Everything but the named fields is the same.
    pub open spec fn same_but_buffers(self, other: SurfaceData) -> bool {
        self == (SurfaceData {
            pending_buffer: self.pending_buffer,
            current_buffer: self.current_buffer,
            surface_frame_cbs: self.surface_frame_cbs,
            ..other
        })
    }

    /// Attaches a buffer, or none, for the next commit.
    pub fn attach(&mut self, buffer: Option<BufferRef>)
        ensures
            *final(self) == (SurfaceData { pending_buffer: buffer, ..*old(self) }),
    {
        self.pending_buffer = buffer;
    }

    /// Asks for a frame callback. It waits for the surface's next commit; and it
    /// is to be queued at once as well, so that it is answered even if no commit
    /// comes.
    pub fn frame(&mut self, callback: u64) -> (r: CommitEffect)
        ensures
            r == CommitEffect::QueueFrameCallback(callback),
            final(self).surface_frame_cbs@ == old(self).surface_frame_cbs@.push(callback),
            final(self).same_but_buffers(*old(self)),
            final(self).pending_buffer == old(self).pending_buffer,
            final(self).current_buffer == old(self).current_buffer,
    {
        self.surface_frame_cbs.push(callback);
        CommitEffect::QueueFrameCallback(callback)
    }

    /// Asks for presentation feedback.
    pub fn feedback(&mut self, feedback: u64)
        ensures
            final(self).pending_feedbacks@ == old(self).pending_feedbacks@.push(feedback),
            *final(self) == (SurfaceData {
                pending_feedbacks: final(self).pending_feedbacks,
                ..*old(self)
            }),
    {
        self.pending_feedbacks.push(feedback);
    }

    /// Enables explicit synchronisation. A surface can have it only once.
    pub fn enable_sync(&mut self) -> (r: Result<(), &'static str>)
        ensures
            match old(self).surface_sync {
                None => r is Ok && *final(self) == (SurfaceData {
                    surface_sync: Some(
                        SurfaceSync { pending_acquire: None, pending_release: None },
                    ),
                    ..*old(self)
                }),
                Some(_) => (r matches Err(e) && e@ == "surface already has a sync object"@)
                    && *final(self) == *old(self),
            },
    {
        if self.surface_sync.is_some() {
            return Err("surface already has a sync object");
        }
        self.surface_sync = Some(SurfaceSync { pending_acquire: None, pending_release: None });
        Ok(())
    }

    /// Sets the point that the next commit waits for.
    pub fn set_acquire_point(&mut self, p: TimelinePoint)
        ensures
            *final(self) == (SurfaceData {
                surface_sync: match old(self).surface_sync {
                    Some(s) => Some(SurfaceSync { pending_acquire: Some(p), ..s }),
                    None => None,
                },
                ..*old(self)
            }),
    {
        if let Some(s) = self.surface_sync {
            self.surface_sync = Some(
                SurfaceSync { pending_acquire: Some(p), pending_release: s.pending_release },
            );
        }
    }

    /// Sets the point that is signalled when the next commit's buffer is handed
    /// back.
    pub fn set_release_point(&mut self, p: TimelinePoint)
        ensures
            *final(self) == (SurfaceData {
                surface_sync: match old(self).surface_sync {
                    Some(s) => Some(SurfaceSync { pending_release: Some(p), ..s }),
                    None => None,
                },
                ..*old(self)
            }),
    {
        if let Some(s) = self.surface_sync {
            self.surface_sync = Some(
                SurfaceSync { pending_acquire: s.pending_acquire, pending_release: Some(p) },
            );
        }
    }

    /// Starts a commit: takes the points that hold for it. Where there is an
    /// acquire point, it is to be waited for before the commit is finished.
    pub fn begin_commit(&mut self, recording: bool) -> (r: CommitStart)
        ensures
            r.timeout_ns == if recording {
                ACQUIRE_TIMEOUT_RECORDING_NS
            } else {
                ACQUIRE_TIMEOUT_NS
            },
            match old(self).surface_sync {
                None => r.acquire is None && r.release is None && *final(self) == *old(self),
                Some(s) => r.acquire == s.pending_acquire && r.release == s.pending_release
                    && *final(self) == (SurfaceData {
                    surface_sync: Some(
                        SurfaceSync { pending_acquire: None, pending_release: None },
                    ),
                    ..*old(self)
                }),
            },
    {
        let timeout_ns: i64 = if recording {
            ACQUIRE_TIMEOUT_RECORDING_NS
        } else {
            ACQUIRE_TIMEOUT_NS
        };
        match self.surface_sync {
            None => CommitStart { acquire: None, timeout_ns, release: None },
            Some(s) => {
                self.surface_sync = Some(
                    SurfaceSync { pending_acquire: None, pending_release: None },
                );
                CommitStart { acquire: s.pending_acquire, timeout_ns, release: s.pending_release }
            },
        }
    }

    /// Promotes the pending buffer, and lists what that does to the buffers
    /// before the recording looks.
    fn promote(&mut self, start: CommitStart, cx: CommitContext, effects: &mut Vec<CommitEffect>)
        ensures
            final(effects)@ == old(effects)@ + effects_before_tap(*old(self), start, cx),
            *final(self) == (SurfaceData {
                pending_buffer: None,
                current_buffer: match old(self).pending_buffer {
                    Some(b) => Some(b),
                    None => old(self).current_buffer,
                },
                ..*old(self)
            }),
    {
        let ghost before = effects@;
        match self.pending_buffer {
            None => {
                assert(effects@ =~= before + effects_before_tap(*self, start, cx));
            },
            Some(new) => {
                let ghost s = *self;
                match self.current_buffer {
                    Some(prev) => {
                        if !prev.dmabuf {
                            effects.push(CommitEffect::Release(prev));
                        }
                    },
                    None => {},
                }
                match start.release {
                    Some(p) => {
                        effects.push(CommitEffect::NoteReleasePoint(new, p));
                    },
                    None => {},
                }
                if new.dmabuf && cx.attached {
                    effects.push(CommitEffect::QueueDeferredRelease(new));
                }
                self.pending_buffer = None;
                self.current_buffer = Some(new);
                assert(effects@ =~= before + effects_before_tap(s, start, cx));
            },
        }
    }

    /// Finishes a commit, and lists what it has done.
    pub fn finish_commit(&mut self, start: CommitStart, cx: CommitContext) -> (r: Vec<CommitEffect>)
        ensures
            r@ == commit_effects(*old(self), start, cx),
            final(self).pending_buffer is None,
            final(self).current_buffer == match old(self).pending_buffer {
                Some(b) => Some(b),
                None => old(self).current_buffer,
            },
            final(self).surface_frame_cbs@ == Seq::<u64>::empty(),
            final(self).same_but_buffers(*old(self)),
    {
        let ghost s = *self;
        let mut effects: Vec<CommitEffect> = Vec::new();
        let kept: Option<BufferRef> = match self.pending_buffer {
            Some(new) => if new.dmabuf && cx.attached {
                None
            } else {
                Some(new)
            },
            None => None,
        };
        self.promote(start, cx, &mut effects);
        let acquire_signaled: bool = start.acquire.is_none() || cx.acquire_signaled;
        effects.push(CommitEffect::Tap { acquire_signaled });
        match kept {
            Some(b) => {
                effects.push(CommitEffect::Release(b));
            },
            None => {},
        }
        let ghost head = effects_before_tap(s, start, cx) + seq![
            CommitEffect::Tap { acquire_signaled: acquired(start, cx) },
        ] + effects_after_tap(s, cx);
        assert(effects@ =~= head);
        if cx.is_cursor {
            effects.push(CommitEffect::CursorDirty);
        }
        let ghost base = effects@;
        let mut i: usize = 0;
        let n: usize = self.surface_frame_cbs.len();
        let ghost cbs = self.surface_frame_cbs@;
        assert(effects@ =~= base + callbacks_queued(cbs.take(0)));
        while i < n
            invariant
                i <= n == cbs.len(),
                self.surface_frame_cbs@ == cbs,
                effects@ == base + callbacks_queued(cbs.take(i as int)),
            decreases n - i,
        {
            effects.push(CommitEffect::QueueFrameCallback(self.surface_frame_cbs[i]));
            i = i + 1;
            assert(effects@ =~= base + callbacks_queued(cbs.take(i as int)));
        }
        assert(cbs.take(n as int) =~= cbs);
        self.surface_frame_cbs = Vec::new();
        effects.push(CommitEffect::RecordDamage);
        if self.is_layer_surface && self.layer_window_id.is_none() {
            effects.push(
                CommitEffect::RegisterLayer {
                    geometry: Rect { x: 0, y: 0, width: cx.width, height: cx.height },
                    focus: self.layer_keyboard_interactivity == INTERACTIVITY_EXCLUSIVE,
                },
            );
        }
        assert(effects@ =~= head + closing_effects(s, cx));
        assert(head + closing_effects(s, cx) =~= commit_effects(s, start, cx));
        effects
    }

    /// Notes the window that the layer surface was registered as.
    pub fn layer_registered(&mut self, window_id: u32)
        ensures
            *final(self) == (SurfaceData { layer_window_id: Some(window_id), ..*old(self) }),
    {
        self.layer_window_id = Some(window_id);
    }

    /// Gives the surface the role of a layer surface.
    pub fn become_layer(&mut self)
        ensures
            *final(self) == (SurfaceData { is_layer_surface: true, ..*old(self) }),
    {
        self.is_layer_surface = true;
    }

    /// Sets how the layer surface takes the keyboard. Numbers that the protocol
    /// does not define are kept as they are.
    pub fn set_keyboard_interactivity(&mut self, wire: u32)
        ensures
            *final(self) == (SurfaceData { layer_keyboard_interactivity: wire, ..*old(self) }),
    {
        self.layer_keyboard_interactivity = wire;
    }

    /// Takes the layer surface's window away, because the layer surface is
    /// destroyed. The window that is returned is to be removed.
    pub fn layer_destroyed(&mut self) -> (r: Option<u32>)
        ensures
            r == old(self).layer_window_id,
            *final(self) == (SurfaceData { layer_window_id: None, ..*old(self) }),
    {
        let wid: Option<u32> = self.layer_window_id;
        self.layer_window_id = None;
        wid
    }

    /// Notes the window of the surface's `xdg_toplevel`.
    pub fn become_toplevel(&mut self, window_id: u32)
        ensures
            *final(self) == (SurfaceData { xdg_toplevel_id: Some(window_id), ..*old(self) }),
    {
        self.xdg_toplevel_id = Some(window_id);
    }

    /// Sets the window geometry. Negative sizes count as zero; a rectangle at
    /// `(-1, -1)` without a size unsets it.
    pub fn set_window_geometry(&mut self, x: i32, y: i32, width: i32, height: i32)
        ensures
            *final(self) == (SurfaceData {
                content_rect: geometry_of(x, y, width, height),
                ..*old(self)
            }),
    {
        self.content_rect = if x == -1 && y == -1 && width <= 0 && height <= 0 {
            None
        } else {
            Some(
                Rect {
                    x,
                    y,
                    width: if width > 0 {
                        width as u32
                    } else {
                        0
                    },
                    height: if height > 0 {
                        height as u32
                    } else {
                        0
                    },
                },
            )
        };
    }

    /// Inhibits or frees keyboard shortcuts.
    pub fn set_shortcuts_inhibited(&mut self, inhibited: bool)
        ensures
            *final(self) == (SurfaceData { shortcuts_inhibited: inhibited, ..*old(self) }),
    {
        self.shortcuts_inhibited = inhibited;
    }

    /// Resets crop and scale.
    pub fn viewport_destroyed(&mut self)
        ensures
            *final(self) == (SurfaceData {
                viewport: ViewportData { src: None, dst: None },
                ..*old(self)
            }),
    {
        self.viewport = ViewportData::default();
    }
}

/// While the recording looks, the buffer that it looks at is not yet handed
/// back: of the effects before it none releases the new buffer, unless the
/// client attached the previous buffer once more.
pub proof fn recording_reads_before_release(
    s: SurfaceData,
    start: CommitStart,
    cx: CommitContext,
    i: int,
)
    requires
        s.pending_buffer is Some,
        s.current_buffer != s.pending_buffer,
        0 <= i < effects_before_tap(s, start, cx).len(),
    ensures
        commit_effects(s, start, cx)[i] != CommitEffect::Release(s.pending_buffer->0),
        commit_effects(s, start, cx)[effects_before_tap(s, start, cx).len() as int]
            == (CommitEffect::Tap { acquire_signaled: acquired(start, cx) }),
{
    assert(commit_effects(s, start, cx)[i] == effects_before_tap(s, start, cx)[i]);
}

/// A GPU buffer is handed back once for each commit that makes it current, at
/// once or when the outer view is done with it, and never by the commit that
/// replaces it.
pub proof fn gpu_buffers_are_handed_back_once(
    s: SurfaceData,
    start: CommitStart,
    cx: CommitContext,
    new: BufferRef,
)
    requires
        s.pending_buffer == Some(new),
        new.dmabuf,
    ensures
        cx.attached ==> effects_before_tap(s, start, cx).last()
            == CommitEffect::QueueDeferredRelease(new) && effects_after_tap(s, cx).len() == 0,
        !cx.attached ==> effects_after_tap(s, cx) == seq![CommitEffect::Release(new)]
            && !effects_before_tap(s, start, cx).contains(CommitEffect::QueueDeferredRelease(new)),
        s.current_buffer matches Some(prev) ==> prev.dmabuf ==> !effects_before_tap(
            s,
            start,
            cx,
        ).contains(CommitEffect::Release(prev)),
{
}

/// A commit without a new buffer hands nothing back, and still answers the
/// surface's frame callbacks.
pub proof fn empty_commits_answer_callbacks(
    s: SurfaceData,
    start: CommitStart,
    cx: CommitContext,
    i: int,
)
    requires
        s.pending_buffer is None,
        0 <= i < s.surface_frame_cbs@.len(),
    ensures
        effects_before_tap(s, start, cx).len() == 0,
        effects_after_tap(s, cx).len() == 0,
        commit_effects(s, start, cx).contains(
            CommitEffect::QueueFrameCallback(s.surface_frame_cbs@[i]),
        ),
{
    let k: int = if cx.is_cursor {
        2
    } else {
        1
    };
    assert(commit_effects(s, start, cx)[k + i] == CommitEffect::QueueFrameCallback(
        s.surface_frame_cbs@[i],
    ));
}

/// A layer surface is registered by its first commit alone, and takes the focus
/// only where it takes the keyboard for itself.
pub proof fn layers_register_once(s: SurfaceData, start: CommitStart, cx: CommitContext, i: int)
    requires
        0 <= i < commit_effects(s, start, cx).len(),
        commit_effects(s, start, cx)[i] is RegisterLayer,
    ensures
        s.is_layer_surface,
        s.layer_window_id is None,
        commit_effects(s, start, cx)[i]->focus <==> s.layer_keyboard_interactivity
            == INTERACTIVITY_EXCLUSIVE,
{
    let a = effects_before_tap(s, start, cx);
    let t = seq![CommitEffect::Tap { acquire_signaled: acquired(start, cx) }];
    let b = effects_after_tap(s, cx);
    let c = closing_effects(s, cx);
    if i < a.len() {
        assert(commit_effects(s, start, cx)[i] == a[i]);
    } else if i < a.len() + 1 {
        assert(commit_effects(s, start, cx)[i] == t[i - a.len()]);
    } else if i < a.len() + 1 + b.len() {
        assert(commit_effects(s, start, cx)[i] == b[i - a.len() - 1]);
    } else {
        assert(commit_effects(s, start, cx)[i] == c[i - a.len() - 1 - b.len()]);
    }
}

/// The effects of a commit in one piece: those before the tap, the tap, and those
/// after it.
proof fn lemma_effects(s: SurfaceData, start: CommitStart, cx: CommitContext)
    ensures
        ({
            let e = commit_effects(s, start, cx);
            let a = effects_before_tap(s, start, cx);
            let b = effects_after_tap(s, cx);
            let c = closing_effects(s, cx);
            &&& e.len() == a.len() + 1 + b.len() + c.len()
            &&& forall|i: int| 0 <= i < a.len() ==> #[trigger] e[i] == a[i]
            &&& e[a.len() as int] == (CommitEffect::Tap { acquire_signaled: acquired(start, cx) })
            &&& forall|i: int|
                a.len() + 1 <= i < a.len() + 1 + b.len() ==> #[trigger] e[i] == b[i - a.len() - 1]
            &&& forall|i: int|
                a.len() + 1 + b.len() <= i < e.len() ==> #[trigger] e[i] == c[i - a.len() - 1
                    - b.len()]
        }),
{
}

/// Every commit of a new buffer hands that buffer back by its own effects,
/// whatever its kind and whether or not a view is attached: at once, after the
/// recording has looked, or once the view is done with it. The latter happens
/// exactly to a GPU buffer while a view is attached, and to no other buffer.
pub proof fn new_buffers_are_always_handed_back(
    s: SurfaceData,
    start: CommitStart,
    cx: CommitContext,
    new: BufferRef,
)
    requires
        s.pending_buffer == Some(new),
    ensures
        ({
            let e = commit_effects(s, start, cx);
            &&& new.dmabuf && cx.attached ==> e.contains(CommitEffect::QueueDeferredRelease(new))
            &&& !(new.dmabuf && cx.attached) ==> exists|t: int, i: int|
                #![trigger e[t], e[i]]
                0 <= t < i < e.len() && e[t] is Tap && e[i] == CommitEffect::Release(new)
            &&& forall|i: int|
                0 <= i < e.len() && (#[trigger] e[i]) is QueueDeferredRelease ==> e[i]
                    == CommitEffect::QueueDeferredRelease(new) && new.dmabuf && cx.attached
        }),
{
    lemma_effects(s, start, cx);
    let e = commit_effects(s, start, cx);
    let a = effects_before_tap(s, start, cx);
    if new.dmabuf && cx.attached {
        assert(a.last() == CommitEffect::QueueDeferredRelease(new));
        assert(e[a.len() - 1] == CommitEffect::QueueDeferredRelease(new));
    } else {
        let t = a.len() as int;
        assert(effects_after_tap(s, cx)[0] == CommitEffect::Release(new));
        assert(e[t] is Tap && e[t + 1] == CommitEffect::Release(new));
    }
}

/// A shared-memory buffer that a commit replaces is handed back before the
/// recording looks. A GPU buffer that is replaced was handed back by the commit
/// that made it current, and is not handed back again. A buffer is handed back
/// only where another takes its place.
pub proof fn replaced_buffers_are_handed_back(
    s: SurfaceData,
    start: CommitStart,
    cx: CommitContext,
    prev: BufferRef,
)
    requires
        s.current_buffer == Some(prev),
    ensures
        ({
            let e = commit_effects(s, start, cx);
            &&& s.pending_buffer is Some && !prev.dmabuf ==> exists|i: int, t: int|
                #![trigger e[i], e[t]]
                0 <= i < t < e.len() && e[i] == CommitEffect::Release(prev) && e[t] is Tap
            &&& prev.dmabuf && s.pending_buffer != Some(prev) ==> !e.contains(
                CommitEffect::Release(prev),
            )
            &&& s.pending_buffer is None ==> forall|i: int|
                0 <= i < e.len() ==> !((#[trigger] e[i]) is Release)
        }),
{
    lemma_effects(s, start, cx);
    let e = commit_effects(s, start, cx);
    let a = effects_before_tap(s, start, cx);
    if s.pending_buffer is Some && !prev.dmabuf {
        let t = a.len() as int;
        assert(a[0] == CommitEffect::Release(prev));
        assert(e[0] == CommitEffect::Release(prev) && e[t] is Tap);
    }
}

/// The recording looks exactly once at each commit, and is told that the content
/// is complete where there was no acquire point or where it was signalled.
pub proof fn each_commit_is_tapped_once(s: SurfaceData, start: CommitStart, cx: CommitContext)
    ensures
        ({
            let e = commit_effects(s, start, cx);
            exists|t: int|
                #![trigger e[t]]
                0 <= t < e.len() && e[t] == (CommitEffect::Tap {
                    acquire_signaled: start.acquire is None || cx.acquire_signaled,
                }) && forall|i: int| 0 <= i < e.len() && i != t ==> !((#[trigger] e[i]) is Tap)
        }),
{
    lemma_effects(s, start, cx);
    let e = commit_effects(s, start, cx);
    let t = effects_before_tap(s, start, cx).len() as int;
    assert(e[t] is Tap);
    assert forall|i: int| 0 <= i < e.len() && i != t implies !((#[trigger] e[i]) is Tap) by {}
}

/// A release point is remembered for the buffer that it came with, before the
/// recording looks; and none is remembered where none was set or no buffer came.
pub proof fn release_points_go_with_the_new_buffer(
    s: SurfaceData,
    start: CommitStart,
    cx: CommitContext,
)
    ensures
        ({
            let e = commit_effects(s, start, cx);
            &&& s.pending_buffer is Some && start.release is Some ==> exists|i: int, t: int|
                #![trigger e[i], e[t]]
                0 <= i < t < e.len() && e[i] == CommitEffect::NoteReleasePoint(
                    s.pending_buffer->0,
                    start.release->0,
                ) && e[t] is Tap
            &&& s.pending_buffer is None || start.release is None ==> forall|i: int|
                0 <= i < e.len() ==> !((#[trigger] e[i]) is NoteReleasePoint)
        }),
{
    lemma_effects(s, start, cx);
    let e = commit_effects(s, start, cx);
    let a = effects_before_tap(s, start, cx);
    if s.pending_buffer is Some && start.release is Some {
        let i: int = match s.current_buffer {
            Some(prev) if !prev.dmabuf => 1,
            _ => 0,
        };
        let t = a.len() as int;
        assert(a[i] == CommitEffect::NoteReleasePoint(s.pending_buffer->0, start.release->0));
        assert(e[i] == a[i] && e[t] is Tap);
    }
}

/// Every frame callback that waits for a commit is queued by it, in the order in
/// which the client asked, and nothing else is queued.
pub proof fn callbacks_are_queued_in_order(s: SurfaceData, start: CommitStart, cx: CommitContext)
    ensures
        ({
            let e = commit_effects(s, start, cx);
            let cbs = s.surface_frame_cbs@;
            exists|b: int|
                #![trigger e.skip(b)]
                0 <= b && b + cbs.len() <= e.len() && (forall|i: int|
                    0 <= i < cbs.len() ==> (#[trigger] e.skip(b)[i])
                        == CommitEffect::QueueFrameCallback(cbs[i])) && (forall|i: int|
                    0 <= i < e.len() && (#[trigger] e[i]) is QueueFrameCallback ==> b <= i < b
                        + cbs.len())
        }),
{
    lemma_effects(s, start, cx);
    let e = commit_effects(s, start, cx);
    let cbs = s.surface_frame_cbs@;
    let c = closing_effects(s, cx);
    let skip: int = if cx.is_cursor {
        1
    } else {
        0
    };
    let b = effects_before_tap(s, start, cx).len() + 1 + effects_after_tap(s, cx).len() + skip;
    assert(b + cbs.len() <= e.len());
    let queued = e.skip(b);
    assert forall|i: int| 0 <= i < cbs.len() implies (#[trigger] queued[i])
        == CommitEffect::QueueFrameCallback(cbs[i]) by {
        assert(c[skip + i] == CommitEffect::QueueFrameCallback(cbs[i]));
        assert(e[b + i] == c[skip + i]);
    }
}

/// The cursor's image is marked by commits of the cursor's surface alone, and
/// every commit notes that the session changed.
pub proof fn commits_mark_what_changed(s: SurfaceData, start: CommitStart, cx: CommitContext)
    ensures
        commit_effects(s, start, cx).contains(CommitEffect::CursorDirty) <==> cx.is_cursor,
        commit_effects(s, start, cx).contains(CommitEffect::RecordDamage),
{
    lemma_effects(s, start, cx);
    let e = commit_effects(s, start, cx);
    let c = closing_effects(s, cx);
    let b = effects_before_tap(s, start, cx).len() + 1 + effects_after_tap(s, cx).len();
    let skip: int = if cx.is_cursor {
        1
    } else {
        0
    };
    if cx.is_cursor {
        assert(c[0] == CommitEffect::CursorDirty);
        assert(e[b as int] == CommitEffect::CursorDirty);
    }
    let d = skip + s.surface_frame_cbs@.len();
    assert(c[d] == CommitEffect::RecordDamage);
    assert(e[b + d] == CommitEffect::RecordDamage);
}

/// A layer surface without a window is registered at the origin, in the session's
/// size, by its commit; no other surface is. It takes the focus exactly where its
/// keyboard interactivity is number one.
pub proof fn layers_cover_the_session(s: SurfaceData, start: CommitStart, cx: CommitContext)
    ensures
        ({
            let e = commit_effects(s, start, cx);
            let registered = CommitEffect::RegisterLayer {
                geometry: Rect { x: 0, y: 0, width: cx.width, height: cx.height },
                focus: s.layer_keyboard_interactivity == 1,
            };
            &&& s.is_layer_surface && s.layer_window_id is None ==> e.contains(registered)
            &&& forall|i: int|
                0 <= i < e.len() && (#[trigger] e[i]) is RegisterLayer ==> s.is_layer_surface
                    && s.layer_window_id is None && e[i] == registered
        }),
{
    lemma_effects(s, start, cx);
    let e = commit_effects(s, start, cx);
    let c = closing_effects(s, cx);
    if s.is_layer_surface && s.layer_window_id is None {
        assert(c.last() is RegisterLayer);
        assert(e.last() == c.last());
    }
}

/// A finished commit has the effects of [`commit_effects`], makes the pending
/// buffer current, and leaves nothing pending; a second commit right after it
/// finds no buffer to hand back.
pub proof fn commits_promote_the_pending_buffer(
    start: CommitStart,
    cx: CommitContext,
    r: Vec<CommitEffect>,
)
    ensures
        forall|m: &mut SurfaceData|
            #[trigger] call_ensures(SurfaceData::finish_commit, (m, start, cx), r) ==> {
                &&& r@ == commit_effects(*m, start, cx)
                &&& m.pending_buffer is Some ==> final(m).current_buffer == m.pending_buffer
                &&& m.pending_buffer is None ==> final(m).current_buffer == m.current_buffer
                &&& final(m).pending_buffer is None
                &&& final(m).surface_frame_cbs@.len() == 0
                &&& final(m).children == m.children
                &&& final(m).viewport == m.viewport
                &&& final(m).layer_window_id == m.layer_window_id
            },
{
}

/// A commit takes the points that were set for it: each is taken once, as what it
/// was set as. While a recording is active the acquire point is waited for up to
/// half a second, else up to a twentieth of one.
pub proof fn commits_take_their_points_once(
    acquire: TimelinePoint,
    release: TimelinePoint,
    recording: bool,
    r: CommitStart,
    again: CommitStart,
)
    ensures
        forall|a: &mut SurfaceData, b: &mut SurfaceData, c: &mut SurfaceData, d: &mut SurfaceData|
            a.surface_sync is Some && *final(a) == *b && *final(b) == *c && *final(c) == *d
                && #[trigger] call_ensures(SurfaceData::set_acquire_point, (a, acquire), ())
                && #[trigger] call_ensures(SurfaceData::set_release_point, (b, release), ())
                && #[trigger] call_ensures(SurfaceData::begin_commit, (c, recording), r)
                && #[trigger] call_ensures(SurfaceData::begin_commit, (d, recording), again) ==> {
                &&& r.acquire == Some(acquire)
                &&& r.release == Some(release)
                &&& r.timeout_ns == if recording {
                    500_000_000i64
                } else {
                    50_000_000i64
                }
                &&& again.acquire is None
                &&& again.release is None
                &&& final(d).surface_sync is Some
            },
{
}

/// The two halves of a point's number make up the number: the low half is what
/// remains of it by two to the thirty-two.
pub proof fn timeline_points_keep_both_halves(timeline: u64, hi: u32, lo: u32, r: TimelinePoint)
    requires
        call_ensures(timeline_point, (timeline, hi, lo), r),
    ensures
        r.timeline == timeline,
        r.point as int % 0x1_0000_0000 == lo,
        r.point as int / 0x1_0000_0000 == hi,
{
}

/// The integer part of a fixed-point number is less than one away from it,
/// towards zero.
pub proof fn fixed_numbers_round_towards_zero(f: Fixed, r: i32)
    requires
        call_ensures(Fixed::trunc, (f,), r),
    ensures
        f.0 >= 0 ==> 0 <= f.0 - r * 256 < 256 && r >= 0,
        f.0 < 0 ==> -256 < f.0 - r * 256 <= 0 && r <= 0,
{
}

/// Window geometry keeps its position and its size where those are positive; it
/// is unset exactly by a rectangle at `(-1, -1)` without a size.
pub proof fn window_geometry_is_kept(x: i32, y: i32, width: i32, height: i32)
    ensures
        forall|m: &mut SurfaceData|
            #[trigger] call_ensures(
                SurfaceData::set_window_geometry,
                (m, x, y, width, height),
                (),
            ) ==> {
                &&& final(m).content_rect is None <==> x == -1 && y == -1 && width <= 0 && height
                    <= 0
                &&& final(m).content_rect matches Some(g) ==> {
                    &&& g.x == x
                    &&& g.y == y
                    &&& width > 0 ==> g.width == width
                    &&& width <= 0 ==> g.width == 0
                    &&& height > 0 ==> g.height == height
                    &&& height <= 0 ==> g.height == 0
                }
                &&& final(m).current_buffer == m.current_buffer
                &&& final(m).xdg_toplevel_id == m.xdg_toplevel_id
            },
{
}

/// Setting the crop leaves the destination alone and the other way round; a
/// negative left edge or width unsets.
pub proof fn viewport_halves_are_independent(
    x: Fixed,
    y: Fixed,
    width: Fixed,
    height: Fixed,
    w: i32,
    h: i32,
)
    ensures
        forall|a: &mut ViewportData, b: &mut ViewportData|
            #[trigger] call_ensures(ViewportData::set_source, (a, x, y, width, height), ())
                && #[trigger] call_ensures(ViewportData::set_destination, (b, w, h), ()) && *b
                == *final(a) ==> {
                &&& x.0 >= 0 ==> final(b).src == Some((x, y, width, height))
                &&& x.0 < 0 ==> final(b).src is None
                &&& w >= 0 ==> final(b).dst == Some((w, h))
                &&& w < 0 ==> final(b).dst is None
            },
{
}

/// A buffer that is attached is in force from the next commit on, and only one
/// commit promotes it.
pub proof fn attached_buffers_become_current(
    buffer: BufferRef,
    start: CommitStart,
    cx: CommitContext,
    r: Vec<CommitEffect>,
    again: Vec<CommitEffect>,
)
    ensures
        forall|a: &mut SurfaceData, b: &mut SurfaceData, c: &mut SurfaceData|
            *final(a) == *b && *final(b) == *c && #[trigger] call_ensures(
                SurfaceData::attach,
                (a, Some(buffer)),
                (),
            ) && #[trigger] call_ensures(SurfaceData::finish_commit, (b, start, cx), r)
                && #[trigger] call_ensures(SurfaceData::finish_commit, (c, start, cx), again) ==> {
                &&& b.current_buffer == a.current_buffer
                &&& final(b).current_buffer == Some(buffer)
                &&& final(c).current_buffer == Some(buffer)
                &&& forall|i: int|
                    0 <= i < again@.len() ==> !((#[trigger] again@[i]) is Release)
                        && !(again@[i] is QueueDeferredRelease)
            },
{
    assert forall|a: &mut SurfaceData, b: &mut SurfaceData, c: &mut SurfaceData|
        *final(a) == *b && *final(b) == *c && #[trigger] call_ensures(
            SurfaceData::attach,
            (a, Some(buffer)),
            (),
        ) && #[trigger] call_ensures(SurfaceData::finish_commit, (b, start, cx), r) && #[trigger]
        call_ensures(SurfaceData::finish_commit, (c, start, cx), again) implies forall|i: int|
        0 <= i < again@.len() ==> !((#[trigger] again@[i]) is Release)
            && !(again@[i] is QueueDeferredRelease) by {
        lemma_effects(*c, start, cx);
    }
}

/// A frame callback is queued at once and waits for the commit as well; feedback
/// waits behind what waits already.
pub proof fn callbacks_wait_for_the_commit(callback: u64, r: CommitEffect, feedback: u64)
    ensures
        forall|m: &mut SurfaceData|
            #[trigger] call_ensures(SurfaceData::frame, (m, callback), r) ==> r
                == CommitEffect::QueueFrameCallback(callback) && final(m).surface_frame_cbs@
                == m.surface_frame_cbs@.push(callback) && final(m).pending_buffer
                == m.pending_buffer && final(m).current_buffer == m.current_buffer,
        forall|m: &mut SurfaceData|
            #[trigger] call_ensures(SurfaceData::feedback, (m, feedback), ())
                ==> final(m).pending_feedbacks@ == m.pending_feedbacks@.push(feedback)
                && final(m).surface_frame_cbs == m.surface_frame_cbs,
{
}

/// Explicit synchronisation can be enabled once, with no points set; a surface
/// without it takes no points.
pub proof fn synchronisation_is_enabled_once(
    r: Result<(), &'static str>,
    again: Result<(), &'static str>,
    p: TimelinePoint,
)
    ensures
        forall|a: &mut SurfaceData, b: &mut SurfaceData|
            *final(a) == *b && #[trigger] call_ensures(SurfaceData::enable_sync, (a,), r)
                && #[trigger] call_ensures(SurfaceData::enable_sync, (b,), again) ==> {
                &&& r is Ok <==> a.surface_sync is None
                &&& r is Ok ==> (b.surface_sync matches Some(s) && s.pending_acquire is None
                    && s.pending_release is None)
                &&& again is Err && *final(b) == *b
            },
        forall|m: &mut SurfaceData|
            m.surface_sync is None && #[trigger] call_ensures(
                SurfaceData::set_acquire_point,
                (m, p),
                (),
            ) ==> final(m).surface_sync is None,
        forall|m: &mut SurfaceData|
            m.surface_sync is None && #[trigger] call_ensures(
                SurfaceData::set_release_point,
                (m, p),
                (),
            ) ==> final(m).surface_sync is None,
{
}

/// Roles and settings are noted as they are given, and each leaves the buffers
/// alone.
pub proof fn roles_are_noted_as_given(
    window_id: u32,
    wire: u32,
    inhibited: bool,
    gone: Option<u32>,
)
    ensures
        forall|m: &mut SurfaceData|
            #[trigger] call_ensures(SurfaceData::layer_registered, (m, window_id), ())
                ==> final(m).layer_window_id == Some(window_id) && final(m).current_buffer
                == m.current_buffer,
        forall|m: &mut SurfaceData|
            #[trigger] call_ensures(SurfaceData::become_layer, (m,), ())
                ==> final(m).is_layer_surface && final(m).layer_window_id == m.layer_window_id,
        forall|m: &mut SurfaceData|
            #[trigger] call_ensures(SurfaceData::set_keyboard_interactivity, (m, wire), ())
                ==> final(m).layer_keyboard_interactivity == wire,
        forall|m: &mut SurfaceData|
            #[trigger] call_ensures(SurfaceData::layer_destroyed, (m,), gone) ==> gone
                == m.layer_window_id && final(m).layer_window_id is None,
        forall|m: &mut SurfaceData|
            #[trigger] call_ensures(SurfaceData::become_toplevel, (m, window_id), ())
                ==> final(m).xdg_toplevel_id == Some(window_id),
        forall|m: &mut SurfaceData|
            #[trigger] call_ensures(SurfaceData::set_shortcuts_inhibited, (m, inhibited), ())
                ==> final(m).shortcuts_inhibited == inhibited,
        forall|m: &mut SurfaceData|
            #[trigger] call_ensures(SurfaceData::viewport_destroyed, (m,), ())
                ==> final(m).viewport.src is None && final(m).viewport.dst is None
                && final(m).current_buffer == m.current_buffer,
{
}

} // verus!
