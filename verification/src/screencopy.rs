//! Copies of the screen for capture tools inside the session.

use vstd::prelude::*;

use crate::buffer::ShmFormat;

verus! {

/// A frame that a client asked for. It can be copied once.
#[derive(Clone, Copy, Debug, PartialEq, Eq, Structural)]
pub struct ScreencopyFrameData {
    pub width: i32,
    pub height: i32,
    pub stride: i32,
    pub used: bool,
}

/// Geometry of the shared-memory buffer that a frame is to be copied into.
#[derive(Clone, Copy, Debug, PartialEq, Eq, Structural)]
pub struct CopyTarget {
    pub width: i32,
    pub height: i32,
    pub stride: i32,
    pub format: ShmFormat,
}

/// What a request to copy a frame leads to.
#[derive(Clone, Copy, Debug, PartialEq, Eq, Structural)]
pub enum CopyStep {
    /// A protocol error: the frame has been copied before.
    AlreadyUsed,
    /// The copy has failed.
    Failed,
    /// The desktop is to be captured.
    Capture,
}

/// The text of the protocol error for a frame that has been copied before.
pub const ALREADY_USED: &'static str = "frame already used";

/// The widest frame whose rows can be counted in bytes.
pub const MAX_FRAME_WIDTH: i32 = 0x1fff_ffff;

/// The smaller of two numbers.
pub open spec fn least(a: int, b: int) -> int {
    if a <= b {
        a
    } else {
        b
    }
}

/// Size of a frame of the whole screen, or of a region's size where the region
/// has one, within the screen.
pub open spec fn frame_size(screen_w: u32, screen_h: u32, region: Option<(i32, i32)>) -> (int, int) {
    match region {
        Some((w, h)) if w > 0 && h > 0 => (
            least(w as int, screen_w as int),
            least(h as int, screen_h as int),
        ),
        _ => (screen_w as int, screen_h as int),
    }
}

/// Makes a frame of the whole screen, or of a region's size where the region has
/// one; it is never larger than the screen.
pub fn init_screencopy_frame(screen_w: u32, screen_h: u32, region: Option<(i32, i32)>) -> (r:
    ScreencopyFrameData)
    requires
        screen_w <= i32::MAX,
        screen_h <= i32::MAX,
        frame_size(screen_w, screen_h, region).0 <= MAX_FRAME_WIDTH,
    ensures
        (r.width as int, r.height as int) == frame_size(screen_w, screen_h, region),
        r.stride == r.width * 4,
        !r.used,
{
    let sw: i32 = screen_w as i32;
    let sh: i32 = screen_h as i32;
    let (width, height): (i32, i32) = match region {
        Some((w, h)) => if w > 0 && h > 0 {
            (
                if w <= sw {
                    w
                } else {
                    sw
                },
                if h <= sh {
                    h
                } else {
                    sh
                },
            )
        } else {
            (sw, sh)
        },
        None => (sw, sh),
    };
    ScreencopyFrameData { width, height, stride: width * 4, used: false }
}

/// Whether a frame of that interface version is told that it has been described
/// in full.
pub fn announces_buffer_done(version: u32) -> (r: bool)
    ensures
        r == (version >= 3),
{
    version >= 3
}

impl ScreencopyFrameData {
    /// Whether the buffer has the frame's geometry and a format that it can be
    /// copied into.
    pub open spec fn accepts(self, t: CopyTarget) -> bool {
        &&& t.width == self.width
        &&& t.height == self.height
        &&& t.stride == self.stride
        &&& (t.format == ShmFormat::Argb8888 || t.format == ShmFormat::Xrgb8888)
    }

    /// What a request to copy the frame into that buffer leads to.
    pub open spec fn copy_step(self, target: Option<CopyTarget>) -> CopyStep {
        if self.used {
            CopyStep::AlreadyUsed
        } else {
            match target {
                Some(t) if self.accepts(t) => CopyStep::Capture,
                _ => CopyStep::Failed,
            }
        }
    }

    /// The frame once it has been copied.
    pub open spec fn used_up(self) -> ScreencopyFrameData {
        ScreencopyFrameData { used: true, ..self }
    }

    /// Takes a request to copy the frame. `target` is the buffer, where it is a
    /// shared-memory one. Whatever comes of it, the frame is used up.
    pub fn copy(&mut self, target: Option<CopyTarget>) -> (r: CopyStep)
        ensures
            *final(self) == old(self).used_up(),
            r == old(self).copy_step(target),
    {
        if self.used {
            return CopyStep::AlreadyUsed;
        }
        self.used = true;
        match target {
            None => CopyStep::Failed,
            Some(t) => {
                let known: bool = match t.format {
                    ShmFormat::Argb8888 => true,
                    ShmFormat::Xrgb8888 => true,
                    ShmFormat::Other(_) => false,
                };
                if t.width != self.width || t.height != self.height || t.stride != self.stride
                    || !known {
                    CopyStep::Failed
                } else {
                    CopyStep::Capture
                }
            },
        }
    }

    /// Whether what was captured is to be written to the buffer. `captured` is
    /// its size.
    pub fn captured(&self, captured: Option<(i32, i32)>) -> (r: bool)
        ensures
            r == (captured == Some((self.width, self.height))),
    {
        match captured {
            Some((w, h)) => w == self.width && h == self.height,
            None => false,
        }
    }
}

/// The time stamp of a frame that is ready: its seconds in two halves, the upper
/// one first.
pub fn ready_seconds(secs: u64) -> (r: (u32, u32))
    ensures
        r.0 * 0x1_0000_0000 + r.1 == secs,
{
    ((secs / 0x1_0000_0000) as u32, (secs % 0x1_0000_0000) as u32)
}

/// A frame is single-use: once a copy of it was asked for, every further request
/// is a protocol error.
pub proof fn frames_are_single_use(frame: ScreencopyFrameData, target: Option<CopyTarget>)
    ensures
        frame.used_up().copy_step(target) == CopyStep::AlreadyUsed,
        frame.used_up().used_up() == frame.used_up(),
{
}

/// A frame is never larger than the screen, and is of the region's size where the
/// region has one and fits, else of the screen's; its rows are four bytes a pixel.
pub proof fn frames_fit_the_screen(
    screen_w: u32,
    screen_h: u32,
    region: Option<(i32, i32)>,
    r: ScreencopyFrameData,
)
    requires
        screen_w <= i32::MAX,
        screen_h <= i32::MAX,
        frame_size(screen_w, screen_h, region).0 <= MAX_FRAME_WIDTH,
        call_ensures(init_screencopy_frame, (screen_w, screen_h, region), r),
    ensures
        r.width <= screen_w && r.height <= screen_h,
        r.stride == 4 * r.width,
        !r.used,
        region is None ==> r.width == screen_w && r.height == screen_h,
        region matches Some((w, h)) ==> {
            &&& w <= 0 || h <= 0 ==> r.width == screen_w && r.height == screen_h
            &&& w > 0 && h > 0 && w <= screen_w ==> r.width == w
            &&& w > 0 && h > 0 && h <= screen_h ==> r.height == h
            &&& w > 0 && h > 0 && w > screen_w ==> r.width == screen_w
            &&& w > 0 && h > 0 && h > screen_h ==> r.height == screen_h
        },
{
}

/// A frame is captured exactly for the first request, into a shared-memory buffer
/// of its own geometry and of one of the two known formats; a second request is a
/// protocol error, whatever the buffer.
pub proof fn copies_need_a_matching_buffer(target: Option<CopyTarget>, r: CopyStep)
    ensures
        forall|m: &mut ScreencopyFrameData|
            #[trigger] call_ensures(ScreencopyFrameData::copy, (m, target), r) ==> {
                &&& final(m).used
                &&& final(m).width == m.width && final(m).height == m.height && final(m).stride
                    == m.stride
                &&& r == CopyStep::AlreadyUsed <==> m.used
                &&& r == CopyStep::Capture <==> !m.used && target is Some && target->0.width
                    == m.width && target->0.height == m.height && target->0.stride == m.stride && (
                target->0.format == ShmFormat::Argb8888 || target->0.format == ShmFormat::Xrgb8888)
            },
{
}

/// A capture is written exactly where it has the frame's size. The end of the
/// description is announced from the third version on, and the time stamp's halves
/// add up to the seconds.
pub proof fn captures_of_another_size_are_dropped(
    frame: ScreencopyFrameData,
    captured: Option<(i32, i32)>,
    r: bool,
    version: u32,
    announced: bool,
    secs: u64,
    halves: (u32, u32),
)
    requires
        call_ensures(ScreencopyFrameData::captured, (&frame, captured), r),
        call_ensures(announces_buffer_done, (version,), announced),
        call_ensures(ready_seconds, (secs,), halves),
    ensures
        captured is None ==> !r,
        captured matches Some((w, h)) ==> (r <==> w == frame.width && h == frame.height),
        announced <==> version >= 3,
        halves.0 == secs as int / 0x1_0000_0000,
        halves.1 == secs as int % 0x1_0000_0000,
{
}

} // verus!
