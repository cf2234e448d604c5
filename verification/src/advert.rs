//! What clients are told when they bind the seat, the output and the buffer
//! interfaces.

use vstd::prelude::*;

use crate::compositor::VIRTUAL_OUTPUT_REFRESH_MHZ;
use crate::dmabuf::{
    make_dmabuf_format_table, tranche_indices, DRM_FORMAT_ARGB8888, DRM_FORMAT_XRGB8888,
};
use crate::readback::copy_bytes;
#[allow(unused_imports)]
use crate::dmabuf::{format_table, index_list};

verus! {

/// An event on a seat.
#[derive(Clone, Copy, Debug, PartialEq, Eq, Structural)]
pub enum SeatEvent {
    /// Bit set: one for a pointer, two for a keyboard, four for touch.
    Capabilities(u32),
    /// The seat's name, [`SEAT_NAME`].
    Name,
}

/// Name of the seat.
pub const SEAT_NAME: &'static str = "waymux-seat";

/// Pointer, keyboard and touch.
pub const SEAT_CAPABILITIES: u32 = 7;

/// Key repeats per second, and milliseconds before the first.
pub const REPEAT_RATE: i32 = 25;

pub const REPEAT_DELAY_MS: i32 = 400;

/// What a client is told that binds the seat.
pub fn seat_events(version: u32) -> (r: Vec<SeatEvent>)
    ensures
        r@ == if version >= 2 {
            seq![SeatEvent::Capabilities(SEAT_CAPABILITIES), SeatEvent::Name]
        } else {
            seq![SeatEvent::Capabilities(SEAT_CAPABILITIES)]
        },
{
    let mut v: Vec<SeatEvent> = Vec::new();
    v.push(SeatEvent::Capabilities(SEAT_CAPABILITIES));
    if version >= 2 {
        v.push(SeatEvent::Name);
        assert(v@ =~= seq![SeatEvent::Capabilities(SEAT_CAPABILITIES), SeatEvent::Name]);
    } else {
        assert(v@ =~= seq![SeatEvent::Capabilities(SEAT_CAPABILITIES)]);
    }
    v
}

/// The key repeat that a keyboard of that version is told.
pub fn keyboard_repeat(version: u32) -> (r: Option<(i32, i32)>)
    ensures
        r == if version >= 4 {
            Some((REPEAT_RATE, REPEAT_DELAY_MS))
        } else {
            None
        },
{
    if version >= 4 {
        Some((REPEAT_RATE, REPEAT_DELAY_MS))
    } else {
        None
    }
}

/// An event on an output.
#[derive(Clone, Copy, Debug, PartialEq, Eq, Structural)]
pub enum OutputEvent {
    /// At the origin, with that size in millimetres; the maker is
    /// [`OUTPUT_NAME`], the model [`OUTPUT_MODEL`].
    Geometry { physical_width: i32, physical_height: i32 },
    /// The current and preferred mode.
    Mode { width: i32, height: i32, refresh_mhz: i32 },
    Scale(i32),
    /// The output's name, [`OUTPUT_NAME`].
    Name,
    /// The output's description, [`OUTPUT_DESCRIPTION`].
    Description,
    Done,
}

/// Name of the output.
pub const OUTPUT_NAME: &'static str = "waymux";

/// Model of the output.
pub const OUTPUT_MODEL: &'static str = "virtual";

/// Description of the output.
pub const OUTPUT_DESCRIPTION: &'static str = "waymux virtual output";

/// The largest edge of a session whose output can be described.
pub const MAX_OUTPUT_EDGE: u32 = 8_103_711;

/// Millimetres of an edge of that many pixels, at 0.265 millimetres each.
pub open spec fn millimetres(pixels: u32) -> int {
    pixels * 265 / 1000
}

/// What a client is told that binds the output.
pub open spec fn described_output(w: u32, h: u32, scale: u32, version: u32) -> Seq<OutputEvent> {
    let first = seq![
        OutputEvent::Geometry {
            physical_width: millimetres(w) as i32,
            physical_height: millimetres(h) as i32,
        },
        OutputEvent::Mode {
            width: w as i32,
            height: h as i32,
            refresh_mhz: VIRTUAL_OUTPUT_REFRESH_MHZ,
        },
    ];
    if version >= 4 {
        first + seq![
            OutputEvent::Scale(scale as i32),
            OutputEvent::Name,
            OutputEvent::Description,
            OutputEvent::Done,
        ]
    } else if version >= 2 {
        first + seq![OutputEvent::Scale(scale as i32), OutputEvent::Done]
    } else {
        first
    }
}

/// What a client is told that binds the output of a session of that size.
pub fn output_events(w: u32, h: u32, scale: u32, version: u32) -> (r: Vec<OutputEvent>)
    requires
        w <= MAX_OUTPUT_EDGE,
        h <= MAX_OUTPUT_EDGE,
    ensures
        r@ == described_output(w, h, scale, version),
{
    let mut v: Vec<OutputEvent> = Vec::new();
    v.push(
        OutputEvent::Geometry {
            physical_width: (w as i32 * 265) / 1000,
            physical_height: (h as i32 * 265) / 1000,
        },
    );
    v.push(
        OutputEvent::Mode {
            width: w as i32,
            height: h as i32,
            refresh_mhz: VIRTUAL_OUTPUT_REFRESH_MHZ,
        },
    );
    if version >= 2 {
        v.push(OutputEvent::Scale(scale as i32));
    }
    if version >= 4 {
        v.push(OutputEvent::Name);
        v.push(OutputEvent::Description);
    }
    if version >= 2 {
        v.push(OutputEvent::Done);
    }
    assert(v@ =~= described_output(w, h, scale, version));
    v
}

/// An event on an `xdg_output`.
#[derive(Clone, Copy, Debug, PartialEq, Eq, Structural)]
pub enum XdgOutputEvent {
    LogicalPosition { x: i32, y: i32 },
    LogicalSize { width: i32, height: i32 },
    /// [`OUTPUT_NAME`].
    Name,
    /// [`OUTPUT_DESCRIPTION`].
    Description,
    Done,
}

/// What a client is told about the output's logical size.
pub open spec fn described_xdg_output(w: u32, h: u32, version: u32) -> Seq<XdgOutputEvent> {
    let first = seq![
        XdgOutputEvent::LogicalPosition { x: 0, y: 0 },
        XdgOutputEvent::LogicalSize { width: w as i32, height: h as i32 },
    ];
    if version >= 3 {
        first + seq![XdgOutputEvent::Name, XdgOutputEvent::Description, XdgOutputEvent::Done]
    } else if version >= 2 {
        first + seq![XdgOutputEvent::Name, XdgOutputEvent::Description]
    } else {
        first
    }
}

/// What a client is told about the output's logical size.
pub fn xdg_output_events(w: u32, h: u32, version: u32) -> (r: Vec<XdgOutputEvent>)
    ensures
        r@ == described_xdg_output(w, h, version),
{
    let mut v: Vec<XdgOutputEvent> = Vec::new();
    v.push(XdgOutputEvent::LogicalPosition { x: 0, y: 0 });
    v.push(XdgOutputEvent::LogicalSize { width: w as i32, height: h as i32 });
    if version >= 2 {
        v.push(XdgOutputEvent::Name);
        v.push(XdgOutputEvent::Description);
    }
    if version >= 3 {
        v.push(XdgOutputEvent::Done);
    }
    assert(v@ =~= described_xdg_output(w, h, version));
    v
}

/// The scale that clients are asked to draw at, in units of 1/120.
pub fn preferred_scale(scale: u32) -> (r: u32)
    requires
        scale <= u32::MAX / 120,
    ensures
        r == scale * 120,
{
    scale * 120
}

/// An event on the legacy `wl_drm` interface.
#[derive(Clone, Copy, Debug, PartialEq, Eq, Structural)]
pub enum WlDrmEvent {
    /// The path of the device.
    Device,
    Format(u32),
    /// Bit set: one for buffers passed by descriptor.
    Capabilities(u32),
}

/// What a client is told that binds the legacy `wl_drm` interface: the device
/// first, because it is read right after binding.
pub fn wl_drm_events() -> (r: Vec<WlDrmEvent>)
    ensures
        r@ == seq![
            WlDrmEvent::Device,
            WlDrmEvent::Format(DRM_FORMAT_ARGB8888),
            WlDrmEvent::Format(DRM_FORMAT_XRGB8888),
            WlDrmEvent::Capabilities(1),
        ],
{
    let mut v: Vec<WlDrmEvent> = Vec::new();
    v.push(WlDrmEvent::Device);
    v.push(WlDrmEvent::Format(DRM_FORMAT_ARGB8888));
    v.push(WlDrmEvent::Format(DRM_FORMAT_XRGB8888));
    v.push(WlDrmEvent::Capabilities(1));
    assert(v@ =~= seq![
        WlDrmEvent::Device,
        WlDrmEvent::Format(DRM_FORMAT_ARGB8888),
        WlDrmEvent::Format(DRM_FORMAT_XRGB8888),
        WlDrmEvent::Capabilities(1),
    ]);
    v
}

/// A request on the legacy `wl_drm` interface.
#[derive(Clone, Copy, Debug, PartialEq, Eq, Structural)]
pub enum WlDrmRequest {
    Authenticate,
    /// A buffer by name, of one plane or several.
    CreateBuffer,
    /// A buffer by descriptor.
    CreatePrimeBuffer,
}

/// Answers a request on the legacy `wl_drm` interface: authentication succeeds,
/// buffers are refused with that text and are invalid.
pub fn wl_drm_request(request: WlDrmRequest) -> (r: Result<(), &'static str>)
    ensures
        match request {
            WlDrmRequest::Authenticate => r is Ok,
            WlDrmRequest::CreateBuffer => r matches Err(e) && e@
                == "wl_drm flink-name buffer creation is not supported; use zwp_linux_dmabuf_v1.create_immed or wl_drm.create_prime_buffer instead"@,
            WlDrmRequest::CreatePrimeBuffer => r matches Err(e) && e@
                == "wl_drm.create_prime_buffer not implemented; clients should use zwp_linux_dmabuf_v1.create_immed instead"@,
        },
{
    match request {
        WlDrmRequest::Authenticate => Ok(()),
        WlDrmRequest::CreateBuffer => Err(
            "wl_drm flink-name buffer creation is not supported; use zwp_linux_dmabuf_v1.create_immed or wl_drm.create_prime_buffer instead",
        ),
        WlDrmRequest::CreatePrimeBuffer => Err(
            "wl_drm.create_prime_buffer not implemented; clients should use zwp_linux_dmabuf_v1.create_immed instead",
        ),
    }
}

/// An event of dmabuf feedback.
#[derive(Debug)]
pub enum FeedbackEvent {
    /// The table of formats, as a file of that content.
    FormatTable(Vec<u8>),
    MainDevice(Vec<u8>),
    TrancheTargetDevice(Vec<u8>),
    /// Indices into the table.
    TrancheFormats(Vec<u8>),
    /// No flags.
    TrancheFlags,
    TrancheDone,
    Done,
}

/// Whether the events are the feedback for the device and the modifiers: one
/// tranche, which lists every entry of the table.
pub open spec fn is_feedback(device: Seq<u8>, mods: Seq<u64>, events: Seq<FeedbackEvent>) -> bool {
    &&& events.len() == 7
    &&& (events[0] matches FeedbackEvent::FormatTable(t) && t@ == format_table(mods))
    &&& (events[1] matches FeedbackEvent::MainDevice(d) && d@ == device)
    &&& (events[2] matches FeedbackEvent::TrancheTargetDevice(d) && d@ == device)
    &&& (events[3] matches FeedbackEvent::TrancheFormats(x) && x@ == index_list(
        2 * mods.len() as int,
    ))
    &&& events[4] is TrancheFlags
    &&& events[5] is TrancheDone
    &&& events[6] is Done
}

/// The feedback for a device and the modifiers that can be imported. Where the
/// table cannot be shared, the feedback is empty.
pub fn send_dmabuf_feedback(device: &[u8], mods: &[u64], can_share: bool) -> (r: Vec<FeedbackEvent>)
    requires
        2 * mods@.len() <= u16::MAX,
    ensures
        can_share ==> is_feedback(device@, mods@, r@),
        !can_share ==> r@.len() == 1 && r@[0] is Done,
{
    let mut v: Vec<FeedbackEvent> = Vec::new();
    if !can_share {
        v.push(FeedbackEvent::Done);
        return v;
    }
    v.push(FeedbackEvent::FormatTable(make_dmabuf_format_table(mods)));
    v.push(FeedbackEvent::MainDevice(copy_bytes(device)));
    v.push(FeedbackEvent::TrancheTargetDevice(copy_bytes(device)));
    v.push(FeedbackEvent::TrancheFormats(tranche_indices(mods.len())));
    v.push(FeedbackEvent::TrancheFlags);
    v.push(FeedbackEvent::TrancheDone);
    v.push(FeedbackEvent::Done);
    v
}

/// The output is described in its own size: the mode's pixels are the session's,
/// at 240 hertz, and each millimetre stands for a thousand 265ths of a pixel,
/// rounded down. Scale and end of the description come from the second version on,
/// names from the fourth.
pub proof fn outputs_are_described_in_their_size(
    w: u32,
    h: u32,
    scale: u32,
    version: u32,
    r: Vec<OutputEvent>,
)
    requires
        w <= MAX_OUTPUT_EDGE,
        h <= MAX_OUTPUT_EDGE,
        scale <= i32::MAX,
        call_ensures(output_events, (w, h, scale, version), r),
    ensures
        r@[0] matches OutputEvent::Geometry { physical_width, physical_height } && physical_width
            * 1000 <= w * 265 < (physical_width + 1) * 1000 && physical_height * 1000 <= h * 265 < (
        physical_height + 1) * 1000,
        r@[1] matches OutputEvent::Mode { width, height, refresh_mhz } && width == w && height == h
            && refresh_mhz == 240_000,
        version < 2 ==> r@.len() == 2,
        version >= 2 ==> (r@[2] matches OutputEvent::Scale(s) && s == scale) && r@.last()
            == OutputEvent::Done,
        2 <= version < 4 ==> r@.len() == 4,
        version >= 4 ==> r@.len() == 6 && r@[3] == OutputEvent::Name && r@[4]
            == OutputEvent::Description,
{
}

/// The logical output lies at the origin and has the session's size.
pub proof fn logical_outputs_lie_at_the_origin(
    w: u32,
    h: u32,
    version: u32,
    r: Vec<XdgOutputEvent>,
)
    requires
        w <= i32::MAX,
        h <= i32::MAX,
        call_ensures(xdg_output_events, (w, h, version), r),
    ensures
        r@[0] == (XdgOutputEvent::LogicalPosition { x: 0, y: 0 }),
        r@[1] matches XdgOutputEvent::LogicalSize { width, height } && width == w && height == h,
        version < 2 ==> r@.len() == 2,
        version >= 2 ==> r@[2] == XdgOutputEvent::Name && r@[3] == XdgOutputEvent::Description,
        version == 2 ==> r@.len() == 4,
        version >= 3 ==> r@.len() == 5 && r@[4] == XdgOutputEvent::Done,
{
}

/// The seat has a pointer, a keyboard and touch; it is named from the second
/// version on. Keys repeat 25 times a second after 400 milliseconds, and keyboards
/// are told so from the fourth version on. The scale is told in 120ths.
pub proof fn seats_have_all_devices(
    version: u32,
    r: Vec<SeatEvent>,
    repeat: Option<(i32, i32)>,
    scale: u32,
    preferred: u32,
)
    requires
        scale <= u32::MAX / 120,
        call_ensures(seat_events, (version,), r),
        call_ensures(keyboard_repeat, (version,), repeat),
        call_ensures(preferred_scale, (scale,), preferred),
    ensures
        r@[0] == SeatEvent::Capabilities(7),
        version < 2 ==> r@.len() == 1,
        version >= 2 ==> r@.len() == 2 && r@[1] == SeatEvent::Name,
        version < 4 ==> repeat is None,
        version >= 4 ==> repeat == Some((25i32, 400i32)),
        preferred == 120 * scale,
{
}

/// The legacy interface names its device before anything else, then both formats
/// and that buffers are passed by descriptor; it lets every client in and makes no
/// buffer.
pub proof fn the_legacy_interface_makes_no_buffers(
    events: Vec<WlDrmEvent>,
    request: WlDrmRequest,
    r: Result<(), &'static str>,
)
    requires
        call_ensures(wl_drm_events, (), events),
        call_ensures(wl_drm_request, (request,), r),
    ensures
        events@ == seq![
            WlDrmEvent::Device,
            WlDrmEvent::Format(0x3432_5241),
            WlDrmEvent::Format(0x3432_5258),
            WlDrmEvent::Capabilities(1),
        ],
        r is Ok <==> request == WlDrmRequest::Authenticate,
{
}

/// Feedback names the table, the device twice, and one tranche that lists the
/// whole table; where the table cannot be shared it is empty. It always ends.
pub proof fn feedback_lists_the_whole_table(
    device: &[u8],
    mods: &[u64],
    can_share: bool,
    r: Vec<FeedbackEvent>,
)
    requires
        2 * mods@.len() <= u16::MAX,
        call_ensures(send_dmabuf_feedback, (device, mods, can_share), r),
    ensures
        r@.last() is Done,
        !can_share ==> r@.len() == 1,
        can_share ==> {
            &&& r@.len() == 7
            &&& r@[0] matches FeedbackEvent::FormatTable(t) && t@ == format_table(mods@)
            &&& r@[1] matches FeedbackEvent::MainDevice(d) && d@ == device@
            &&& r@[2] matches FeedbackEvent::TrancheTargetDevice(d) && d@ == device@
            &&& r@[3] matches FeedbackEvent::TrancheFormats(x) && x@ == index_list(
                2 * mods@.len() as int,
            )
            &&& r@[4] is TrancheFlags
            &&& r@[5] is TrancheDone
        },
{
}

/// What clients read of the seat and the output.
pub proof fn names_are_those_of_the_session()
    ensures
        SEAT_NAME@ == "waymux-seat"@,
        OUTPUT_NAME@ == "waymux"@,
        OUTPUT_MODEL@ == "virtual"@,
        OUTPUT_DESCRIPTION@ == "waymux virtual output"@,
{
}

/// A refused request of the legacy interface says which request it was, and what to
/// use in its place.
pub proof fn legacy_requests_are_refused_by_name(
    by_name: Result<(), &'static str>,
    by_fd: Result<(), &'static str>,
)
    requires
        call_ensures(wl_drm_request, (WlDrmRequest::CreateBuffer,), by_name),
        call_ensures(wl_drm_request, (WlDrmRequest::CreatePrimeBuffer,), by_fd),
    ensures
        by_name matches Err(e) && e@
            == "wl_drm flink-name buffer creation is not supported; use zwp_linux_dmabuf_v1.create_immed or wl_drm.create_prime_buffer instead"@,
        by_fd matches Err(e) && e@
            == "wl_drm.create_prime_buffer not implemented; clients should use zwp_linux_dmabuf_v1.create_immed instead"@,
{
}

} // verus!
