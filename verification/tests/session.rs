use waymux::advert::{
    keyboard_repeat, output_events, preferred_scale, seat_events, send_dmabuf_feedback,
    wl_drm_events, wl_drm_request, xdg_output_events, FeedbackEvent, OutputEvent, SeatEvent,
    WlDrmEvent, WlDrmRequest, XdgOutputEvent,
};
use waymux::attach::{AttachEffect, AttachServer, DetachReason};
use waymux::audio::{
    cleanup, ensure_pulse_dir, host_runtime_dir, join, link_force, setup, AudioLinks, CleanupStep,
    Entry, LinkOutcome, PulseDirStep, PulseOutcome, Removal,
};
use waymux::buffer::ShmFormat;
use waymux::clipboard::{
    offer_version, set_selection, ClipboardContent, ClipboardEntry, ClipboardForwarder,
    SelectionChange,
};
use waymux::codec::{decode_frame, MAX_FRAME_SIZE};
use waymux::compositor::{
    accept_step, globals, monotonic_ms, syncobj_disabled, Accepted, Compositor, FramePacer,
    Interface, Serials,
};
use waymux::dmabuf::make_dmabuf_format_table;
use waymux::events::{event_frame, goes_on, SendOutcome, QUEUE_CAPACITY};
use waymux::messages::{Event, EventBody, Rect, WindowInfo};
use waymux::plasma::{
    bind, send_plasma_window_initial_state, window_of_uuid, window_uuid, ManagerEvent, WindowEvent,
};
use waymux::screencopy::{
    announces_buffer_done, init_screencopy_frame, ready_seconds, CopyStep, CopyTarget,
};
use waymux::subsurface::{enter, place_above, place_below, remove, set_position};
use waymux::surface::{
    timeline_point, BufferRef, CommitContext, CommitEffect, Fixed, SubsurfaceChild, SurfaceData,
    TimelinePoint, ViewportData,
};

fn context() -> CommitContext {
    CommitContext {
        acquire_signaled: true,
        attached: false,
        is_cursor: false,
        width: 800,
        height: 600,
    }
}

fn shm(id: u64) -> BufferRef {
    BufferRef { id, dmabuf: false }
}

fn gpu(id: u64) -> BufferRef {
    BufferRef { id, dmabuf: true }
}

const TAP: CommitEffect = CommitEffect::Tap {
    acquire_signaled: true,
};

#[test]
fn commit_promotes_the_buffer() {
    let mut s = SurfaceData::default();
    s.attach(Some(shm(1)));
    assert_eq!(s.frame(40), CommitEffect::QueueFrameCallback(40));
    let start = s.begin_commit(false);
    assert_eq!(start.timeout_ns, 50_000_000);
    assert_eq!(
        s.finish_commit(start, context()),
        [
            TAP,
            CommitEffect::Release(shm(1)),
            CommitEffect::QueueFrameCallback(40),
            CommitEffect::RecordDamage
        ]
    );
    assert_eq!(s.current_buffer, Some(shm(1)));
    assert_eq!(s.pending_buffer, None);
    assert!(s.surface_frame_cbs.is_empty());

    s.attach(Some(shm(2)));
    let start = s.begin_commit(true);
    assert_eq!(start.timeout_ns, 500_000_000);
    assert_eq!(
        s.finish_commit(start, context()),
        [
            CommitEffect::Release(shm(1)),
            TAP,
            CommitEffect::Release(shm(2)),
            CommitEffect::RecordDamage
        ]
    );
}

#[test]
fn gpu_buffer_waits_for_the_outer_view() {
    let mut s = SurfaceData::default();
    s.attach(Some(gpu(1)));
    let start = s.begin_commit(false);
    let mut cx = context();
    cx.attached = true;
    assert_eq!(
        s.finish_commit(start, cx),
        [
            CommitEffect::QueueDeferredRelease(gpu(1)),
            TAP,
            CommitEffect::RecordDamage
        ]
    );
    s.attach(Some(gpu(2)));
    let start = s.begin_commit(false);
    assert_eq!(
        s.finish_commit(start, context()),
        [
            TAP,
            CommitEffect::Release(gpu(2)),
            CommitEffect::RecordDamage
        ]
    );
}

#[test]
fn empty_commit_answers_callbacks() {
    let mut s = SurfaceData::default();
    s.frame(1);
    s.frame(2);
    let start = s.begin_commit(false);
    let mut cx = context();
    cx.is_cursor = true;
    assert_eq!(
        s.finish_commit(start, cx),
        [
            TAP,
            CommitEffect::CursorDirty,
            CommitEffect::QueueFrameCallback(1),
            CommitEffect::QueueFrameCallback(2),
            CommitEffect::RecordDamage
        ]
    );
}

#[test]
fn sync_points_hold_for_one_commit() {
    let mut s = SurfaceData::default();
    let p = timeline_point(7, 1, 2);
    assert_eq!(
        p,
        TimelinePoint {
            timeline: 7,
            point: 0x1_0000_0002
        }
    );
    s.set_acquire_point(p);
    assert!(s.begin_commit(false).acquire.is_none());
    s.enable_sync().unwrap();
    assert_eq!(
        s.enable_sync().unwrap_err(),
        "surface already has a sync object"
    );
    s.set_acquire_point(p);
    s.set_release_point(timeline_point(7, 0, 9));
    s.attach(Some(gpu(1)));
    let start = s.begin_commit(false);
    assert_eq!(start.acquire, Some(p));
    let mut cx = context();
    cx.acquire_signaled = false;
    assert_eq!(
        s.finish_commit(start, cx),
        [
            CommitEffect::NoteReleasePoint(gpu(1), timeline_point(7, 0, 9)),
            CommitEffect::Tap {
                acquire_signaled: false
            },
            CommitEffect::Release(gpu(1)),
            CommitEffect::RecordDamage
        ]
    );
    let start = s.begin_commit(false);
    assert!(start.acquire.is_none() && start.release.is_none());
    // Without an acquire point there is nothing that was not signalled.
    assert_eq!(
        s.finish_commit(start, cx),
        [TAP, CommitEffect::RecordDamage]
    );
}

#[test]
fn layer_surface_registers_once() {
    let mut s = SurfaceData::default();
    s.become_layer();
    s.set_keyboard_interactivity(1);
    let start = s.begin_commit(false);
    let effects = s.finish_commit(start, context());
    assert_eq!(
        effects.last(),
        Some(&CommitEffect::RegisterLayer {
            geometry: Rect {
                x: 0,
                y: 0,
                width: 800,
                height: 600
            },
            focus: true
        })
    );
    s.layer_registered(5);
    let start = s.begin_commit(false);
    assert_eq!(
        s.finish_commit(start, context()),
        [TAP, CommitEffect::RecordDamage]
    );
    assert_eq!(s.layer_destroyed(), Some(5));
    assert_eq!(s.layer_destroyed(), None);
}

#[test]
fn window_geometry_is_kept_or_unset() {
    let mut s = SurfaceData::default();
    s.set_window_geometry(1, 2, 30, -4);
    assert_eq!(
        s.content_rect,
        Some(Rect {
            x: 1,
            y: 2,
            width: 30,
            height: 0
        })
    );
    s.set_window_geometry(-1, -1, 0, -1);
    assert_eq!(s.content_rect, None);
    s.become_toplevel(3);
    assert_eq!(s.xdg_toplevel_id, Some(3));
    s.set_shortcuts_inhibited(true);
    assert!(s.shortcuts_inhibited);
    s.feedback(8);
    assert_eq!(s.pending_feedbacks, [8]);
}

#[test]
fn viewport_is_set_and_unset() {
    let mut v = ViewportData::default();
    v.set_source(Fixed(0), Fixed(256), Fixed(512), Fixed(512));
    assert_eq!(v.src, Some((Fixed(0), Fixed(256), Fixed(512), Fixed(512))));
    v.set_destination(4, 5);
    assert_eq!(v.dst, Some((4, 5)));
    v.set_source(Fixed(-256), Fixed(-256), Fixed(-256), Fixed(-256));
    v.set_destination(-1, -1);
    assert!(v.src.is_none() && v.dst.is_none());
    let mut s = SurfaceData::default();
    s.viewport.set_destination(4, 5);
    s.viewport_destroyed();
    assert!(s.viewport.dst.is_none());
}

fn order(children: &[SubsurfaceChild]) -> Vec<u64> {
    children.iter().map(|c| c.surface).collect()
}

#[test]
fn subsurfaces_are_restacked() {
    let mut c = vec![];
    for id in 1..=4 {
        enter(&mut c, id);
    }
    set_position(&mut c, 2, 10, -3);
    assert_eq!((c[1].x, c[1].y), (10, -3));
    place_above(&mut c, 1, 3, 99);
    assert_eq!(order(&c), [2, 3, 1, 4]);
    place_below(&mut c, 4, 3, 99);
    assert_eq!(order(&c), [2, 4, 3, 1]);
    place_above(&mut c, 2, 99, 99);
    assert_eq!(order(&c), [4, 3, 1, 2]);
    place_below(&mut c, 1, 99, 99);
    assert_eq!(order(&c), [1, 4, 3, 2]);
    place_above(&mut c, 77, 1, 99);
    assert_eq!(order(&c), [1, 4, 3, 2]);
    remove(&mut c, 4);
    assert_eq!(order(&c), [1, 3, 2]);
    assert_eq!((c[2].x, c[2].y), (10, -3));
}

#[test]
fn restacking_keeps_the_order_of_the_others() {
    let mut all = vec![];
    for id in 1..=4 {
        enter(&mut all, id);
    }
    for id in 1..=4 {
        let mut others = order(&all);
        others.retain(|c| *c != id);
        // Every sibling, the parent, and one that is not listed.
        for sibling in [1, 2, 3, 4, 99, 77] {
            let (mut above, mut below) = (all.clone(), all.clone());
            place_above(&mut above, id, sibling, 99);
            place_below(&mut below, id, sibling, 99);
            for mut moved in [order(&above), order(&below)] {
                assert_eq!(moved.len(), 4);
                moved.retain(|c| *c != id);
                assert_eq!(moved, others);
            }
        }
    }
}

#[test]
fn idle_session_is_slowed_down() {
    let mut p = FramePacer::new();
    let t = p.turn(100_000, false, 99_000);
    assert!(!t.idle && t.drain && t.poke);
    assert_eq!(t.timeout_ms, 8);
    let t = p.turn(100_010, false, 99_000);
    assert!(t.drain && !t.poke);
    let t = p.turn(130_000, false, 100_000);
    assert!(t.idle && t.drain);
    assert_eq!(t.timeout_ms, 1_000);
    let t = p.turn(130_999, false, 100_000);
    assert!(t.idle && !t.drain);
    let t = p.turn(131_000, false, 100_000);
    assert!(t.drain);
    let t = p.turn(131_001, true, 100_000);
    assert!(!t.idle && t.drain);
    assert_eq!(monotonic_ms(2, 3_999_999), 2_003);
}

#[test]
fn connections_are_accepted_until_none_waits() {
    assert_eq!(
        accept_step(Accepted::Client { entered: true }),
        (true, true)
    );
    assert_eq!(
        accept_step(Accepted::Client { entered: false }),
        (true, false)
    );
    assert_eq!(accept_step(Accepted::WouldBlock), (false, false));
    assert_eq!(accept_step(Accepted::Failed), (false, false));
}

#[test]
fn syncobj_follows_its_setting_and_device() {
    assert!(!syncobj_disabled(None));
    assert!(!syncobj_disabled(Some("")));
    assert!(!syncobj_disabled(Some("0")));
    assert!(syncobj_disabled(Some("1")));
    assert!(syncobj_disabled(Some("no")));
    let has = |syncobj| {
        globals(syncobj)
            .iter()
            .any(|g| g.interface == Interface::WpLinuxDrmSyncobjManagerV1)
    };
    assert!(has(true));
    assert!(!has(false));
    assert_eq!(globals(true).len(), 29);
    let dmabuf = globals(false)
        .into_iter()
        .find(|g| g.interface == Interface::ZwpLinuxDmabufV1)
        .unwrap();
    assert_eq!(dmabuf.version, 5);
    assert_eq!(globals(false)[0].version, 6);
    let without = Compositor::new(None);
    assert_eq!(
        without.import_timeline(Some(3)),
        Err("syncobj device unavailable")
    );
    let with = Compositor::new(Some(9));
    assert_eq!(with.import_timeline(Some(3)), Ok(3));
    assert_eq!(with.import_timeline(None), Err("FD_TO_HANDLE failed"));
}

#[test]
fn serials_start_over() {
    let mut s = Serials { next: u32::MAX };
    assert_eq!(s.next_serial(), u32::MAX);
    assert_eq!(s.next_serial(), 0);
    let mut c = Compositor::new(None);
    let t = c.get_toplevel(None, 80, 60);
    assert_eq!((t.pid, t.serial), (-1, 1));
    assert_eq!((t.geometry.width, t.geometry.height), (80, 60));
    assert_eq!(c.get_toplevel(Some(12), 1, 1).serial, 2);
}

#[test]
fn clipboard_is_forwarded_once() {
    let mut f = ClipboardForwarder::new();
    assert!(!f.drain_clipboard(false, 1, true));
    assert!(f.drain_clipboard(true, 1, true));
    assert!(!f.drain_clipboard(true, 1, true));
    assert!(!f.drain_clipboard(true, 2, false));
    assert!(!f.drain_clipboard(true, 2, true));
    assert_eq!(offer_version(2), 2);
    assert_eq!(offer_version(9), 3);
}

#[test]
fn clipboard_content_is_found_by_type() {
    let entry = |mime: &str, data: &[u8]| ClipboardEntry {
        mime: mime.into(),
        data: data.to_vec(),
    };
    let c = ClipboardContent {
        entries: vec![
            entry("text/plain", b"a"),
            entry("text/html", b"b"),
            entry("text/plain", b"c"),
        ],
    };
    assert_eq!(c.receive("text/plain"), Some(&b"a".to_vec()));
    assert_eq!(c.receive("image/png"), None);
    assert_eq!(c.types(), ["text/plain", "text/html", "text/plain"]);
    assert!(matches!(
        set_selection(false, Some(vec![])),
        SelectionChange::Ignored
    ));
    assert!(matches!(
        set_selection(true, Some(vec!["t".into()])),
        SelectionChange::Offered(t) if t == ["t"]
    ));
    assert!(matches!(
        set_selection(true, None),
        SelectionChange::Cleared
    ));
}

#[test]
fn screencopy_frame_is_copied_once() {
    let mut f = init_screencopy_frame(100, 50, Some((200, 20)));
    assert_eq!((f.width, f.height, f.stride), (100, 20, 400));
    let t = CopyTarget {
        width: 100,
        height: 20,
        stride: 400,
        format: ShmFormat::Xrgb8888,
    };
    assert_eq!(f.copy(Some(t)), CopyStep::Capture);
    assert_eq!(f.copy(Some(t)), CopyStep::AlreadyUsed);
    assert!(f.captured(Some((100, 20))));
    assert!(!f.captured(Some((100, 21))));
    assert!(!f.captured(None));
    let mut whole = init_screencopy_frame(100, 50, Some((0, 5)));
    assert_eq!((whole.width, whole.height), (100, 50));
    assert_eq!(whole.copy(Some(t)), CopyStep::Failed);
    let mut other = init_screencopy_frame(100, 20, None);
    let wrong = CopyTarget {
        format: ShmFormat::Other(9),
        ..t
    };
    assert_eq!(other.copy(Some(wrong)), CopyStep::Failed);
    assert_eq!(
        init_screencopy_frame(1, 1, None).copy(None),
        CopyStep::Failed
    );
    assert_eq!(ready_seconds(0x5_0000_0006), (5, 6));
    // Only the frame's own width is counted in bytes.
    let tall = init_screencopy_frame(0x7fff_ffff, 0x7fff_ffff, Some((10, 0x7fff_ffff)));
    assert_eq!((tall.width, tall.height, tall.stride), (10, 0x7fff_ffff, 40));
    assert!(announces_buffer_done(3));
    assert!(!announces_buffer_done(2));
}

#[test]
fn seat_and_output_are_described() {
    assert_eq!(seat_events(1), [SeatEvent::Capabilities(7)]);
    assert_eq!(
        seat_events(7),
        [SeatEvent::Capabilities(7), SeatEvent::Name]
    );
    assert_eq!(keyboard_repeat(3), None);
    assert_eq!(keyboard_repeat(4), Some((25, 400)));
    assert_eq!(
        output_events(1920, 1080, 2, 4),
        [
            OutputEvent::Geometry {
                physical_width: 508,
                physical_height: 286
            },
            OutputEvent::Mode {
                width: 1920,
                height: 1080,
                refresh_mhz: 240_000
            },
            OutputEvent::Scale(2),
            OutputEvent::Name,
            OutputEvent::Description,
            OutputEvent::Done
        ]
    );
    assert_eq!(output_events(10, 10, 1, 1).len(), 2);
    assert_eq!(
        output_events(8_103_711, 8_103_711, 1, 1)[0],
        OutputEvent::Geometry {
            physical_width: 2_147_483,
            physical_height: 2_147_483
        }
    );
    assert_eq!(output_events(10, 10, 1, 2).len(), 4);
    assert_eq!(
        xdg_output_events(10, 20, 1),
        [
            XdgOutputEvent::LogicalPosition { x: 0, y: 0 },
            XdgOutputEvent::LogicalSize {
                width: 10,
                height: 20
            }
        ]
    );
    assert_eq!(xdg_output_events(10, 20, 3).len(), 5);
    assert_eq!(preferred_scale(2), 240);
}

#[test]
fn buffer_interfaces_are_described() {
    assert_eq!(
        wl_drm_events(),
        [
            WlDrmEvent::Device,
            WlDrmEvent::Format(0x34325241),
            WlDrmEvent::Format(0x34325258),
            WlDrmEvent::Capabilities(1)
        ]
    );
    assert!(wl_drm_request(WlDrmRequest::Authenticate).is_ok());
    assert!(wl_drm_request(WlDrmRequest::CreateBuffer)
        .unwrap_err()
        .starts_with("wl_drm flink-name buffer creation is not supported"));
    assert!(wl_drm_request(WlDrmRequest::CreatePrimeBuffer)
        .unwrap_err()
        .starts_with("wl_drm.create_prime_buffer not implemented"));
    let events = send_dmabuf_feedback(&[1, 2], &[0, 5], true);
    assert_eq!(events.len(), 7);
    assert!(
        matches!(&events[0], FeedbackEvent::FormatTable(t) if *t == make_dmabuf_format_table(&[0, 5]))
    );
    assert!(matches!(&events[1], FeedbackEvent::MainDevice(d) if *d == [1, 2]));
    assert!(
        matches!(&events[3], FeedbackEvent::TrancheFormats(x) if *x == [0, 0, 1, 0, 2, 0, 3, 0])
    );
    assert!(matches!(
        &send_dmabuf_feedback(&[1], &[0], false)[..],
        [FeedbackEvent::Done]
    ));
}

fn window(id: u32, title: &str) -> WindowInfo {
    WindowInfo {
        id,
        app_id: String::new(),
        title: title.into(),
        tags: vec![],
        geometry: Rect {
            x: 1,
            y: 2,
            width: 3,
            height: 4,
        },
        focused: false,
        pid: 77,
        content_rect: None,
    }
}

#[test]
fn task_bar_entries_are_described() {
    assert_eq!(window_uuid(42), "42");
    assert_eq!(window_of_uuid("42").window_id, 42);
    assert_eq!(window_of_uuid("nonsense").window_id, 0);
    assert_eq!(window_of_uuid("4294967296").window_id, 0);
    assert_eq!(
        bind(&vec![5], 12),
        [
            ManagerEvent::ShowDesktopChanged(0),
            ManagerEvent::Window(5),
            ManagerEvent::StackingOrderChanged,
            ManagerEvent::StackingOrderUuidChanged
        ]
    );
    assert_eq!(bind(&vec![5], 13)[2], ManagerEvent::WindowWithUuid(5));
    assert_eq!(bind(&vec![], 8), [ManagerEvent::ShowDesktopChanged(0)]);
    let windows = vec![window(1, ""), window(2, "t")];
    let (i, events) = send_plasma_window_initial_state(&windows, 2, 8);
    assert_eq!(i, Some(1));
    assert_eq!(
        events,
        [
            WindowEvent::TitleChanged,
            WindowEvent::PidChanged(77),
            WindowEvent::Geometry(windows[1].geometry),
            WindowEvent::StateChanged(0x500),
            WindowEvent::InitialState
        ]
    );
    assert_eq!(
        send_plasma_window_initial_state(&windows, 9, 4),
        (None, vec![WindowEvent::Unmapped, WindowEvent::InitialState])
    );
    assert_eq!(
        send_plasma_window_initial_state(&windows, 9, 3).1,
        [WindowEvent::Unmapped]
    );
}

#[test]
fn outer_view_is_replaced_and_closed() {
    let mut a = AttachServer::new();
    assert_eq!(a.get_surface(1), [AttachEffect::SpawnView]);
    a.view_spawned(10);
    assert_eq!(
        a.get_surface(2),
        [
            AttachEffect::RaiseStop(10),
            AttachEffect::Join(10),
            AttachEffect::SpawnView
        ]
    );
    a.view_spawned(11);
    assert!(a.check_view(false, true).is_empty());
    assert_eq!(
        a.check_view(true, true),
        [
            AttachEffect::Join(11),
            AttachEffect::ClearWake,
            AttachEffect::Disconnect(2, DetachReason::OuterWindowClosed)
        ]
    );
    a.get_surface(3);
    a.view_spawned(12);
    assert_eq!(
        a.detach(false),
        [
            AttachEffect::RaiseStop(12),
            AttachEffect::Join(12),
            AttachEffect::ClearWake
        ]
    );
    assert_eq!(
        DetachReason::OuterWindowClosed.message(),
        "outer window closed by compositor"
    );
    assert_eq!(DetachReason::Detached.message(), "detached");
}

/// What stands at a path: its kind, and where a link leads.
type Files = std::collections::BTreeMap<String, (Entry, String)>;

fn entry(files: &Files, path: &str) -> Entry {
    files.get(path).map_or(Entry::Missing, |(kind, _)| *kind)
}

fn link(files: &mut Files, src: &str, dst: &str) {
    match link_force(entry(files, dst)) {
        Removal::Nothing => {}
        Removal::File => {
            files.remove(dst);
        }
        Removal::Tree => {
            let below = format!("{dst}/");
            files.retain(|p, _| p != dst && !p.starts_with(&below));
        }
    }
    let old = files.insert(dst.to_string(), (Entry::Symlink, src.to_string()));
    assert!(old.is_none(), "something was in the way");
}

#[test]
fn link_force_is_idempotent() {
    let mut files = Files::new();
    files.insert("/host".into(), (Entry::Other, String::new()));
    files.insert("/older".into(), (Entry::File, String::new()));
    let stale = [
        None,
        Some((Entry::Symlink, "/older")),
        Some((Entry::File, "")),
        Some((Entry::Directory, "")),
    ];
    for stale in stale {
        let mut f = files.clone();
        if let Some((kind, target)) = stale {
            f.insert("/s".into(), (kind, target.to_string()));
            if kind == Entry::Directory {
                f.insert("/s/x".into(), (Entry::File, String::new()));
            }
        }
        link(&mut f, "/host", "/s");
        let once = f.clone();
        link(&mut f, "/host", "/s");
        assert_eq!(f, once);
        assert_eq!(f.remove("/s"), Some((Entry::Symlink, "/host".to_string())));
        // What the older link led to is still there.
        assert_eq!(f, files);
    }
}

fn session_files() -> Files {
    let mut files = Files::new();
    files.insert("/h/pulse/native".into(), (Entry::Other, String::new()));
    files.insert("/h/pipewire-0".into(), (Entry::Other, String::new()));
    files.insert("/s".into(), (Entry::Directory, String::new()));
    files.insert("/s/other".into(), (Entry::File, String::new()));
    files
}

/// The files after a setup, something that happens, and the cleanup.
fn cleaned_up(mut f: Files, meanwhile: impl Fn(&mut Files)) -> Files {
    f.insert("/s/pulse".into(), (Entry::Directory, String::new()));
    link(&mut f, "/h/pulse/native", "/s/pulse/native");
    link(&mut f, "/h/pipewire-0", "/s/pipewire-0");
    let (links, any_present) = setup(
        "/s",
        PulseOutcome::Directory {
            created: true,
            linked: true,
        },
        LinkOutcome::Linked,
        LinkOutcome::Absent,
    );
    assert!(any_present);
    meanwhile(&mut f);
    for step in cleanup(links) {
        match step {
            CleanupStep::RemoveFile(p) => {
                assert_eq!(entry(&f, &p), Entry::Symlink);
                f.remove(&p);
            }
            CleanupStep::RemoveTree(p) => {
                assert_eq!(entry(&f, &p), Entry::Directory);
                let below = format!("{p}/");
                f.retain(|q, _| *q != p && !q.starts_with(&below));
            }
        }
    }
    f
}

#[test]
fn cleaning_up_restores_the_directory() {
    let files = session_files();
    assert_eq!(cleaned_up(files.clone(), |_| ()), files);
}

#[test]
fn cleaning_up_removes_what_came_to_lie_in_the_directory() {
    let files = session_files();
    let stray = |f: &mut Files| {
        f.insert("/s/pulse/pid".into(), (Entry::File, String::new()));
        f.insert("/s/pulse/x".into(), (Entry::Directory, String::new()));
        f.insert("/s/pulse/x/y".into(), (Entry::File, String::new()));
        f.insert("/s/pulse2".into(), (Entry::File, String::new()));
    };
    let mut f = cleaned_up(files.clone(), stray);
    assert!(f.remove("/s/pulse2").is_some());
    assert_eq!(f, files);
}

#[test]
fn audio_sockets_are_linked_and_removed() {
    assert_eq!(host_runtime_dir(1000), "/run/user/1000");
    assert_eq!(join("/s", "pulse"), "/s/pulse");
    assert_eq!(join("/s/", "pulse"), "/s/pulse");
    assert_eq!(ensure_pulse_dir(Entry::Missing), PulseDirStep::Create);
    assert_eq!(ensure_pulse_dir(Entry::Directory), PulseDirStep::Keep);
    assert_eq!(ensure_pulse_dir(Entry::Symlink), PulseDirStep::Fail);
    assert_eq!(link_force(Entry::Missing), Removal::Nothing);
    assert_eq!(link_force(Entry::Symlink), Removal::File);
    assert_eq!(link_force(Entry::Directory), Removal::Tree);
    let empty = AudioLinks::empty();
    assert!(empty.links.is_empty() && empty.dirs.is_empty());

    let (links, _) = setup(
        "/s",
        PulseOutcome::Directory {
            created: true,
            linked: true,
        },
        LinkOutcome::Linked,
        LinkOutcome::Absent,
    );
    assert_eq!(links.links, ["/s/pulse/native", "/s/pipewire-0"]);
    assert_eq!(links.dirs, ["/s/pulse"]);
    let steps = cleanup(links);
    assert_eq!(steps.len(), 3);
    assert!(matches!(&steps[0], CleanupStep::RemoveFile(p) if p == "/s/pulse/native"));
    assert!(matches!(&steps[2], CleanupStep::RemoveTree(p) if p == "/s/pulse"));

    let (links, _) = setup(
        "/s",
        PulseOutcome::Absent,
        LinkOutcome::Failed,
        LinkOutcome::Linked,
    );
    assert_eq!(links.links, ["/s/pipewire-0-manager"]);
    assert!(links.dirs.is_empty());
}

#[test]
fn events_are_framed_or_dropped() {
    assert_eq!(QUEUE_CAPACITY, 256);
    let body = || EventBody::SessionCreated { name: "s".into() };
    let frame = event_frame(body(), |e: &Event| {
        assert_eq!(e.id, 0);
        Ok(vec![1, 2])
    })
    .unwrap();
    assert_eq!(frame, [0, 0, 0, 2, 1, 2]);
    assert_eq!(
        decode_frame(&frame, |b: &[u8]| Ok(b.to_vec())).unwrap(),
        [1, 2]
    );
    assert!(event_frame(body(), |_: &Event| Err("no".to_string())).is_none());
    assert!(event_frame(body(), |_: &Event| Ok(vec![0; MAX_FRAME_SIZE + 1])).is_none());
    assert!(goes_on(SendOutcome::Written));
    assert!(goes_on(SendOutcome::Dropped));
    assert!(!goes_on(SendOutcome::WriteFailed));
}
