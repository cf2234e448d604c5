use waymux::buffer::ShmFormat;
use waymux::bytes::{put_be32, put_le16, put_le32, put_le64, read_be32};
use waymux::dmabuf::{
    bind_events, collect_sampleable, drm_main_device_bytes, drm_node_path,
    egl_importable_bgra_modifiers, make_dmabuf_format_table, modifier_words, single_pixel, tranche_indices, wl_drm_device_path,
    DmabufBufferData, FormatEvent, ModifierReply, ParamsError, ParamsState, Plane, PlaneData,
    DRM_FORMAT_ARGB8888, DRM_FORMAT_MOD_LINEAR, DRM_FORMAT_XRGB8888, DRM_NODES,
};
use waymux::egl::{
    config_attributes, context_attributes, import_attributes, swap_red_blue, EglCtx, EglOpenStage, EglReadback, EglResource, EglStage,
};
use waymux::gbm::{
    mapped_window, modifier_import, node_path, plain_import, repack_rows, GbmReadback, GbmResource,
    GbmStage, NodeAccess, NodeSearch, NodeStep,
};
use waymux::modifier_query::{ModifierQuery, QueryReply, QueryStage};
use waymux::readback::{
    bounded_length, dmabuf_fence_ready_now, fence_exported, has_content, poll_readable, sync_flags,
    wait_for_dmabuf_fence_status, FenceStatus, ReadStage, Readback, MAX_DMABUF_LEN,
};
use waymux::text::{dec, dec_six, dec_u64, hex, parse};

#[test]
fn egl_modifier_query_is_linear_inclusive() {
    // On any host (even no-GPU CI where EGL init fails) the result must
    // contain LINEAR so software/shm + LINEAR clients keep working.
    for queried in [None, Some(vec![]), Some(vec![9, 3])] {
        let mods = egl_importable_bgra_modifiers(queried);
        assert!(
            mods.contains(&DRM_FORMAT_MOD_LINEAR),
            "EGL importable set must include LINEAR, got {mods:?}"
        );
    }
}

#[test]
fn format_table_has_one_entry_per_format_modifier_pair() {
    for queried in [None, Some(vec![0x0300_0000_0060_6014, 7])] {
        let mods = egl_importable_bgra_modifiers(queried);
        let table = make_dmabuf_format_table(&mods);
        // 2 formats (ARGB, XRGB) * mods.len() pairs * 16 bytes each.
        assert_eq!(table.len(), 2 * mods.len() * 16);
        assert!(mods.contains(&DRM_FORMAT_MOD_LINEAR));
    }
}

#[test]
fn modifiers_are_sorted_and_unique() {
    assert_eq!(
        egl_importable_bgra_modifiers(Some(vec![9, 3, 9, 0, 3])),
        [0, 3, 9]
    );
}

#[test]
fn format_table_entries_are_laid_out() {
    let table = make_dmabuf_format_table(&[0, 0x0102_0304_0506_0708]);
    let entry = |i: usize| &table[16 * i..16 * i + 16];
    let mut argb = DRM_FORMAT_ARGB8888.to_le_bytes().to_vec();
    argb.extend([0; 12]);
    assert_eq!(entry(0), argb);
    assert_eq!(entry(1)[8..], [8, 7, 6, 5, 4, 3, 2, 1]);
    assert_eq!(entry(2)[..4], DRM_FORMAT_XRGB8888.to_le_bytes());
    assert_eq!(tranche_indices(2), [0, 0, 1, 0, 2, 0, 3, 0]);
}

#[test]
fn externally_sampled_modifiers_are_left_out() {
    let mut out = vec![5];
    collect_sampleable(
        &mut out,
        &ModifierReply {
            modifiers: vec![1, 2, 3, 4],
            external_only: vec![0, 1, 0, 0],
            count: 3,
        },
    );
    assert_eq!(out, [5, 1, 3]);
}

fn asking() -> ModifierQuery {
    let mut q = ModifierQuery::begin();
    for _ in 0..7 {
        assert!(!q.advance(QueryReply::Step(true)));
    }
    assert_eq!(q.stage, QueryStage::Count { second: false });
    q
}

fn modifiers(modifiers: Vec<u64>, external_only: Vec<u32>) -> QueryReply {
    QueryReply::Modifiers(Some(ModifierReply {
        count: modifiers.len(),
        modifiers,
        external_only,
    }))
}

#[test]
fn both_formats_are_queried() {
    let mut q = asking();
    assert_eq!(q.format(), Some(DRM_FORMAT_ARGB8888));
    q.advance(QueryReply::Count { ok: true, count: 2 });
    assert_eq!(
        q.stage,
        QueryStage::Fetch {
            second: false,
            count: 2
        }
    );
    q.advance(modifiers(vec![7, 8], vec![0, 1]));
    assert_eq!(q.format(), Some(DRM_FORMAT_XRGB8888));
    q.advance(QueryReply::Count { ok: true, count: 1 });
    q.advance(modifiers(vec![3], vec![0]));
    assert_eq!(q.stage, QueryStage::Done);
    assert_eq!(
        egl_importable_bgra_modifiers(q.outcome()),
        [DRM_FORMAT_MOD_LINEAR, 3, 7]
    );
}

#[test]
fn formats_without_modifiers_are_passed_over() {
    let mut q = asking();
    q.advance(QueryReply::Count {
        ok: false,
        count: 9,
    });
    assert_eq!(q.stage, QueryStage::Count { second: true });
    q.advance(QueryReply::Count { ok: true, count: 0 });
    assert_eq!(q.outcome(), Some(vec![]));
    let mut q = asking();
    q.advance(QueryReply::Count { ok: true, count: 1 });
    q.advance(QueryReply::Modifiers(None));
    assert_eq!(q.stage, QueryStage::Count { second: true });
    q.advance(QueryReply::Step(true));
    assert_eq!(q.stage, QueryStage::Count { second: true });
}

#[test]
fn unusable_node_is_closed_again() {
    for failing in 0..7 {
        let mut q = ModifierQuery::begin();
        for _ in 0..failing {
            q.advance(QueryReply::Step(true));
        }
        let close = q.advance(QueryReply::Step(false));
        assert_eq!(close, failing == 1);
        assert_eq!(q.stage, QueryStage::Failed);
        assert_eq!(q.outcome(), None);
    }
}

#[test]
fn modifier_is_split_into_words() {
    assert_eq!(modifier_words(0x0000_0002_8000_0001), (i32::MIN + 1, 2));
}

#[test]
fn old_clients_are_told_formats_at_once() {
    let events = bind_events(&[0, 0x1_0000_0002], 3);
    assert_eq!(events.len(), 6);
    assert_eq!(
        events[0],
        FormatEvent::Format {
            fourcc: DRM_FORMAT_ARGB8888
        }
    );
    assert_eq!(
        events[2],
        FormatEvent::Modifier {
            fourcc: DRM_FORMAT_ARGB8888,
            hi: 1,
            lo: 2
        }
    );
    assert_eq!(bind_events(&[0, 1], 2).len(), 2);
    assert!(bind_events(&[0, 1], 4).is_empty());
}

#[test]
fn planes_are_put_in_index_order() {
    let mut p = ParamsState::new();
    p.add_plane(1, 11, 100, 64, 0, 7).unwrap();
    p.add_plane(0, 10, 0, 256, 1, 2).unwrap();
    let b = p.finalize_params(64, 32, DRM_FORMAT_XRGB8888).unwrap();
    assert_eq!((b.fd, b.offset, b.stride), (10, 0, 256));
    assert_eq!(b.modifier, 0x1_0000_0002);
    assert_eq!(b.extra_planes.len(), 1);
    assert_eq!(b.extra_planes[0].fd, 11);
    assert_eq!(b.as_shm_format(), ShmFormat::Xrgb8888);
    assert_eq!(
        p.finalize_params(64, 32, DRM_FORMAT_XRGB8888).err(),
        Some(ParamsError::AlreadyUsed)
    );
    assert_eq!(p.add_plane(0, 1, 0, 0, 0, 0), Err(ParamsError::AlreadyUsed));
}

fn refused(width: i32, height: i32, format: u32, plane: Option<u32>) -> String {
    let mut p = ParamsState::new();
    if let Some(idx) = plane {
        p.add_plane(idx, 3, 0, 4, 0, 0).unwrap();
    }
    match p.finalize_params(width, height, format) {
        Ok(_) => panic!("accepted"),
        Err(e) => {
            assert!(p.used);
            e.message()
        }
    }
}

#[test]
fn bad_parameters_are_refused_with_their_reason() {
    assert_eq!(
        refused(0, 5, DRM_FORMAT_ARGB8888, Some(0)),
        "bad dimensions 0x5"
    );
    assert_eq!(
        refused(5, -1, DRM_FORMAT_ARGB8888, Some(0)),
        "bad dimensions 5x-1"
    );
    assert_eq!(
        refused(16385, 1, DRM_FORMAT_ARGB8888, Some(0)),
        "dmabuf dimensions 16385x1 exceed max 16384x16384"
    );
    assert_eq!(refused(1, 1, 0xabc, Some(0)), "unsupported format 0xabc");
    assert_eq!(
        refused(1, 1, DRM_FORMAT_ARGB8888, None),
        "no plane 0 supplied"
    );
    assert_eq!(
        refused(1, 1, DRM_FORMAT_ARGB8888, Some(1)),
        "no plane 0 supplied"
    );
    assert_eq!(ParamsError::AlreadyUsed.message(), "params already used");
    let mut p = ParamsState::new();
    p.add_plane(0, 3, 0, 4, 0, 0).unwrap();
    assert!(p.finalize_params(16384, 16384, DRM_FORMAT_ARGB8888).is_ok());
}

#[test]
fn first_probed_node_is_named() {
    let nodes = [None, Some(0xe280), Some(1), None, None];
    assert_eq!(wl_drm_device_path(nodes), "/dev/dri/renderD129");
    assert_eq!(
        drm_main_device_bytes(nodes),
        [0x80, 0xe2, 0, 0, 0, 0, 0, 0]
    );
    let paths: Vec<&str> = (0..DRM_NODES).map(drm_node_path).collect();
    assert_eq!(
        paths,
        [
            "/dev/dri/renderD128",
            "/dev/dri/renderD129",
            "/dev/dri/renderD130",
            "/dev/dri/renderD134",
            "/dev/dri/card0"
        ]
    );
}

#[test]
fn device_path_and_main_device_are_the_same_node() {
    // Every combination of nodes, numbered by their place.
    for present in 1u32..32 {
        let mut nodes = [None; DRM_NODES];
        for (i, node) in nodes.iter_mut().enumerate() {
            if present & (1 << i) != 0 {
                *node = Some(0xe280 + i as u64);
            }
        }
        let first = present.trailing_zeros() as usize;
        assert_eq!(wl_drm_device_path(nodes), drm_node_path(first));
        assert_eq!(
            drm_main_device_bytes(nodes),
            (0xe280 + first as u64).to_le_bytes()
        );
    }
    // A later render node goes before the primary one, in both.
    let nodes = [None, None, Some(7), None, Some(9)];
    assert_eq!(wl_drm_device_path(nodes), "/dev/dri/renderD130");
    assert_eq!(drm_main_device_bytes(nodes), [7, 0, 0, 0, 0, 0, 0, 0]);
}

#[test]
fn no_node_has_no_device_number() {
    assert_eq!(drm_main_device_bytes([None; DRM_NODES]), [0; 8]);
    assert_eq!(wl_drm_device_path([None; DRM_NODES]), "/dev/dri/card0");
}

#[test]
fn egl_reads_with_an_es2_context() {
    assert_eq!(
        config_attributes(),
        [0x3024, 8, 0x3023, 8, 0x3022, 8, 0x3021, 8, 0x3040, 4, 0x3038]
    );
    assert_eq!(context_attributes(), [0x3098, 2, 0x3038]);
    assert_eq!(config_attributes()[0], khronos_egl::RED_SIZE);
    assert_eq!(config_attributes()[8], khronos_egl::RENDERABLE_TYPE);
    assert_eq!(context_attributes()[0], khronos_egl::CONTEXT_MAJOR_VERSION);
}

#[test]
fn single_pixel_takes_the_top_bytes() {
    assert_eq!(
        single_pixel(0x01ff_ffff, 0x0200_0000, 0x03ff_0000, 0xffff_ffff),
        [3, 2, 1, 255]
    );
}

fn buffer(modifier: u64, offset: u32, stride: u32, height: i32, planes: usize) -> DmabufBufferData {
    let mut sorted = vec![Plane {
        fd: 3,
        offset,
        stride,
        modifier,
    }];
    for i in 0..planes {
        sorted.push(Plane {
            fd: 4 + i as i32,
            offset: 0,
            stride: 4,
            modifier,
        });
    }
    DmabufBufferData::new(sorted, 1, height, DRM_FORMAT_ARGB8888)
}

#[test]
fn linear_buffer_is_mapped() {
    let mut rb = Readback::begin(&buffer(0, 2, 4, 1, 0)).unwrap();
    assert_eq!(rb.stage, ReadStage::Fence { plane: 0 });
    rb.advance(None);
    assert_eq!(rb.stage, ReadStage::SyncStart);
    rb.advance(None);
    assert_eq!(rb.stage, ReadStage::Mmap);
    rb.advance(Some(vec![9, 9, 1, 2, 3, 4, 9]));
    assert_eq!(rb.stage, ReadStage::SyncEnd);
    rb.advance(None);
    assert_eq!(rb.stage, ReadStage::Done);
    assert_eq!(rb.pixels, Some(vec![1, 2, 3, 4]));
}

#[test]
fn zero_mapping_is_tried_in_other_ways() {
    let mut rb = Readback::begin(&buffer(0, 0, 4, 1, 0)).unwrap();
    rb.advance(None);
    rb.advance(None);
    rb.advance(Some(vec![0; 4]));
    assert_eq!(rb.stage, ReadStage::FenceAgain);
    rb.advance(None);
    assert_eq!(rb.stage, ReadStage::GemMmap);
    rb.advance(Some(vec![0; 4]));
    assert_eq!(rb.stage, ReadStage::Drm);
    rb.advance(None);
    assert_eq!(rb.stage, ReadStage::Gbm);
    rb.advance(Some(vec![0; 4]));
    assert_eq!(rb.stage, ReadStage::Egl);
    rb.advance(Some(vec![5; 4]));
    assert_eq!(rb.stage, ReadStage::SyncEnd);
    rb.advance(None);
    assert_eq!(rb.pixels, Some(vec![5; 4]));
}

#[test]
fn short_mapping_ends_without_pixels() {
    let mut rb = Readback::begin(&buffer(0, 2, 4, 1, 0)).unwrap();
    rb.advance(None);
    rb.advance(None);
    rb.advance(Some(vec![1; 5]));
    assert_eq!(rb.stage, ReadStage::SyncEnd);
    rb.advance(None);
    assert_eq!(rb.pixels, None);
}

#[test]
fn tiled_buffer_goes_straight_to_egl() {
    let mut rb = Readback::begin(&buffer(7, 0, 4, 1, 2)).unwrap();
    rb.advance(None);
    assert_eq!(rb.stage, ReadStage::Fence { plane: 1 });
    rb.advance(None);
    assert_eq!(rb.stage, ReadStage::Fence { plane: 2 });
    rb.advance(None);
    assert_eq!(rb.stage, ReadStage::Egl);
    rb.advance(None);
    assert_eq!(rb.stage, ReadStage::Done);
    assert_eq!(rb.pixels, None);
    assert!(Readback::begin(&buffer(0, 0, 4, -1, 0)).is_none());
}

#[test]
fn fences_are_judged_by_their_poll() {
    assert!(fence_exported(0, 3));
    assert!(!fence_exported(-1, 3));
    assert!(!fence_exported(0, -1));
    assert!(poll_readable(1, 1));
    assert!(poll_readable(1, 9));
    assert!(!poll_readable(1, 8));
    assert!(!poll_readable(0, 1));
    assert!(dmabuf_fence_ready_now(false, 0, 0));
    assert!(dmabuf_fence_ready_now(true, 1, 1));
    assert!(!dmabuf_fence_ready_now(true, 0, 0));
    assert_eq!(
        wait_for_dmabuf_fence_status(false, (0, 0), None),
        Some(FenceStatus::NoFence)
    );
    assert_eq!(
        wait_for_dmabuf_fence_status(true, (1, 1), None),
        Some(FenceStatus::AlreadySignaled)
    );
    assert_eq!(wait_for_dmabuf_fence_status(true, (0, 0), None), None);
    assert_eq!(
        wait_for_dmabuf_fence_status(true, (0, 0), Some((1, 1))),
        Some(FenceStatus::Waited)
    );
    assert_eq!(
        wait_for_dmabuf_fence_status(true, (0, 0), Some((0, 0))),
        Some(FenceStatus::TimedOut)
    );
    assert_eq!(sync_flags(false), 1);
    assert_eq!(sync_flags(true), 5);
}

#[test]
fn lengths_are_bounded() {
    assert_eq!(bounded_length(8192, 32768), Some(MAX_DMABUF_LEN));
    assert_eq!(bounded_length(8193, 32768), None);
    assert_eq!(bounded_length(-1, 4), None);
    assert_eq!(bounded_length(0, -4), Some(0));
    assert!(has_content(&[0, 0, 1]));
    assert!(!has_content(&[0, 0]));
    assert!(!has_content(&[]));
}

#[test]
fn egl_read_unwinds_from_any_stage() {
    let mut rb = EglReadback::begin(1, 8);
    for _ in 0..12 {
        rb.advance(true, vec![]);
    }
    assert_eq!(rb.stage, EglStage::AttachFramebuffer);
    assert_eq!(rb.release(), None);
    assert_eq!(rb.read_len(), Some(8));
    rb.advance(true, vec![]);
    assert_eq!(rb.stage, EglStage::ReadPixels);
    rb.advance(true, vec![1, 2, 3, 4, 5, 6, 7, 8]);
    assert_eq!(rb.pixels, Some(vec![3, 2, 1, 4, 7, 6, 5, 8]));
    let mut freed = vec![];
    while let Some(r) = rb.release() {
        freed.push(r);
    }
    assert_eq!(
        freed,
        [
            EglResource::Framebuffer,
            EglResource::Texture,
            EglResource::Image,
            EglResource::Context,
            EglResource::Display,
            EglResource::Gbm,
            EglResource::Node,
        ]
    );

    let mut rb = EglReadback::begin(1, 8);
    rb.advance(true, vec![]);
    rb.advance(false, vec![]);
    assert_eq!(rb.stage, EglStage::Unwind);
    assert_eq!(rb.release(), Some(EglResource::Node));
    assert_eq!(rb.release(), None);
}

#[test]
fn oversized_egl_read_is_not_made() {
    let mut rb = EglReadback::begin(8193, 32768);
    for _ in 0..13 {
        rb.advance(true, vec![]);
    }
    assert_eq!(rb.stage, EglStage::Unwind);
    assert_eq!(rb.pixels, None);
    assert_eq!(rb.read_len(), None);
}

#[test]
fn egl_display_is_terminated_before_its_device() {
    let mut c = EglCtx::open();
    for _ in 0..7 {
        c.advance(true);
    }
    assert_eq!(c.stage, EglOpenStage::Ready);
    assert_eq!(c.release(), Some(EglResource::Display));
    assert_eq!(c.release(), Some(EglResource::Gbm));
    assert_eq!(c.release(), Some(EglResource::Node));
    let mut c = EglCtx::open();
    c.advance(true);
    c.advance(true);
    c.advance(false);
    assert_eq!(c.stage, EglOpenStage::Unwind);
    assert_eq!(c.release(), Some(EglResource::Gbm));
}

#[test]
fn import_attributes_list_every_plane() {
    let extra = [PlaneData {
        fd: 8,
        offset: 16,
        stride: 32,
    }];
    assert_eq!(
        import_attributes(7, &extra, 64, 48, 256, 4, DRM_FORMAT_ARGB8888, 0x2_0000_0003),
        [
            0x3057, 64, 0x3056, 48, 0x3271, 0x34325241, 0x3272, 7, 0x3273, 4, 0x3274, 256, 0x3443,
            3, 0x3444, 2, 0x3278, 8, 0x3279, 16, 0x327a, 32, 0x3445, 3, 0x3446, 2, 0x3038
        ]
    );
    assert_eq!(
        import_attributes(7, &[], 64, 48, 256, 4, DRM_FORMAT_ARGB8888, 0).len(),
        13
    );
}

#[test]
fn swapping_red_and_blue_twice_changes_nothing() {
    let mut v = vec![1, 2, 3, 4, 5, 6];
    swap_red_blue(&mut v);
    assert_eq!(v, [3, 2, 1, 4, 5, 6]);
    swap_red_blue(&mut v);
    assert_eq!(v, [1, 2, 3, 4, 5, 6]);
}

#[test]
fn gbm_read_falls_back_to_the_plain_import() {
    let mut rb = GbmReadback::begin(2, 4).unwrap();
    rb.advance(true);
    rb.advance(true);
    assert_eq!(rb.stage, GbmStage::ImportModifier);
    rb.advance(false);
    assert_eq!(rb.stage, GbmStage::ImportPlain);
    rb.advance(true);
    assert_eq!(rb.stage, GbmStage::MapBuffer);
    assert_eq!(rb.mapping_len(6), Some(12));
    rb.mapped(6, Some(&[1, 2, 3, 4, 0, 0, 5, 6, 7, 8, 0, 0]));
    assert_eq!(rb.pixels, Some(vec![1, 2, 3, 4, 5, 6, 7, 8]));
    assert_eq!(rb.release(), Some(GbmResource::Mapping));
    assert_eq!(rb.release(), Some(GbmResource::Buffer));
    assert_eq!(rb.release(), Some(GbmResource::Device));
    assert_eq!(rb.release(), Some(GbmResource::Node));
    assert_eq!(rb.release(), None);
    assert!(GbmReadback::begin(8193, 32768).is_none());
}

#[test]
fn oversized_gbm_mapping_is_given_back_with_the_rest() {
    let mut rb = GbmReadback::begin(2, 4).unwrap();
    rb.advance(true);
    rb.advance(true);
    rb.advance(true);
    assert_eq!(rb.mapping_len(0xffff_ffff), None);
    rb.mapped(0xffff_ffff, Some(&[]));
    assert_eq!(rb.pixels, None);
    assert_eq!(rb.release(), Some(GbmResource::Mapping));
    assert_eq!(rb.release(), Some(GbmResource::Buffer));
    assert_eq!(rb.release(), Some(GbmResource::Device));
    assert_eq!(rb.release(), Some(GbmResource::Node));
    assert_eq!(rb.release(), None);
}

#[test]
fn failed_gbm_mapping_has_no_pixels() {
    let mut rb = GbmReadback::begin(1, 4).unwrap();
    rb.advance(true);
    rb.advance(true);
    rb.advance(true);
    rb.mapped(0, None);
    assert_eq!(rb.pixels, None);
    assert_eq!(rb.release(), Some(GbmResource::Buffer));
    let mut rb = GbmReadback::begin(1, 4).unwrap();
    rb.advance(false);
    assert_eq!(rb.stage, GbmStage::Unwind);
    assert_eq!(rb.release(), None);
}

#[test]
fn gbm_imports_describe_one_plane() {
    let m = modifier_import(5, 10, 20, 40, 8, 3);
    assert_eq!((m.width, m.height, m.num_fds, m.modifier), (10, 20, 1, 3));
    assert_eq!(m.fds, [5, -1, -1, -1]);
    assert_eq!(m.strides, [40, 0, 0, 0]);
    assert_eq!(m.offsets, [8, 0, 0, 0]);
    let p = plain_import(5, 10, 20, 40);
    assert_eq!((p.fd, p.width, p.height, p.stride), (5, 10, 20, 40));
    assert_eq!(p.format, DRM_FORMAT_ARGB8888);
}

#[test]
fn rows_are_repacked() {
    assert_eq!(repack_rows(&[1, 2, 3, 4, 5, 6], 3, 2, 2), [1, 2, 4, 5]);
    assert_eq!(repack_rows(&[1, 2, 3, 4], 2, 2, 2), [1, 2, 3, 4]);
    assert_eq!(mapped_window(&[1, 2, 3, 4], 1, 2), [2, 3]);
}

#[test]
fn node_search_tries_every_node() {
    let mut s = NodeSearch::begin(NodeAccess::AmdGem);
    assert!(!s.advance(false));
    assert_eq!(
        s,
        NodeSearch::Trying {
            access: NodeAccess::AmdGem,
            node: 1,
            step: NodeStep::Open
        }
    );
    assert!(!s.advance(true));
    assert!(s.advance(false));
    assert!(!s.advance(true));
    assert!(!s.advance(true));
    assert!(!s.advance(true));
    assert!(s.advance(true));
    assert_eq!(
        s,
        NodeSearch::Found {
            access: NodeAccess::AmdGem,
            node: 2
        }
    );
    let mut s = NodeSearch::begin(NodeAccess::Dumb);
    s.advance(false);
    s.advance(false);
    assert_eq!(
        s,
        NodeSearch::Exhausted {
            access: NodeAccess::Dumb
        }
    );
    assert_eq!(node_path(NodeAccess::AmdGem, 1), "/dev/dri/card1");
    assert_eq!(node_path(NodeAccess::AmdGem, 2), "/dev/dri/card0");
    assert_eq!(node_path(NodeAccess::Dumb, 0), "/dev/dri/renderD128");
    assert_eq!(node_path(NodeAccess::Dumb, 1), "/dev/dri/card0");
}

#[test]
fn integers_are_laid_out_in_bytes() {
    let mut v = vec![];
    put_le16(&mut v, 0x0102);
    put_le32(&mut v, 0x0304_0506);
    put_le64(&mut v, 7);
    put_be32(&mut v, 0x0809_0a0b);
    assert_eq!(
        v,
        [2, 1, 6, 5, 4, 3, 7, 0, 0, 0, 0, 0, 0, 0, 8, 9, 10, 11]
    );
    assert_eq!(read_be32(&[1, 2, 3, 4]), 0x0102_0304);
}

#[test]
fn numbers_are_written_and_read() {
    assert_eq!(dec(i64::MIN), "-9223372036854775808");
    assert_eq!(dec(0), "0");
    assert_eq!(dec_u64(u64::MAX), "18446744073709551615");
    assert_eq!(hex(0xabc), "0xabc");
    assert_eq!(dec_six(42), "000042");
    assert_eq!(dec_six(1_234_567), "1234567");
    assert_eq!(parse("18446744073709551615", u64::MAX), Some(u64::MAX));
    assert_eq!(parse("18446744073709551616", u64::MAX), None);
    assert_eq!(parse("256", 255), None);
    assert_eq!(parse("", 9), None);
    assert_eq!(parse("+7", 9), Some(7));
    assert_eq!(parse("-7", 9), None);
    assert_eq!(parse("7 ", 9), None);
}
