//! Linux dmabuf buffers: advertised formats and modifiers, and the validation
//! of client-supplied parameters.

use vstd::prelude::*;
use vstd::string::*;

use crate::buffer::ShmFormat;
use crate::bytes::{le16, le32, le64, put_le16, put_le32, put_le64};
use crate::text::{dec, decimal, hex, numeral};

verus! {

/// The linear (untiled) DRM modifier.
pub const DRM_FORMAT_MOD_LINEAR: u64 = 0;

/// DRM fourcc `AR24`: little-endian, byte order B, G, R, A.
pub const DRM_FORMAT_ARGB8888: u32 = 0x34325241;

/// DRM fourcc `XR24`.
pub const DRM_FORMAT_XRGB8888: u32 = 0x34325258;

/// Low word of a modifier, as an EGL attribute value.
pub open spec fn modifier_lo(modifier: u64) -> i32 {
    (modifier & 0xFFFF_FFFF) as i32
}

/// High word of a modifier, as an EGL attribute value.
pub open spec fn modifier_hi(modifier: u64) -> i32 {
    (modifier >> 32) as i32
}

/// Splits a modifier into its low and high words.
pub fn modifier_words(modifier: u64) -> (r: (i32, i32))
    ensures
        r == (modifier_lo(modifier), modifier_hi(modifier)),
{
    ((modifier & 0xFFFF_FFFF) as i32, (modifier >> 32) as i32)
}

/// The two words of a modifier hold all of it.
pub proof fn modifier_words_recombine(modifier: u64)
    ensures
        ((modifier_hi(modifier) as u32) as u64) << 32 | ((modifier_lo(modifier) as u32) as u64)
            == modifier,
{
    assert(((((modifier >> 32) as i32) as u32) as u64) << 32 | ((((modifier & 0xFFFF_FFFF) as i32)
        as u32) as u64) == modifier) by (bit_vector);
}

/// Layout of one plane beyond the first.
pub struct PlaneData {
    pub fd: i32,
    pub offset: u32,
    pub stride: u32,
}

/// A buffer made of one or more dmabuf planes.
pub struct DmabufBufferData {
    pub fd: i32,
    pub offset: u32,
    pub stride: u32,
    pub extra_planes: Vec<PlaneData>,
    pub width: i32,
    pub height: i32,
    /// DRM fourcc code.
    pub drm_format: u32,
    pub modifier: u64,
}

/// A plane as a client adds it.
#[derive(Clone, Copy, Debug)]
pub struct Plane {
    pub fd: i32,
    pub offset: u32,
    pub stride: u32,
    pub modifier: u64,
}

/// Parameters of a buffer under construction. They make one buffer at most.
pub struct ParamsState {
    /// Planes with their index, in the order they were added.
    pub planes: Vec<(u32, Plane)>,
    pub used: bool,
}

/// Why buffer parameters were refused.
#[derive(Clone, Copy, Debug, PartialEq, Eq, Structural)]
pub enum ParamsError {
    AlreadyUsed,
    BadDimensions { width: i32, height: i32 },
    TooLarge { width: i32, height: i32 },
    UnsupportedFormat { format: u32 },
    NoPlaneZero,
}

/// Largest accepted width or height. It lies above any output size, because
/// clients commit buffers somewhat larger than the output.
pub const MAX_DMABUF_DIM: i32 = 16384;

impl ParamsError {
    /// The error's message.
    pub open spec fn text(&self) -> Seq<char> {
        match *self {
            ParamsError::AlreadyUsed => "params already used"@,
            ParamsError::BadDimensions { width, height } => "bad dimensions "@ + decimal(
                width as int,
            ) + "x"@ + decimal(height as int),
            ParamsError::TooLarge { width, height } => "dmabuf dimensions "@ + decimal(
                width as int,
            ) + "x"@ + decimal(height as int) + " exceed max 16384x16384"@,
            ParamsError::UnsupportedFormat { format } => "unsupported format "@ + ("0x"@ + numeral(
                format as nat,
                16,
            )),
            ParamsError::NoPlaneZero => "no plane 0 supplied"@,
        }
    }

    /// The error's message.
    pub fn message(&self) -> (r: String)
        ensures
            r@ == self.text(),
    {
        match *self {
            ParamsError::AlreadyUsed => String::from_str("params already used"),
            ParamsError::BadDimensions { width, height } => {
                let mut s: String = String::from_str("bad dimensions ");
                s.append(dec(width as i64).as_str());
                s.append("x");
                s.append(dec(height as i64).as_str());
                s
            },
            ParamsError::TooLarge { width, height } => {
                let mut s: String = String::from_str("dmabuf dimensions ");
                s.append(dec(width as i64).as_str());
                s.append("x");
                s.append(dec(height as i64).as_str());
                s.append(" exceed max 16384x16384");
                s
            },
            ParamsError::UnsupportedFormat { format } => {
                let mut s: String = String::from_str("unsupported format ");
                s.append(hex(format as u64).as_str());
                s
            },
            ParamsError::NoPlaneZero => String::from_str("no plane 0 supplied"),
        }
    }
}

/// The entries with index `k`, in order.
pub open spec fn with_index(planes: Seq<(u32, Plane)>, k: u32) -> Seq<(u32, Plane)> {
    planes.filter(|e: (u32, Plane)| e.0 == k)
}

/// Whether the indices never decrease.
pub open spec fn index_sorted(planes: Seq<(u32, Plane)>) -> bool {
    forall|i: int, j: int| 0 <= i <= j < planes.len() ==> planes[i].0 <= planes[j].0
}

/// Whether `b` is `a` sorted by index, entries with equal indices in their old
/// order.
pub open spec fn stably_sorted(a: Seq<(u32, Plane)>, b: Seq<(u32, Plane)>) -> bool {
    &&& index_sorted(b)
    &&& b.len() == a.len()
    &&& forall|k: u32| #[trigger] with_index(b, k) == with_index(a, k)
}

/// The planes of a list of entries.
pub open spec fn plane_list(planes: Seq<(u32, Plane)>) -> Seq<Plane> {
    planes.map_values(|e: (u32, Plane)| e.1)
}

proof fn lemma_filter_none(s: Seq<(u32, Plane)>, k: u32)
    requires
        forall|i: int| 0 <= i < s.len() ==> s[i].0 != k,
    ensures
        with_index(s, k) == Seq::<(u32, Plane)>::empty(),
    decreases s.len(),
{
    reveal(Seq::filter);
    if s.len() > 0 {
        lemma_filter_none(s.drop_last(), k);
    }
}

proof fn lemma_filter_one(e: (u32, Plane), k: u32)
    ensures
        with_index(seq![e], k) == if e.0 == k {
            seq![e]
        } else {
            Seq::empty()
        },
{
    reveal(Seq::filter);
    let s = seq![e];
    assert(s.drop_last() =~= Seq::empty());
    lemma_filter_none(s.drop_last(), k);
    assert(s.last() == e);
}

proof fn lemma_insert_keeps_order(
    done: Seq<(u32, Plane)>,
    sorted: Seq<(u32, Plane)>,
    e: (u32, Plane),
    at: int,
)
    requires
        stably_sorted(done, sorted),
        0 <= at <= sorted.len(),
        forall|i: int| 0 <= i < at ==> sorted[i].0 <= e.0,
        forall|i: int| at <= i < sorted.len() ==> sorted[i].0 > e.0,
    ensures
        stably_sorted(done.push(e), sorted.insert(at, e)),
{
    let low = sorted.take(at);
    let high = sorted.skip(at);
    let one = seq![e];
    let result = sorted.insert(at, e);
    assert(result =~= low + one + high);
    assert(sorted =~= low + high);
    assert(done.push(e) =~= done + one);
    assert forall|k: u32| #[trigger] with_index(result, k) == with_index(done.push(e), k) by {
        let pred = |x: (u32, Plane)| x.0 == k;
        Seq::filter_distributes_over_add(low + one, high, pred);
        Seq::filter_distributes_over_add(low, one, pred);
        Seq::filter_distributes_over_add(low, high, pred);
        Seq::filter_distributes_over_add(done, one, pred);
        lemma_filter_one(e, k);
        assert(with_index(sorted, k) == with_index(done, k));
        if k == e.0 {
            assert forall|i: int| 0 <= i < high.len() implies high[i].0 != k by {
                assert(high[i] == sorted[at + i]);
            }
            lemma_filter_none(high, k);
            assert(with_index(low, k) + one + Seq::empty() =~= with_index(low, k) + one);
            assert(with_index(low, k) + Seq::<(u32, Plane)>::empty() =~= with_index(low, k));
        } else {
            assert(with_index(low, k) + Seq::<(u32, Plane)>::empty() =~= with_index(low, k));
            assert(with_index(done, k) + Seq::<(u32, Plane)>::empty() =~= with_index(done, k));
        }
    }
}

/// Sorts planes by index, keeping the order of equal indices.
fn sort_planes(planes: Vec<(u32, Plane)>) -> (r: Vec<(u32, Plane)>)
    ensures
        stably_sorted(planes@, r@),
{
    let mut r: Vec<(u32, Plane)> = Vec::new();
    let n: usize = planes.len();
    let mut i: usize = 0;
    proof {
        assert(planes@.take(0) =~= Seq::empty());
    }
    while i < n
        invariant
            n == planes@.len(),
            i <= n,
            stably_sorted(planes@.take(i as int), r@),
        decreases n - i,
    {
        let e: (u32, Plane) = planes[i];
        let mut at: usize = r.len();
        while at > 0 && r[at - 1].0 > e.0
            invariant
                at <= r@.len(),
                forall|k: int| at <= k < r@.len() ==> r@[k].0 > e.0,
            decreases at,
        {
            at = at - 1;
        }
        proof {
            assert forall|k: int| 0 <= k < at implies r@[k].0 <= e.0 by {
                assert(r@[k].0 <= r@[at - 1].0);
            }
            lemma_insert_keeps_order(planes@.take(i as int), r@, e, at as int);
            assert(planes@.take(i as int).push(e) =~= planes@.take(i + 1));
        }
        r.insert(at, e);
        i = i + 1;
    }
    assert(planes@.take(n as int) =~= planes@);
    r
}

/// What finalising parameters gives, but for the buffer's planes: whether they
/// are refused, and why.
pub open spec fn refusal(
    planes: Seq<(u32, Plane)>,
    used: bool,
    width: i32,
    height: i32,
    format: u32,
) -> Option<ParamsError> {
    if used {
        Some(ParamsError::AlreadyUsed)
    } else if width <= 0 || height <= 0 {
        Some(ParamsError::BadDimensions { width, height })
    } else if width > MAX_DMABUF_DIM || height > MAX_DMABUF_DIM {
        Some(ParamsError::TooLarge { width, height })
    } else if format != DRM_FORMAT_ARGB8888 && format != DRM_FORMAT_XRGB8888 {
        Some(ParamsError::UnsupportedFormat { format })
    } else if with_index(planes, 0).len() == 0 {
        Some(ParamsError::NoPlaneZero)
    } else {
        None
    }
}

proof fn lemma_first_is_plane_zero(planes: Seq<(u32, Plane)>, sorted: Seq<(u32, Plane)>)
    requires
        stably_sorted(planes, sorted),
    ensures
        with_index(planes, 0).len() > 0 <==> sorted.len() > 0 && sorted[0].0 == 0,
        with_index(planes, 0).len() > 0 ==> sorted[0] == with_index(planes, 0)[0],
{
    assert(with_index(sorted, 0) == with_index(planes, 0));
    if sorted.len() > 0 && sorted[0].0 == 0 {
        let pred = |e: (u32, Plane)| e.0 == 0u32;
        let first = seq![sorted[0]];
        assert(sorted =~= first + sorted.skip(1));
        Seq::filter_distributes_over_add(first, sorted.skip(1), pred);
        lemma_filter_one(sorted[0], 0);
    } else {
        assert forall|i: int| 0 <= i < sorted.len() implies sorted[i].0 != 0 by {
            assert(sorted[0].0 <= sorted[i].0);
        }
        lemma_filter_none(sorted, 0);
    }
}

proof fn lemma_filter_last(s: Seq<(u32, Plane)>, k: u32)
    requires
        s.len() > 0,
    ensures
        with_index(s, k) == if s.last().0 == k {
            with_index(s.drop_last(), k).push(s.last())
        } else {
            with_index(s.drop_last(), k)
        },
{
    reveal(Seq::filter);
}

proof fn lemma_filter_some(s: Seq<(u32, Plane)>, k: u32)
    requires
        with_index(s, k).len() > 0,
    ensures
        exists|i: int| 0 <= i < s.len() && s[i].0 == k,
{
    if forall|i: int| 0 <= i < s.len() ==> s[i].0 != k {
        lemma_filter_none(s, k);
    }
}

/// There is one stable order only, so the planes of a finalised buffer do not
/// depend on how they were sorted.
pub proof fn stable_order_is_unique(
    planes: Seq<(u32, Plane)>,
    a: Seq<(u32, Plane)>,
    b: Seq<(u32, Plane)>,
)
    requires
        stably_sorted(planes, a),
        stably_sorted(planes, b),
    ensures
        a == b,
{
    assert forall|k: u32| #[trigger] with_index(a, k) == with_index(b, k) by {
        assert(with_index(a, k) == with_index(planes, k));
        assert(with_index(b, k) == with_index(planes, k));
    }
    lemma_same_groups_same_order(a, b);
}

proof fn lemma_same_groups_same_order(a: Seq<(u32, Plane)>, b: Seq<(u32, Plane)>)
    requires
        index_sorted(a),
        index_sorted(b),
        a.len() == b.len(),
        forall|k: u32| #[trigger] with_index(a, k) == with_index(b, k),
    ensures
        a == b,
    decreases a.len(),
{
    if a.len() == 0 {
        assert(a =~= b);
    } else {
        let k = a.last().0;
        let j = b.last().0;
        lemma_filter_last(a, k);
        lemma_filter_last(b, j);
        lemma_filter_last(a, j);
        lemma_filter_last(b, k);
        assert(with_index(a, k) == with_index(b, k));
        assert(with_index(a, j) == with_index(b, j));
        lemma_filter_some(b, k);
        lemma_filter_some(a, j);
        assert(k == j);
        assert(with_index(a, k).last() == a.last());
        assert(with_index(b, k).last() == b.last());
        assert(a.last() == b.last());
        assert forall|i: u32| #[trigger] with_index(a.drop_last(), i) == with_index(
            b.drop_last(),
            i,
        ) by {
            lemma_filter_last(a, i);
            lemma_filter_last(b, i);
            assert(with_index(a, i) == with_index(b, i));
            if i == k {
                assert(with_index(a.drop_last(), i) =~= with_index(a, i).drop_last());
                assert(with_index(b.drop_last(), i) =~= with_index(b, i).drop_last());
            }
        }
        lemma_same_groups_same_order(a.drop_last(), b.drop_last());
        assert(a =~= a.drop_last().push(a.last()));
        assert(b =~= b.drop_last().push(b.last()));
    }
}

impl ParamsState {
    /// Parameters without any plane.
    pub fn new() -> (r: ParamsState)
        ensures
            r.planes@.len() == 0,
            !r.used,
    {
        ParamsState { planes: Vec::new(), used: false }
    }

    /// Adds a plane. Parameters that made a buffer take no further plane.
    pub fn add_plane(
        &mut self,
        plane_idx: u32,
        fd: i32,
        offset: u32,
        stride: u32,
        modifier_hi: u32,
        modifier_lo: u32,
    ) -> (r: Result<(), ParamsError>)
        ensures
            final(self).used == old(self).used,
            old(self).used ==> r == Err::<(), ParamsError>(ParamsError::AlreadyUsed) && final(self).planes@ == old(self).planes@,
            !old(self).used ==> r is Ok && final(self).planes@ == old(self).planes@.push(
                (
                    plane_idx,
                    Plane {
                        fd,
                        offset,
                        stride,
                        modifier: (modifier_hi * 0x1_0000_0000 + modifier_lo) as u64,
                    },
                ),
            ),
    {
        if self.used {
            return Err(ParamsError::AlreadyUsed);
        }
        let modifier: u64 = modifier_hi as u64 * 0x1_0000_0000 + modifier_lo as u64;
        self.planes.push((plane_idx, Plane { fd, offset, stride, modifier }));
        Ok(())
    }

    /// Makes a buffer of the collected planes, whichever order they were added
    /// in. Whatever the outcome, the parameters are used up.
    pub fn finalize_params(&mut self, width: i32, height: i32, format: u32) -> (r: Result<
        DmabufBufferData,
        ParamsError,
    >)
        ensures
            final(self).used,
            final(self).planes@ == match refusal(
                old(self).planes@,
                old(self).used,
                width,
                height,
                format,
            ) {
                None => Seq::empty(),
                Some(ParamsError::NoPlaneZero) => Seq::empty(),
                Some(_) => old(self).planes@,
            },
            match r {
                Err(e) => refusal(old(self).planes@, old(self).used, width, height, format) == Some(
                    e,
                ),
                Ok(d) => {
                    &&& refusal(old(self).planes@, old(self).used, width, height, format) is None
                    &&& exists|sorted: Seq<(u32, Plane)>| #[trigger]
                        stably_sorted(old(self).planes@, sorted) && d.made_of(
                            plane_list(sorted),
                            width,
                            height,
                            format,
                        )
                },
            },
    {
        if self.used {
            return Err(ParamsError::AlreadyUsed);
        }
        self.used = true;
        if width <= 0 || height <= 0 {
            return Err(ParamsError::BadDimensions { width, height });
        }
        if width > MAX_DMABUF_DIM || height > MAX_DMABUF_DIM {
            return Err(ParamsError::TooLarge { width, height });
        }
        if format != DRM_FORMAT_ARGB8888 && format != DRM_FORMAT_XRGB8888 {
            return Err(ParamsError::UnsupportedFormat { format });
        }
        let mut planes: Vec<(u32, Plane)> = Vec::new();
        std::mem::swap(&mut planes, &mut self.planes);
        let ghost given = planes@;
        let planes: Vec<(u32, Plane)> = sort_planes(planes);
        proof {
            lemma_first_is_plane_zero(given, planes@);
        }
        let n: usize = planes.len();
        if n == 0 || planes[0].0 != 0 {
            return Err(ParamsError::NoPlaneZero);
        }
        let mut sorted: Vec<Plane> = Vec::new();
        let mut i: usize = 0;
        while i < n
            invariant
                n == planes@.len(),
                i <= n,
                sorted@ == plane_list(planes@.take(i as int)),
            decreases n - i,
        {
            sorted.push(planes[i].1);
            i = i + 1;
            assert(sorted@ =~= plane_list(planes@.take(i as int)));
        }
        assert(planes@.take(n as int) =~= planes@);
        let d = DmabufBufferData::new(sorted, width, height, format);
        assert(stably_sorted(given, planes@));
        Ok(d)
    }
}

impl Default for ParamsState {
    fn default() -> (r: ParamsState)
        ensures
            r.planes@.len() == 0,
            !r.used,
    {
        ParamsState::new()
    }
}

impl DmabufBufferData {
    /// Whether this is the buffer of the given planes, plane 0 first.
    pub open spec fn made_of(
        &self,
        planes: Seq<Plane>,
        width: i32,
        height: i32,
        drm_format: u32,
    ) -> bool {
        &&& planes.len() > 0
        &&& self.fd == planes[0].fd
        &&& self.offset == planes[0].offset
        &&& self.stride == planes[0].stride
        &&& self.modifier == planes[0].modifier
        &&& self.width == width
        &&& self.height == height
        &&& self.drm_format == drm_format
        &&& self.extra_planes@ == planes.skip(1).map_values(
            |p: Plane| PlaneData { fd: p.fd, offset: p.offset, stride: p.stride },
        )
    }

    /// A buffer of planes in index order. The modifier is that of plane 0.
    pub fn new(sorted_planes: Vec<Plane>, width: i32, height: i32, drm_format: u32) -> (r: Self)
        requires
            sorted_planes@.len() > 0,
        ensures
            r.made_of(sorted_planes@, width, height, drm_format),
    {
        let plane0: Plane = sorted_planes[0];
        let n: usize = sorted_planes.len();
        let mut extra_planes: Vec<PlaneData> = Vec::new();
        let mut i: usize = 1;
        while i < n
            invariant
                n == sorted_planes@.len(),
                1 <= i <= n,
                extra_planes@ == sorted_planes@.subrange(1, i as int).map_values(
                    |p: Plane| PlaneData { fd: p.fd, offset: p.offset, stride: p.stride },
                ),
            decreases n - i,
        {
            let p: Plane = sorted_planes[i];
            extra_planes.push(PlaneData { fd: p.fd, offset: p.offset, stride: p.stride });
            i = i + 1;
            assert(extra_planes@ =~= sorted_planes@.subrange(1, i as int).map_values(
                |p: Plane| PlaneData { fd: p.fd, offset: p.offset, stride: p.stride },
            ));
        }
        assert(sorted_planes@.subrange(1, n as int) =~= sorted_planes@.skip(1));
        DmabufBufferData {
            fd: plane0.fd,
            offset: plane0.offset,
            stride: plane0.stride,
            extra_planes,
            width,
            height,
            drm_format,
            modifier: plane0.modifier,
        }
    }

    /// The `wl_shm` format with the same byte layout.
    pub open spec fn shm_format(&self) -> ShmFormat {
        if self.drm_format == DRM_FORMAT_ARGB8888 {
            ShmFormat::Argb8888
        } else if self.drm_format == DRM_FORMAT_XRGB8888 {
            ShmFormat::Xrgb8888
        } else {
            ShmFormat::Other(self.drm_format)
        }
    }

    /// Projects the DRM fourcc onto the `wl_shm` format of the same layout.
    pub fn as_shm_format(&self) -> (r: ShmFormat)
        ensures
            r == self.shm_format(),
    {
        if self.drm_format == DRM_FORMAT_ARGB8888 {
            ShmFormat::Argb8888
        } else if self.drm_format == DRM_FORMAT_XRGB8888 {
            ShmFormat::Xrgb8888
        } else {
            ShmFormat::Other(self.drm_format)
        }
    }
}


/// Strictly ascending, so without repetition.
pub open spec fn ascending(s: Seq<u64>) -> bool {
    forall|i: int, j: int| 0 <= i < j < s.len() ==> s[i] < s[j]
}

/// Adds `m` to an ascending list, unless it is there already.
fn insert_modifier(set: &mut Vec<u64>, m: u64)
    requires
        ascending(old(set)@),
    ensures
        ascending(final(set)@),
        forall|x: u64| #[trigger]
            final(set)@.contains(x) <==> old(set)@.contains(x) || x == m,
{
    let ghost before = set@;
    let n: usize = set.len();
    let mut at: usize = 0;
    while at < n && set[at] < m
        invariant
            n == set@.len(),
            at <= n,
            forall|k: int| 0 <= k < at ==> set@[k] < m,
        decreases n - at,
    {
        at = at + 1;
    }
    if at < n && set[at] == m {
        assert(before.contains(m)) by {
            assert(before[at as int] == m);
        }
        return;
    }
    set.insert(at, m);
    proof {
        let after = set@;
        assert forall|x: u64| #[trigger] after.contains(x) <==> before.contains(x) || x == m by {
            if before.contains(x) {
                let i = choose|i: int| 0 <= i < before.len() && before[i] == x;
                if i < at {
                    assert(after[i] == x);
                } else {
                    assert(after[i + 1] == x);
                }
            }
            if x == m {
                assert(after[at as int] == m);
            }
            if after.contains(x) {
                let i = choose|i: int| 0 <= i < after.len() && after[i] == x;
                if i < at {
                    assert(before[i] == x);
                } else if i > at {
                    assert(before[i - 1] == x);
                }
            }
        }
    }
}

/// The modifiers to advertise for the two supported formats, given what EGL
/// reported, if it could be asked: each once, in ascending order, and always
/// with the linear one, so that software clients keep working.
pub fn egl_importable_bgra_modifiers(queried: Option<Vec<u64>>) -> (set: Vec<u64>)
    ensures
        ascending(set@),
        set@.contains(DRM_FORMAT_MOD_LINEAR),
        forall|x: u64| #[trigger]
            set@.contains(x) <==> x == DRM_FORMAT_MOD_LINEAR || (queried matches Some(q)
                && q@.contains(x)),
{
    let mut set: Vec<u64> = Vec::new();
    insert_modifier(&mut set, DRM_FORMAT_MOD_LINEAR);
    if let Some(q) = &queried {
        let n: usize = q.len();
        let mut i: usize = 0;
        while i < n
            invariant
                n == q@.len(),
                i <= n,
                ascending(set@),
                forall|x: u64| #[trigger]
                    set@.contains(x) <==> x == DRM_FORMAT_MOD_LINEAR || q@.take(
                        i as int,
                    ).contains(x),
            decreases n - i,
        {
            let m: u64 = q[i];
            let ghost before = set@;
            insert_modifier(&mut set, m);
            proof {
                let p = q@.take(i as int);
                let p1 = q@.take(i + 1);
                assert(p1 =~= p.push(m));
                assert forall|x: u64| #[trigger] set@.contains(x) <==> x == DRM_FORMAT_MOD_LINEAR
                    || p1.contains(x) by {
                    assert(before.contains(x) <==> x == DRM_FORMAT_MOD_LINEAR || p.contains(x));
                    if p.contains(x) {
                        let k = choose|k: int| 0 <= k < p.len() && p[k] == x;
                        assert(p1[k] == x);
                    }
                    if x == m {
                        assert(p1[i as int] == x);
                    }
                    if p1.contains(x) {
                        let k = choose|k: int| 0 <= k < p1.len() && p1[k] == x;
                        if k < i {
                            assert(p[k] == x);
                        }
                    }
                }
            }
            i = i + 1;
        }
        assert(q@.take(n as int) =~= q@);
    }
    assert(set@.contains(DRM_FORMAT_MOD_LINEAR));
    set
}

/// EGL's answer for one format: modifiers, each with whether it can only be
/// sampled as an external texture.
pub struct ModifierReply {
    pub modifiers: Vec<u64>,
    pub external_only: Vec<u32>,
    /// How many entries the driver filled in.
    pub count: usize,
}

/// The modifiers among the first `n` entries that an ordinary texture can
/// sample.
pub open spec fn sampleable(reply: ModifierReply, n: int) -> Seq<u64>
    decreases n,
{
    if n <= 0 {
        Seq::empty()
    } else if reply.external_only@[n - 1] == 0 {
        sampleable(reply, n - 1).push(reply.modifiers@[n - 1])
    } else {
        sampleable(reply, n - 1)
    }
}

/// Appends the modifiers of one reply that an ordinary texture can sample.
pub fn collect_sampleable(out: &mut Vec<u64>, reply: &ModifierReply)
    requires
        reply.count <= reply.modifiers@.len(),
        reply.count <= reply.external_only@.len(),
    ensures
        final(out)@ == old(out)@ + sampleable(*reply, reply.count as int),
{
    let ghost before = out@;
    let n: usize = reply.count;
    let mut i: usize = 0;
    assert(out@ =~= before + sampleable(*reply, 0));
    while i < n
        invariant
            n == reply.count,
            n <= reply.modifiers@.len(),
            n <= reply.external_only@.len(),
            i <= n,
            out@ == before + sampleable(*reply, i as int),
        decreases n - i,
    {
        if reply.external_only[i] == 0 {
            out.push(reply.modifiers[i]);
        }
        i = i + 1;
        assert(out@ =~= before + sampleable(*reply, i as int));
    }
}

/// One entry of the format table: fourcc, padding, modifier.
pub open spec fn table_entry(fourcc: u32, modifier: u64) -> Seq<u8> {
    le32(fourcc) + le32(0) + le64(modifier)
}

/// The table's part for one format: an entry for each of the first `n`
/// modifiers.
pub open spec fn table_part(fourcc: u32, mods: Seq<u64>, n: int) -> Seq<u8>
    decreases n,
{
    if n <= 0 {
        Seq::empty()
    } else {
        table_part(fourcc, mods, n - 1) + table_entry(fourcc, mods[n - 1])
    }
}

/// The whole table: every modifier with the alpha format, then with the opaque
/// one.
pub open spec fn format_table(mods: Seq<u64>) -> Seq<u8> {
    table_part(DRM_FORMAT_ARGB8888, mods, mods.len() as int) + table_part(
        DRM_FORMAT_XRGB8888,
        mods,
        mods.len() as int,
    )
}

fn put_table_part(table: &mut Vec<u8>, fourcc: u32, mods: &[u64])
    ensures
        final(table)@ == old(table)@ + table_part(fourcc, mods@, mods@.len() as int),
{
    let ghost before = table@;
    let n: usize = mods.len();
    let mut i: usize = 0;
    assert(table@ =~= before + table_part(fourcc, mods@, 0));
    while i < n
        invariant
            n == mods@.len(),
            i <= n,
            table@ == before + table_part(fourcc, mods@, i as int),
        decreases n - i,
    {
        let ghost sofar = table@;
        put_le32(table, fourcc);
        put_le32(table, 0);
        put_le64(table, mods[i]);
        i = i + 1;
        assert(table@ =~= sofar + table_entry(fourcc, mods@[i - 1]));
        assert(table@ =~= before + table_part(fourcc, mods@, i as int));
    }
}

/// Builds the format table that dmabuf feedback shares with clients.
pub fn make_dmabuf_format_table(mods: &[u64]) -> (table: Vec<u8>)
    ensures
        table@ == format_table(mods@),
        table@.len() == 2 * mods@.len() * 16,
{
    let mut table: Vec<u8> = Vec::new();
    put_table_part(&mut table, DRM_FORMAT_ARGB8888, mods);
    put_table_part(&mut table, DRM_FORMAT_XRGB8888, mods);
    proof {
        assert(table@ =~= format_table(mods@));
        lemma_part_length(DRM_FORMAT_ARGB8888, mods@, mods@.len() as int);
        lemma_part_length(DRM_FORMAT_XRGB8888, mods@, mods@.len() as int);
    }
    table
}

proof fn lemma_part_length(fourcc: u32, mods: Seq<u64>, n: int)
    requires
        n >= 0,
    ensures
        table_part(fourcc, mods, n).len() == n * 16,
    decreases n,
{
    if n > 0 {
        lemma_part_length(fourcc, mods, n - 1);
    }
}

/// Entry `i` of the format table stands for format `i / mods.len()` and
/// modifier `i % mods.len()`: there is one entry for each pair.
pub proof fn table_has_one_entry_per_pair(mods: Seq<u64>, f: int, m: int)
    requires
        0 <= f < 2,
        0 <= m < mods.len(),
    ensures
        ({
            let at = (f * mods.len() + m) * 16;
            format_table(mods).subrange(at, at + 16) == table_entry(
                if f == 0 {
                    DRM_FORMAT_ARGB8888
                } else {
                    DRM_FORMAT_XRGB8888
                },
                mods[m],
            )
        }),
{
    let n = mods.len() as int;
    lemma_part_length(DRM_FORMAT_ARGB8888, mods, n);
    lemma_part_length(DRM_FORMAT_XRGB8888, mods, n);
    lemma_part_entry(DRM_FORMAT_ARGB8888, mods, n, m);
    lemma_part_entry(DRM_FORMAT_XRGB8888, mods, n, m);
    let table = format_table(mods);
    let first = table_part(DRM_FORMAT_ARGB8888, mods, n);
    let second = table_part(DRM_FORMAT_XRGB8888, mods, n);
    assert((f * n + m) * 16 == f * n * 16 + m * 16) by (nonlinear_arith);
    if f == 0 {
        assert(table.subrange(m * 16, m * 16 + 16) =~= first.subrange(m * 16, m * 16 + 16));
    } else {
        assert(f * n == n) by (nonlinear_arith)
            requires
                f == 1,
        ;
        assert(table.subrange(n * 16 + m * 16, n * 16 + m * 16 + 16) =~= second.subrange(
            m * 16,
            m * 16 + 16,
        ));
    }
}

proof fn lemma_part_entry(fourcc: u32, mods: Seq<u64>, n: int, m: int)
    requires
        0 <= m < n <= mods.len(),
    ensures
        table_part(fourcc, mods, n).len() == n * 16,
        table_part(fourcc, mods, n).subrange(m * 16, m * 16 + 16) == table_entry(fourcc, mods[m]),
    decreases n,
{
    lemma_part_length(fourcc, mods, n);
    lemma_part_length(fourcc, mods, n - 1);
    let shorter = table_part(fourcc, mods, n - 1);
    let part = table_part(fourcc, mods, n);
    if m == n - 1 {
        assert(part.subrange(m * 16, m * 16 + 16) =~= table_entry(fourcc, mods[m]));
    } else {
        lemma_part_entry(fourcc, mods, n - 1, m);
        assert(part.subrange(m * 16, m * 16 + 16) =~= shorter.subrange(m * 16, m * 16 + 16));
    }
}

/// The first `n` table indices, as the feedback's tranche lists them.
pub open spec fn index_list(n: int) -> Seq<u8>
    decreases n,
{
    if n <= 0 {
        Seq::empty()
    } else {
        index_list(n - 1) + le16((n - 1) as u16)
    }
}

/// Indices of every entry of the table for `mods` modifiers.
pub fn tranche_indices(mods: usize) -> (r: Vec<u8>)
    requires
        2 * mods <= u16::MAX,
    ensures
        r@ == index_list(2 * mods as int),
{
    let n: u16 = (2 * mods) as u16;
    let mut r: Vec<u8> = Vec::new();
    let mut i: u16 = 0;
    while i < n
        invariant
            i <= n,
            r@ == index_list(i as int),
        decreases n - i,
    {
        put_le16(&mut r, i);
        i = i + 1;
    }
    r
}

/// An event that announces a format on the dmabuf global.
#[derive(Clone, Copy, Debug, PartialEq, Eq, Structural)]
pub enum FormatEvent {
    Format { fourcc: u32 },
    Modifier { fourcc: u32, hi: u32, lo: u32 },
}

/// The modifier events for the first `n` modifiers of a format.
pub open spec fn modifier_events(fourcc: u32, mods: Seq<u64>, n: int) -> Seq<FormatEvent> {
    Seq::new(
        n as nat,
        |i: int|
            FormatEvent::Modifier {
                fourcc,
                hi: (mods[i] / 0x1_0000_0000) as u32,
                lo: (mods[i] % 0x1_0000_0000) as u32,
            },
    )
}

/// The events for one format at a protocol version below 4.
pub open spec fn format_events(fourcc: u32, mods: Seq<u64>, version: u32) -> Seq<FormatEvent> {
    seq![FormatEvent::Format { fourcc }] + (if version >= 3 {
        modifier_events(fourcc, mods, mods.len() as int)
    } else {
        Seq::empty()
    })
}

fn put_format_events(out: &mut Vec<FormatEvent>, fourcc: u32, mods: &[u64], version: u32)
    ensures
        final(out)@ == old(out)@ + format_events(fourcc, mods@, version),
{
    let ghost before = out@;
    out.push(FormatEvent::Format { fourcc });
    if version >= 3 {
        let n: usize = mods.len();
        let mut i: usize = 0;
        let head = Ghost(before.push(FormatEvent::Format { fourcc }));
        assert(out@ =~= head@ + modifier_events(fourcc, mods@, 0));
        while i < n
            invariant
                n == mods@.len(),
                i <= n,
                out@ == head@ + modifier_events(fourcc, mods@, i as int),
            decreases n - i,
        {
            let m: u64 = mods[i];
            out.push(
                FormatEvent::Modifier {
                    fourcc,
                    hi: (m / 0x1_0000_0000) as u32,
                    lo: (m % 0x1_0000_0000) as u32,
                },
            );
            i = i + 1;
            assert(out@ =~= head@ + modifier_events(fourcc, mods@, i as int));
        }
    }
    assert(out@ =~= before + format_events(fourcc, mods@, version));
}

/// What a client that binds the dmabuf global is told at once. From version 4
/// on formats come through the feedback object instead.
pub fn bind_events(mods: &[u64], version: u32) -> (r: Vec<FormatEvent>)
    ensures
        r@ == if version < 4 {
            format_events(DRM_FORMAT_ARGB8888, mods@, version) + format_events(
                DRM_FORMAT_XRGB8888,
                mods@,
                version,
            )
        } else {
            Seq::empty()
        },
{
    let mut r: Vec<FormatEvent> = Vec::new();
    if version < 4 {
        put_format_events(&mut r, DRM_FORMAT_ARGB8888, mods, version);
        put_format_events(&mut r, DRM_FORMAT_XRGB8888, mods, version);
    }
    r
}

/// How many DRM nodes are probed.
pub const DRM_NODES: usize = 5;

/// The DRM nodes in the order in which they are probed: the render nodes, and
/// the primary node, which stands in where there is none of them.
pub open spec fn drm_node_path_spec(index: int) -> Seq<char> {
    if index == 0 {
        "/dev/dri/renderD128"@
    } else if index == 1 {
        "/dev/dri/renderD129"@
    } else if index == 2 {
        "/dev/dri/renderD130"@
    } else if index == 3 {
        "/dev/dri/renderD134"@
    } else {
        "/dev/dri/card0"@
    }
}

/// Path of the DRM node that is probed at `index`.
pub fn drm_node_path(index: usize) -> (r: &'static str)
    requires
        index < DRM_NODES,
    ensures
        r@ == drm_node_path_spec(index as int),
{
    if index == 0 {
        "/dev/dri/renderD128"
    } else if index == 1 {
        "/dev/dri/renderD129"
    } else if index == 2 {
        "/dev/dri/renderD130"
    } else if index == 3 {
        "/dev/dri/renderD134"
    } else {
        "/dev/dri/card0"
    }
}

/// Position of the first probed node that is present, or the number of nodes
/// where none is. A present node is given by its device number.
pub open spec fn main_node(nodes: Seq<Option<u64>>) -> int {
    if nodes[0] is Some {
        0
    } else if nodes[1] is Some {
        1
    } else if nodes[2] is Some {
        2
    } else if nodes[3] is Some {
        3
    } else if nodes[4] is Some {
        4
    } else {
        DRM_NODES as int
    }
}

/// The first probed node that is present, and the primary node where none is.
pub open spec fn device_path(nodes: Seq<Option<u64>>) -> Seq<char> {
    drm_node_path_spec(main_node(nodes))
}

/// Device number of the first probed node that is present, and zero where none
/// is.
pub open spec fn main_device(nodes: Seq<Option<u64>>) -> u64 {
    if main_node(nodes) < DRM_NODES {
        nodes[main_node(nodes)]->0
    } else {
        0
    }
}

fn find_main_node(nodes: &[Option<u64>; 5]) -> (r: usize)
    ensures
        r == main_node(nodes@),
{
    let mut i: usize = 0;
    while i < DRM_NODES && nodes[i].is_none()
        invariant
            i <= DRM_NODES == nodes@.len(),
            forall|k: int| 0 <= k < i ==> nodes@[k] is None,
        decreases DRM_NODES - i,
    {
        i = i + 1;
    }
    i
}

/// The node to name to clients of the legacy device protocol: the one whose
/// number [`drm_main_device_bytes`] gives, and the primary node where none of
/// the probed ones is present.
pub fn wl_drm_device_path(nodes: [Option<u64>; 5]) -> (r: String)
    ensures
        r@ == device_path(nodes@),
{
    let i: usize = find_main_node(&nodes);
    if i < DRM_NODES {
        String::from_str(drm_node_path(i))
    } else {
        String::from_str("/dev/dri/card0")
    }
}

/// The feedback's main device: the device number of the first probed node that
/// is present, and zero where none is, least significant byte first.
pub fn drm_main_device_bytes(nodes: [Option<u64>; 5]) -> (r: Vec<u8>)
    ensures
        r@ == le64(main_device(nodes@)),
{
    let i: usize = find_main_node(&nodes);
    let dev: u64 = if i < DRM_NODES {
        match nodes[i] {
            Some(d) => d,
            None => 0,
        }
    } else {
        0
    };
    let mut r: Vec<u8> = Vec::new();
    put_le64(&mut r, dev);
    r
}

/// Wherever one of the probed nodes is present, the path that legacy clients are
/// given names the node whose device number the feedback carries, and no node
/// that is probed before it is present.
pub proof fn device_path_names_the_main_device(nodes: Seq<Option<u64>>)
    requires
        nodes.len() == DRM_NODES,
        exists|i: int| 0 <= i < DRM_NODES && nodes[i] is Some,
    ensures
        exists|i: int|
            0 <= i < DRM_NODES && (#[trigger] nodes[i]) == Some(main_device(nodes)) && device_path(
                nodes,
            ) == drm_node_path_spec(i) && forall|k: int| 0 <= k < i ==> nodes[k] is None,
{
    let i = main_node(nodes);
    assert(nodes[i] == Some(main_device(nodes)));
}

/// Without any of the probed nodes the main device is zero.
pub proof fn no_node_has_no_number(nodes: Seq<Option<u64>>)
    requires
        nodes.len() == DRM_NODES,
        forall|i: int| 0 <= i < DRM_NODES ==> nodes[i] is None,
    ensures
        main_device(nodes) == 0,
{
}

/// The pixel of a single-pixel buffer, as B, G, R, A, out of 32-bit channels.
pub fn single_pixel(r: u32, g: u32, b: u32, a: u32) -> (p: [u8; 4])
    ensures
        p@ == seq![
            (b / 0x100_0000) as u8,
            (g / 0x100_0000) as u8,
            (r / 0x100_0000) as u8,
            (a / 0x100_0000) as u8,
        ],
{
    let p: [u8; 4] = [
        (b / 0x100_0000) as u8,
        (g / 0x100_0000) as u8,
        (r / 0x100_0000) as u8,
        (a / 0x100_0000) as u8,
    ];
    p
}

/// Parameters are refused for exactly one reason, the first that applies: they
/// made a buffer before, a size that is not positive, one above 16384, a format
/// other than the two, or no plane zero. Whatever comes of it, they are used up.
pub proof fn parameters_are_refused_for_the_first_reason(
    width: i32,
    height: i32,
    format: u32,
    r: Result<DmabufBufferData, ParamsError>,
)
    ensures
        forall|m: &mut ParamsState|
            #[trigger] call_ensures(
                ParamsState::finalize_params,
                (m, width, height, format),
                r,
            ) ==> {
                let sized = 0 < width <= 16384 && 0 < height <= 16384;
                let known = format == 0x3432_5241 || format == 0x3432_5258;
                let rooted = exists|i: int| 0 <= i < m.planes@.len() && (#[trigger] m.planes@[i]).0
                    == 0;
                &&& final(m).used
                &&& r is Ok <==> !m.used && sized && known && rooted
                &&& m.used ==> r == Err::<DmabufBufferData, ParamsError>(ParamsError::AlreadyUsed)
                &&& !m.used && (width <= 0 || height <= 0) ==> r == Err::<
                    DmabufBufferData,
                    ParamsError,
                >(ParamsError::BadDimensions { width, height })
                &&& !m.used && width > 0 && height > 0 && !sized ==> r == Err::<
                    DmabufBufferData,
                    ParamsError,
                >(ParamsError::TooLarge { width, height })
                &&& !m.used && sized && !known ==> r == Err::<DmabufBufferData, ParamsError>(
                    ParamsError::UnsupportedFormat { format },
                )
                &&& !m.used && sized && known && !rooted ==> r == Err::<
                    DmabufBufferData,
                    ParamsError,
                >(ParamsError::NoPlaneZero)
            },
{
    assert forall|m: &mut ParamsState| #[trigger]
        call_ensures(ParamsState::finalize_params, (m, width, height, format), r) implies (
    with_index(m.planes@, 0).len() > 0 <==> exists|i: int|
        0 <= i < m.planes@.len() && (#[trigger] m.planes@[i]).0 == 0) by {
        lemma_first_with_index(m.planes@, 0);
        if with_index(m.planes@, 0).len() == 0 {
            lemma_none_with_index(m.planes@, 0);
        } else {
            lemma_filter_some(m.planes@, 0);
        }
    }
}

proof fn lemma_none_with_index(s: Seq<(u32, Plane)>, k: u32)
    requires
        with_index(s, k).len() == 0,
    ensures
        forall|i: int| 0 <= i < s.len() ==> (#[trigger] s[i]).0 != k,
    decreases s.len(),
{
    if s.len() > 0 {
        lemma_filter_last(s, k);
        lemma_none_with_index(s.drop_last(), k);
        assert forall|i: int| 0 <= i < s.len() implies (#[trigger] s[i]).0 != k by {
            if i < s.len() - 1 {
                assert(s[i] == s.drop_last()[i]);
            }
        }
    }
}

/// Whether `i` is the position of the first entry with index `k`.
pub open spec fn first_with_index(s: Seq<(u32, Plane)>, k: u32, i: int) -> bool {
    &&& 0 <= i < s.len()
    &&& s[i].0 == k
    &&& forall|j: int| 0 <= j < i ==> (#[trigger] s[j]).0 != k
}

proof fn lemma_first_with_index(s: Seq<(u32, Plane)>, k: u32)
    ensures
        with_index(s, k).len() > 0 ==> exists|i: int| #[trigger]
            first_with_index(s, k, i) && s[i] == with_index(s, k)[0],
    decreases s.len(),
{
    if s.len() > 0 {
        let front = s.drop_last();
        lemma_filter_last(s, k);
        lemma_first_with_index(front, k);
        if with_index(front, k).len() > 0 {
            let i = choose|i: int| #[trigger]
                first_with_index(front, k, i) && front[i] == with_index(front, k)[0];
            assert forall|j: int| 0 <= j < i implies (#[trigger] s[j]).0 != k by {
                assert(s[j] == front[j]);
            }
            assert(first_with_index(s, k, i) && s[i] == with_index(s, k)[0]);
        } else if s.last().0 == k {
            let i = s.len() - 1;
            lemma_none_with_index(front, k);
            assert forall|j: int| 0 <= j < i implies (#[trigger] s[j]).0 != k by {
                assert(s[j] == front[j]);
            }
            assert(first_with_index(s, k, i) && s[i] == with_index(s, k)[0]);
        }
    } else {
        reveal(Seq::filter);
    }
}

/// A buffer is of the size and format that were asked for, and its descriptor,
/// offset, stride and modifier are those of the plane zero that was added first;
/// every other plane is one of its further planes.
pub proof fn buffers_are_made_of_their_planes(
    width: i32,
    height: i32,
    format: u32,
    d: DmabufBufferData,
)
    ensures
        forall|m: &mut ParamsState|
            #[trigger] call_ensures(
                ParamsState::finalize_params,
                (m, width, height, format),
                Ok::<DmabufBufferData, ParamsError>(d),
            ) ==> {
                &&& d.width == width
                &&& d.height == height
                &&& d.drm_format == format
                &&& d.extra_planes@.len() + 1 == m.planes@.len()
                &&& exists|i: int| #[trigger]
                    first_with_index(m.planes@, 0, i) && d.fd == m.planes@[i].1.fd && d.offset
                        == m.planes@[i].1.offset && d.stride == m.planes@[i].1.stride && d.modifier
                        == m.planes@[i].1.modifier
            },
{
    assert forall|m: &mut ParamsState| #[trigger]
        call_ensures(
            ParamsState::finalize_params,
            (m, width, height, format),
            Ok::<DmabufBufferData, ParamsError>(d),
        ) implies exists|i: int| #[trigger]
        first_with_index(m.planes@, 0, i) && d.fd == m.planes@[i].1.fd && d.offset
            == m.planes@[i].1.offset && d.stride == m.planes@[i].1.stride && d.modifier
            == m.planes@[i].1.modifier by {
        let given = m.planes@;
        let sorted = choose|sorted: Seq<(u32, Plane)>| #[trigger]
            stably_sorted(given, sorted) && d.made_of(plane_list(sorted), width, height, format);
        lemma_first_is_plane_zero(given, sorted);
        lemma_first_with_index(given, 0);
        let i = choose|i: int| #[trigger]
            first_with_index(given, 0, i) && given[i] == with_index(given, 0)[0];
        assert(plane_list(sorted)[0] == sorted[0].1);
        assert(first_with_index(given, 0, i));
    }
}

/// Two planes make the same buffer in whichever order they were added: plane zero
/// first, the other behind it.
pub proof fn planes_may_come_in_any_order(
    zero: Plane,
    other: Plane,
    k: u32,
    width: i32,
    height: i32,
    format: u32,
    d: DmabufBufferData,
)
    requires
        k > 0,
    ensures
        forall|m: &mut ParamsState|
            (m.planes@ == seq![(0u32, zero), (k, other)] || m.planes@ == seq![
                (k, other),
                (0u32, zero),
            ]) && #[trigger] call_ensures(
                ParamsState::finalize_params,
                (m, width, height, format),
                Ok::<DmabufBufferData, ParamsError>(d),
            ) ==> d.fd == zero.fd && d.modifier == zero.modifier && d.extra_planes@.len() == 1
                && d.extra_planes@[0].fd == other.fd && d.extra_planes@[0].offset == other.offset
                && d.extra_planes@[0].stride == other.stride,
{
    let want = seq![(0u32, zero), (k, other)];
    let back = seq![(k, other), (0u32, zero)];
    assert(stably_sorted(want, want));
    assert(stably_sorted(back, want)) by {
        assert forall|j: u32| #[trigger] with_index(want, j) == with_index(back, j) by {
            lemma_filter_last(want, j);
            lemma_filter_last(back, j);
            lemma_filter_one((0u32, zero), j);
            lemma_filter_one((k, other), j);
            assert(want.drop_last() =~= seq![(0u32, zero)]);
            assert(back.drop_last() =~= seq![(k, other)]);
            assert(with_index(want, j) =~= with_index(back, j));
        }
    }
    assert forall|m: &mut ParamsState|
        (m.planes@ == want || m.planes@ == back) && #[trigger] call_ensures(
            ParamsState::finalize_params,
            (m, width, height, format),
            Ok::<DmabufBufferData, ParamsError>(d),
        ) implies d.fd == zero.fd && d.modifier == zero.modifier && d.extra_planes@.len() == 1
        && d.extra_planes@[0].fd == other.fd && d.extra_planes@[0].offset == other.offset
        && d.extra_planes@[0].stride == other.stride by {
        let given = m.planes@;
        let sorted = choose|sorted: Seq<(u32, Plane)>| #[trigger]
            stably_sorted(given, sorted) && d.made_of(plane_list(sorted), width, height, format);
        stable_order_is_unique(given, sorted, want);
        let list = plane_list(sorted);
        assert(list.len() == 2 && list[0] == zero && list[1] == other);
        assert(list.skip(1)[0] == other);
    }
}

/// A plane is added as it was given, under its index and with both halves of its
/// modifier, behind the planes that are there; parameters that are used up take no
/// plane.
pub proof fn planes_are_added_as_given(
    plane_idx: u32,
    fd: i32,
    offset: u32,
    stride: u32,
    hi: u32,
    lo: u32,
    r: Result<(), ParamsError>,
)
    ensures
        forall|m: &mut ParamsState|
            #[trigger] call_ensures(
                ParamsState::add_plane,
                (m, plane_idx, fd, offset, stride, hi, lo),
                r,
            ) ==> {
                &&& r is Ok <==> !m.used
                &&& m.used ==> final(m).planes@ == m.planes@
                &&& !m.used ==> {
                    let (k, p) = final(m).planes@.last();
                    &&& final(m).planes@.drop_last() == m.planes@
                    &&& k == plane_idx
                    &&& p.fd == fd
                    &&& p.offset == offset
                    &&& p.stride == stride
                    &&& p.modifier as int / 0x1_0000_0000 == hi
                    &&& p.modifier as int % 0x1_0000_0000 == lo
                }
            },
{
}

/// A buffer's format is the one of the same byte layout, and any other code keeps
/// its number.
pub proof fn formats_keep_their_layout(d: DmabufBufferData, r: ShmFormat)
    requires
        call_ensures(DmabufBufferData::as_shm_format, (&d,), r),
    ensures
        r == ShmFormat::Argb8888 <==> d.drm_format == 0x3432_5241,
        r == ShmFormat::Xrgb8888 <==> d.drm_format == 0x3432_5258,
        r matches ShmFormat::Other(code) ==> code == d.drm_format,
{
}

/// The advertised modifiers are those that were found and the linear one, each
/// once and in ascending order.
pub proof fn advertised_modifiers_are_those_found(queried: Option<Vec<u64>>, r: Vec<u64>, x: u64)
    requires
        call_ensures(egl_importable_bgra_modifiers, (queried,), r),
    ensures
        r@.contains(x) <==> x == 0 || queried is Some && queried->0@.contains(x),
        r@.len() > 0 && r@[0] == 0,
        forall|i: int, j: int| 0 <= i < j < r@.len() ==> r@[i] < r@[j],
{
    assert(r@.contains(0));
    let i = choose|i: int| 0 <= i < r@.len() && r@[i] == 0;
    if i > 0 {
        assert(r@[0] < r@[i]);
    }
}

/// A modifier is taken from a reply exactly where it stands among the entries that
/// were filled in and is not for external textures alone.
pub proof fn sampleable_modifiers_are_not_external(reply: ModifierReply, n: int, x: u64)
    requires
        0 <= n <= reply.modifiers@.len(),
        n <= reply.external_only@.len(),
    ensures
        sampleable(reply, n).contains(x) <==> exists|i: int|
            0 <= i < n && (#[trigger] reply.modifiers@[i]) == x && reply.external_only@[i] == 0,
    decreases n,
{
    let s = sampleable(reply, n);
    if n > 0 {
        let front = sampleable(reply, n - 1);
        sampleable_modifiers_are_not_external(reply, n - 1, x);
        let last = reply.modifiers@[n - 1];
        if reply.external_only@[n - 1] == 0 {
            if s.contains(x) {
                let k = choose|k: int| 0 <= k < s.len() && s[k] == x;
                if k < front.len() {
                    assert(front[k] == x);
                    assert(front.contains(x));
                } else {
                    assert(reply.modifiers@[n - 1] == x);
                }
            }
            if last == x {
                assert(s.last() == x);
            }
            if front.contains(x) {
                let k = choose|k: int| 0 <= k < front.len() && front[k] == x;
                assert(s[k] == x);
            }
        }
    }
}

/// The order of the modifiers in a reply is kept.
pub proof fn sampleable_modifiers_keep_their_order(reply: ModifierReply, n: int)
    requires
        0 <= n <= reply.modifiers@.len(),
        forall|i: int| 0 <= i < n ==> (#[trigger] reply.external_only@[i]) == 0,
    ensures
        sampleable(reply, n) == reply.modifiers@.take(n),
    decreases n,
{
    if n > 0 {
        sampleable_modifiers_keep_their_order(reply, n - 1);
        assert(reply.modifiers@.take(n) =~= reply.modifiers@.take(n - 1).push(
            reply.modifiers@[n - 1],
        ));
    } else {
        assert(reply.modifiers@.take(n) =~= Seq::empty());
    }
}

/// Each entry of the format table is sixteen bytes: the letters of the format,
/// four zeros and the modifier's eight bytes, the least significant first. The
/// first half is for the format with alpha, the second for the one without.
pub proof fn table_entries_spell_their_format(
    mods: &[u64],
    table: Vec<u8>,
    f: int,
    m: int,
)
    requires
        call_ensures(make_dmabuf_format_table, (mods,), table),
        0 <= f < 2,
        0 <= m < mods@.len(),
    ensures
        table@.len() == 32 * mods@.len(),
        ({
            let at = (f * mods@.len() + m) * 16;
            let x = mods@[m] as int;
            &&& table@[at] == if f == 0 {
                0x41u8
            } else {
                0x58u8
            }
            &&& table@[at + 1] == 0x52 && table@[at + 2] == 0x32 && table@[at + 3] == 0x34
            &&& table@[at + 4] == 0 && table@[at + 5] == 0 && table@[at + 6] == 0 && table@[at + 7]
                == 0
            &&& table@[at + 8] == x % 0x100
            &&& table@[at + 9] == x / 0x100 % 0x100
            &&& table@[at + 10] == x / 0x1_0000 % 0x100
            &&& table@[at + 11] == x / 0x100_0000 % 0x100
            &&& table@[at + 12] == x / 0x1_0000_0000 % 0x100
            &&& table@[at + 13] == x / 0x100_0000_0000 % 0x100
            &&& table@[at + 14] == x / 0x1_0000_0000_0000 % 0x100
            &&& table@[at + 15] == x / 0x100_0000_0000_0000
        }),
{
    table_has_one_entry_per_pair(mods@, f, m);
    let n = mods@.len() as int;
    let at = (f * n + m) * 16;
    assert(0 <= at && at + 16 <= table@.len()) by (nonlinear_arith)
        requires
            at == (f * n + m) * 16,
            0 <= f < 2,
            0 <= m < n,
            table@.len() == 2 * n * 16,
    ;
    let fourcc = if f == 0 {
        DRM_FORMAT_ARGB8888
    } else {
        DRM_FORMAT_XRGB8888
    };
    let entry = table_entry(fourcc, mods@[m]);
    let cut = table@.subrange(at, at + 16);
    assert(entry.len() == 16);
    assert forall|k: int| 0 <= k < 16 implies #[trigger] table@[at + k] == entry[k] by {
        assert(cut[k] == table@[at + k]);
    }
    assert(table@[at + 0] == entry[0]);
    crate::bytes::le64_spells_every_byte(mods@[m]);
    assert(forall|k: int| 0 <= k < 8 ==> #[trigger] entry[8 + k] == le64(mods@[m])[k]);
    assert(entry[8] == le64(mods@[m])[0] && entry[9] == le64(mods@[m])[1] && entry[10] == le64(
        mods@[m],
    )[2] && entry[11] == le64(mods@[m])[3] && entry[12] == le64(mods@[m])[4] && entry[13] == le64(
        mods@[m],
    )[5] && entry[14] == le64(mods@[m])[6] && entry[15] == le64(mods@[m])[7]);
}

/// The feedback's tranche lists every index of the table once and in order, two
/// bytes for each, the least significant first.
pub proof fn tranches_list_every_index(mods: usize, r: Vec<u8>, i: int)
    requires
        2 * mods <= u16::MAX,
        call_ensures(tranche_indices, (mods,), r),
        0 <= i < 2 * mods,
    ensures
        r@.len() == 4 * mods,
        r@[2 * i] == i % 0x100,
        r@[2 * i + 1] == i / 0x100,
{
    lemma_index_list(2 * mods as int, i);
}

proof fn lemma_index_list(n: int, i: int)
    requires
        0 <= i < n <= u16::MAX,
    ensures
        index_list(n).len() == 2 * n,
        index_list(n)[2 * i] == i % 0x100,
        index_list(n)[2 * i + 1] == i / 0x100,
    decreases n,
{
    lemma_index_length(n - 1);
    if i < n - 1 {
        lemma_index_list(n - 1, i);
    }
}

proof fn lemma_index_length(n: int)
    requires
        0 <= n,
    ensures
        index_list(n).len() == 2 * n,
    decreases n,
{
    if n > 0 {
        lemma_index_length(n - 1);
    }
}

/// Before the fourth version a client is told both formats, from the third on each
/// with all its modifiers in two halves; from the fourth version on it is told
/// nothing at once.
pub proof fn binding_tells_formats_by_version(
    mods: &[u64],
    version: u32,
    r: Vec<FormatEvent>,
    i: int,
)
    requires
        call_ensures(bind_events, (mods, version), r),
        0 <= i < mods@.len(),
    ensures
        version >= 4 ==> r@.len() == 0,
        version < 3 ==> r@ == seq![
            FormatEvent::Format { fourcc: 0x3432_5241 },
            FormatEvent::Format { fourcc: 0x3432_5258 },
        ],
        version == 3 ==> {
            let n = mods@.len() as int;
            &&& r@.len() == 2 * n + 2
            &&& r@[0] == (FormatEvent::Format { fourcc: 0x3432_5241 })
            &&& r@[n + 1] == (FormatEvent::Format { fourcc: 0x3432_5258 })
            &&& r@[1 + i] matches FormatEvent::Modifier { fourcc, hi, lo } && fourcc == 0x3432_5241
                && hi * 0x1_0000_0000 + lo == mods@[i]
            &&& r@[n + 2 + i] matches FormatEvent::Modifier { fourcc, hi, lo } && fourcc
                == 0x3432_5258 && hi * 0x1_0000_0000 + lo == mods@[i]
        },
{
    if version == 3 {
        let n = mods@.len() as int;
        let a = modifier_events(DRM_FORMAT_ARGB8888, mods@, n);
        let b = modifier_events(DRM_FORMAT_XRGB8888, mods@, n);
        assert(r@[1 + i] == a[i]);
        assert(r@[n + 2 + i] == b[i]);
    } else if version < 3 {
        assert(r@ =~= seq![
            FormatEvent::Format { fourcc: 0x3432_5241 },
            FormatEvent::Format { fourcc: 0x3432_5258 },
        ]);
    }
}

/// The nodes are probed from the first render node on, the primary node last.
pub proof fn render_nodes_are_probed_first(i: usize, r: &'static str)
    requires
        i < 5,
        call_ensures(drm_node_path, (i,), r),
    ensures
        i == 0 ==> r@ == "/dev/dri/renderD128"@,
        i == 1 ==> r@ == "/dev/dri/renderD129"@,
        i == 2 ==> r@ == "/dev/dri/renderD130"@,
        i == 3 ==> r@ == "/dev/dri/renderD134"@,
        i == 4 ==> r@ == "/dev/dri/card0"@,
{
}

/// The pixel of a single-pixel buffer keeps the highest byte of each channel, blue
/// first and alpha last.
pub proof fn single_pixels_keep_the_highest_bytes(r: u32, g: u32, b: u32, a: u32, p: [u8; 4])
    requires
        call_ensures(single_pixel, (r, g, b, a), p),
    ensures
        p@[0] * 0x100_0000 <= b < (p@[0] + 1) * 0x100_0000,
        p@[1] * 0x100_0000 <= g < (p@[1] + 1) * 0x100_0000,
        p@[2] * 0x100_0000 <= r < (p@[2] + 1) * 0x100_0000,
        p@[3] * 0x100_0000 <= a < (p@[3] + 1) * 0x100_0000,
{
}

/// The path that legacy clients are given and the device number of the feedback are
/// those of the first node that is present.
pub proof fn the_first_present_node_is_named(
    nodes: [Option<u64>; 5],
    path: String,
    bytes: Vec<u8>,
    i: int,
)
    requires
        call_ensures(wl_drm_device_path, (nodes,), path),
        call_ensures(drm_main_device_bytes, (nodes,), bytes),
        0 <= i < 5,
        nodes@[i] is Some,
        forall|k: int| 0 <= k < i ==> (#[trigger] nodes@[k]) is None,
    ensures
        path@ == drm_node_path_spec(i),
        bytes@ == le64(nodes@[i]->0),
{
    assert(nodes@[0] is Some || i > 0);
    assert(nodes@[1] is Some || i != 1);
    assert(nodes@[2] is Some || i != 2);
    assert(nodes@[3] is Some || i != 3);
    assert(nodes@[4] is Some || i != 4);
}

/// A modifier's two words are its low and its high half: neither loses a bit.
pub proof fn modifier_words_are_the_halves(modifier: u64, r: (i32, i32))
    requires
        call_ensures(modifier_words, (modifier,), r),
    ensures
        (r.0 as u32) as int == modifier as int % 0x1_0000_0000,
        (r.1 as u32) as int == modifier as int / 0x1_0000_0000,
{
    assert((((modifier & 0xFFFF_FFFF) as i32) as u32) == modifier % 0x1_0000_0000) by (bit_vector);
    assert((((modifier >> 32) as i32) as u32) == modifier / 0x1_0000_0000) by (bit_vector);
}

/// What clients read of refused parameters: width before height, and the format in
/// hexadecimal.
pub proof fn refusals_name_what_was_asked(
    width: i32,
    height: i32,
    format: u32,
    used: String,
    bad: String,
    large: String,
    unsupported: String,
    missing: String,
)
    requires
        call_ensures(ParamsError::message, (&ParamsError::AlreadyUsed,), used),
        call_ensures(ParamsError::message, (&ParamsError::BadDimensions { width, height },), bad),
        call_ensures(ParamsError::message, (&ParamsError::TooLarge { width, height },), large),
        call_ensures(ParamsError::message, (&ParamsError::UnsupportedFormat { format },), unsupported),
        call_ensures(ParamsError::message, (&ParamsError::NoPlaneZero,), missing),
    ensures
        used@ == "params already used"@,
        bad@ == "bad dimensions "@ + decimal(width as int) + "x"@ + decimal(height as int),
        large@ == "dmabuf dimensions "@ + decimal(width as int) + "x"@ + decimal(height as int)
            + " exceed max 16384x16384"@,
        unsupported@ == "unsupported format "@ + ("0x"@ + numeral(format as nat, 16)),
        missing@ == "no plane 0 supplied"@,
{
}

/// A buffer keeps its first plane itself and the others behind it in their order;
/// parameters start without planes and unused.
pub proof fn buffers_keep_their_planes_in_order(
    planes: Vec<Plane>,
    width: i32,
    height: i32,
    drm_format: u32,
    r: DmabufBufferData,
    params: ParamsState,
    i: int,
)
    requires
        0 < i < planes@.len(),
        call_ensures(DmabufBufferData::new, (planes, width, height, drm_format), r),
        call_ensures(ParamsState::new, (), params),
    ensures
        r.width == width && r.height == height && r.drm_format == drm_format,
        r.fd == planes@[0].fd && r.offset == planes@[0].offset && r.stride == planes@[0].stride
            && r.modifier == planes@[0].modifier,
        r.extra_planes@.len() == planes@.len() - 1,
        r.extra_planes@[i - 1].fd == planes@[i].fd,
        r.extra_planes@[i - 1].offset == planes@[i].offset,
        r.extra_planes@[i - 1].stride == planes@[i].stride,
        params.planes@.len() == 0 && !params.used,
{
}

/// Sampleable modifiers are collected behind those collected before, and there are
/// as many as the reply has modifiers that are not external; one that is external
/// is passed over.
pub proof fn collected_modifiers_stand_behind(reply: ModifierReply, last: int)
    requires
        reply.count <= reply.modifiers@.len(),
        reply.count <= reply.external_only@.len(),
        last == reply.count - 1,
    ensures
        forall|m: &mut Vec<u64>|
            #[trigger] call_ensures(collect_sampleable, (m, &reply), ()) ==> {
                &&& final(m)@.len() >= m@.len()
                &&& final(m)@.take(m@.len() as int) == m@
                &&& reply.count == 0 ==> final(m)@ == m@
                &&& last >= 0 && reply.external_only@[last] == 0 ==> final(m)@.len() > m@.len()
                    && final(m)@.last() == reply.modifiers@[last]
                &&& last >= 0 && reply.external_only@[last] != 0 ==> final(m)@ == m@ + sampleable(
                    reply,
                    last,
                )
            },
{
    assert forall|m: &mut Vec<u64>| #[trigger] call_ensures(
        collect_sampleable,
        (m, &reply),
        (),
    ) implies final(m)@.take(m@.len() as int) == m@ by {
        assert(final(m)@.take(m@.len() as int) =~= m@);
    }
}

} // verus!
