//! Where recordings may be written.
//!
//! A path is taken apart at its slashes. Empty parts and parts that are a
//! single dot name nothing and do not count; what is left are its components.

use vstd::prelude::*;
use vstd::string::*;

use crate::text::chars_of;

verus! {

/// Whether the path starts at the root.
pub open spec fn is_absolute(p: Seq<char>) -> bool {
    p.len() > 0 && p[0] == '/'
}

/// Whether a component that is two dots starts at `i`.
pub open spec fn parent_dir_at(p: Seq<char>, i: int) -> bool {
    &&& 0 <= i < p.len() - 1
    &&& p[i] == '.'
    &&& p[i + 1] == '.'
    &&& (i == 0 || p[i - 1] == '/')
    &&& (i + 2 == p.len() || p[i + 2] == '/')
}

/// Whether some component leads to the parent directory.
pub open spec fn has_parent_dir(p: Seq<char>) -> bool {
    exists|i: int| parent_dir_at(p, i)
}

/// Length of the path without the separators and single dots at its end: where
/// its last component ends, and zero where it has none.
pub open spec fn last_end(p: Seq<char>) -> int
    decreases p.len(),
{
    if p.len() == 0 {
        0
    } else if p.last() == '/' {
        last_end(p.drop_last())
    } else if p.last() == '.' && (p.len() == 1 || p[p.len() - 2] == '/') {
        last_end(p.drop_last())
    } else {
        p.len() as int
    }
}

/// Where the part that ends at `e` starts.
pub open spec fn part_start(p: Seq<char>, e: int) -> int
    decreases e,
{
    if e <= 0 || p[e - 1] == '/' {
        e
    } else {
        part_start(p, e - 1)
    }
}

/// The components of an absolute path, in order.
pub open spec fn components(p: Seq<char>) -> Seq<Seq<char>>
    decreases p.len(),
{
    let e = last_end(p);
    let s = part_start(p, e);
    if 0 <= s < e <= p.len() {
        components(p.take(s)).push(p.subrange(s, e))
    } else {
        Seq::empty()
    }
}

/// Whether the path `p` is `base`, which is absolute, or lies below it, component
/// by component. Every path lies below an empty one, and none below a relative
/// one.
pub open spec fn lies_inside(p: Seq<char>, base: Seq<char>) -> bool {
    base.len() == 0 || (is_absolute(base) && is_absolute(p) && components(base).is_prefix_of(
        components(p),
    ))
}

proof fn lemma_last_end(p: Seq<char>)
    ensures
        0 <= last_end(p) <= p.len(),
        last_end(p) > 0 ==> p[last_end(p) - 1] != '/',
        0 < last_end(p) < p.len() ==> p[last_end(p)] == '/',
    decreases p.len(),
{
    if p.len() > 0 {
        let q = p.drop_last();
        lemma_last_end(q);
        let e = last_end(q);
        if e > 0 {
            assert(q[e - 1] == p[e - 1]);
            if e < q.len() {
                assert(q[e] == p[e]);
            } else if p.last() == '.' && p.len() > 1 {
                assert(q.last() == p[p.len() - 2]);
            }
        }
    }
}

proof fn lemma_part_start(p: Seq<char>, e: int)
    requires
        0 <= e <= p.len(),
    ensures
        0 <= part_start(p, e) <= e,
        e > 0 && p[e - 1] != '/' ==> part_start(p, e) < e,
        part_start(p, e) > 0 ==> p[part_start(p, e) - 1] == '/',
        forall|i: int| part_start(p, e) <= i < e ==> #[trigger] p[i] != '/',
    decreases e,
{
    if e > 0 && p[e - 1] != '/' {
        lemma_part_start(p, e - 1);
    }
}

/// Where the last component of `p[..n]` ends.
fn find_last_end(p: &Vec<char>, n: usize) -> (r: usize)
    requires
        n <= p@.len(),
    ensures
        r == last_end(p@.take(n as int)),
        r <= n,
{
    let mut e: usize = n;
    while e > 0 && (p[e - 1] == '/' || (p[e - 1] == '.' && (e == 1 || p[e - 2] == '/')))
        invariant
            e <= n <= p@.len(),
            last_end(p@.take(e as int)) == last_end(p@.take(n as int)),
        decreases e,
    {
        assert(p@.take(e as int).drop_last() =~= p@.take(e - 1));
        assert(p@.take(e as int).last() == p@[e - 1]);
        e = e - 1;
    }
    if e > 0 {
        assert(p@.take(e as int).last() == p@[e - 1]);
    }
    e
}

/// Where the part of `p` that ends at `e` starts.
fn find_part_start(p: &Vec<char>, e: usize) -> (r: usize)
    requires
        e <= p@.len(),
    ensures
        r == part_start(p@, e as int),
        r <= e,
{
    let mut s: usize = e;
    while s > 0 && p[s - 1] != '/'
        invariant
            s <= e <= p@.len(),
            part_start(p@, s as int) == part_start(p@, e as int),
        decreases s,
    {
        s = s - 1;
    }
    s
}

proof fn lemma_part_start_of_prefix(p: Seq<char>, n: int, e: int)
    requires
        0 <= e <= n <= p.len(),
    ensures
        part_start(p.take(n), e) == part_start(p, e),
    decreases e,
{
    if e > 0 && p[e - 1] != '/' {
        lemma_part_start_of_prefix(p, n, e - 1);
    }
}

/// Bounds of the components of `p`, from the last to the first.
pub open spec fn listed(p: Seq<char>, bounds: Seq<(usize, usize)>) -> Seq<Seq<char>> {
    Seq::new(
        bounds.len(),
        |i: int|
            p.subrange(
                bounds[bounds.len() - 1 - i].0 as int,
                bounds[bounds.len() - 1 - i].1 as int,
            ),
    )
}

fn find_components(p: &Vec<char>) -> (r: Vec<(usize, usize)>)
    ensures
        listed(p@, r@) == components(p@),
        forall|i: int| 0 <= i < r@.len() ==> (#[trigger] r@[i]).0 <= r@[i].1 <= p@.len(),
{
    let mut bounds: Vec<(usize, usize)> = Vec::new();
    let mut n: usize = p.len();
    proof {
        assert(p@.take(n as int) =~= p@);
        assert(components(p@.take(n as int)) + listed(p@, bounds@) =~= components(p@));
    }
    loop
        invariant
            n <= p@.len(),
            components(p@.take(n as int)) + listed(p@, bounds@) == components(p@),
            forall|i: int|
                0 <= i < bounds@.len() ==> (#[trigger] bounds@[i]).0 <= bounds@[i].1 <= p@.len(),
        decreases n,
    {
        let ghost head = p@.take(n as int);
        let e: usize = find_last_end(p, n);
        proof {
            lemma_last_end(head);
            lemma_part_start(p@, e as int);
            lemma_part_start_of_prefix(p@, n as int, e as int);
        }
        if e == 0 {
            assert(components(head) =~= Seq::empty());
            assert(components(head) + listed(p@, bounds@) =~= listed(p@, bounds@));
            return bounds;
        }
        let s: usize = find_part_start(p, e);
        assert(head[e - 1] == p@[e - 1]);
        assert(s < e);
        let ghost before = bounds@;
        bounds.push((s, e));
        proof {
            assert(head.take(s as int) =~= p@.take(s as int));
            assert(head.subrange(s as int, e as int) =~= p@.subrange(s as int, e as int));
            assert(components(head) == components(p@.take(s as int)).push(
                p@.subrange(s as int, e as int),
            ));
            assert(components(p@.take(s as int)) + listed(p@, bounds@) =~= components(head)
                + listed(p@, before));
        }
        n = s;
    }
}

/// Whether `a[i..j]` and `b[k..l]` hold the same characters.
fn same_part(a: &Vec<char>, at: (usize, usize), b: &Vec<char>, bt: (usize, usize)) -> (r: bool)
    requires
        at.0 <= at.1 <= a@.len(),
        bt.0 <= bt.1 <= b@.len(),
    ensures
        r == (a@.subrange(at.0 as int, at.1 as int) == b@.subrange(bt.0 as int, bt.1 as int)),
{
    let ghost x = a@.subrange(at.0 as int, at.1 as int);
    let ghost y = b@.subrange(bt.0 as int, bt.1 as int);
    if at.1 - at.0 != bt.1 - bt.0 {
        assert(x.len() != y.len());
        return false;
    }
    let n: usize = at.1 - at.0;
    let mut i: usize = 0;
    while i < n
        invariant
            at.0 <= at.1 <= a@.len(),
            bt.0 <= bt.1 <= b@.len(),
            n == at.1 - at.0,
            n == bt.1 - bt.0,
            i <= n,
            x == a@.subrange(at.0 as int, at.1 as int),
            y == b@.subrange(bt.0 as int, bt.1 as int),
            forall|k: int| 0 <= k < i ==> x[k] == y[k],
        decreases n - i,
    {
        if a[at.0 + i] != b[bt.0 + i] {
            assert(x[i as int] != y[i as int]);
            return false;
        }
        i = i + 1;
    }
    assert(x =~= y);
    true
}

/// Whether `p` is `base` or lies below it.
pub fn starts_with(p: &str, base: &str) -> (r: bool)
    ensures
        r == lies_inside(p@, base@),
{
    let pv: Vec<char> = chars_of(p);
    let bv: Vec<char> = chars_of(base);
    if bv.len() == 0 {
        return true;
    }
    if bv[0] != '/' || pv.len() == 0 || pv[0] != '/' {
        return false;
    }
    let pc: Vec<(usize, usize)> = find_components(&pv);
    let bc: Vec<(usize, usize)> = find_components(&bv);
    let pn: usize = pc.len();
    let bn: usize = bc.len();
    let ghost ps = components(p@);
    let ghost bs = components(base@);
    assert(ps.len() == pn && bs.len() == bn);
    if bn > pn {
        return false;
    }
    let mut i: usize = 0;
    while i < bn
        invariant
            i <= bn <= pn,
            is_absolute(base@),
            is_absolute(p@),
            pn == pc@.len(),
            bn == bc@.len(),
            pv@ == p@,
            bv@ == base@,
            ps == listed(pv@, pc@),
            ps == components(p@),
            bs == listed(bv@, bc@),
            bs == components(base@),
            forall|k: int| 0 <= k < pc@.len() ==> (#[trigger] pc@[k]).0 <= pc@[k].1 <= pv@.len(),
            forall|k: int| 0 <= k < bc@.len() ==> (#[trigger] bc@[k]).0 <= bc@[k].1 <= bv@.len(),
            forall|k: int| 0 <= k < i ==> ps[k] == bs[k],
        decreases bn - i,
    {
        let pp: (usize, usize) = pc[pn - 1 - i];
        let bp: (usize, usize) = bc[bn - 1 - i];
        if !same_part(&pv, pp, &bv, bp) {
            assert(ps[i as int] != bs[i as int]);
            assert(!bs.is_prefix_of(ps)) by {
                if bs.is_prefix_of(ps) {
                    assert(bs[i as int] == ps.subrange(0, bs.len() as int)[i as int]);
                }
            }
            return false;
        }
        i = i + 1;
    }
    assert(bs =~= ps.subrange(0, bs.len() as int));
    true
}

/// Whether some component of the path leads to the parent directory.
pub fn contains_parent_dir(p: &str) -> (r: bool)
    ensures
        r == has_parent_dir(p@),
{
    let v: Vec<char> = chars_of(p);
    let n: usize = v.len();
    let mut i: usize = 0;
    while n - i > 1
        invariant
            n == v@.len(),
            v@ == p@,
            i <= n,
            forall|k: int| 0 <= k < i ==> !parent_dir_at(p@, k),
        decreases n - i,
    {
        if v[i] == '.' && v[i + 1] == '.' && (i == 0 || v[i - 1] == '/') && (i + 2 == n || v[i + 2]
            == '/') {
            assert(parent_dir_at(p@, i as int));
            return true;
        }
        i = i + 1;
    }
    false
}

/// Whether the path starts at the root.
pub fn starts_at_root(p: &str) -> (r: bool)
    ensures
        r == is_absolute(p@),
{
    p.unicode_len() > 0 && p.get_char(0) == '/'
}

/// The last component and where it starts; an empty sequence where there is
/// none.
pub open spec fn file_name(p: Seq<char>) -> Seq<char> {
    p.subrange(part_start(p, last_end(p)), last_end(p))
}

/// The path without its last component; the root where that was the only one.
pub open spec fn parent(p: Seq<char>) -> Seq<char> {
    let rest = p.take(part_start(p, last_end(p)));
    if last_end(rest) == 0 {
        seq!['/']
    } else {
        rest.take(last_end(rest))
    }
}

/// Position of the last dot of `s`, or -1.
pub open spec fn last_dot(s: Seq<char>) -> int
    decreases s.len(),
{
    if s.len() == 0 {
        -1
    } else if s.last() == '.' {
        s.len() - 1
    } else {
        last_dot(s.drop_last())
    }
}

/// Where the second file of a dual recording goes: `.secondary` is put before
/// the extension, or at the end of a path whose file name has none.
pub open spec fn secondary_of(p: Seq<char>) -> Seq<char> {
    let name = file_name(p);
    let dot = last_dot(name);
    if dot <= 0 || name == seq!['.', '.'] {
        p + ".secondary"@
    } else {
        let dir = parent(p);
        let slash: Seq<char> = if dir == seq!['/'] {
            Seq::empty()
        } else {
            seq!['/']
        };
        dir + slash + name.take(dot) + ".secondary."@ + name.skip(dot + 1)
    }
}

/// One past the last dot of `v[s..e]`, or `s`.
fn find_dot(v: &Vec<char>, s: usize, e: usize) -> (d: usize)
    requires
        s <= e <= v@.len(),
    ensures
        s <= d <= e,
        last_dot(v@.subrange(s as int, e as int)) == d - 1 - s,
{
    let mut d: usize = e;
    while d > s && v[d - 1] != '.'
        invariant
            s <= d <= e <= v@.len(),
            last_dot(v@.subrange(s as int, e as int)) == last_dot(
                v@.subrange(s as int, d as int),
            ),
        decreases d,
    {
        assert(v@.subrange(s as int, d as int).drop_last() =~= v@.subrange(s as int, d - 1));
        d = d - 1;
    }
    if d > s {
        assert(v@.subrange(s as int, d as int).last() == '.');
    }
    d
}

/// The directory of the part that starts at `s`, with a separator at its end.
fn directory(primary: &str, v: &Vec<char>, s: usize) -> (r: String)
    requires
        v@ == primary@,
        s <= v@.len(),
        s == part_start(v@, last_end(v@)),
    ensures
        r@ == if parent(v@) == seq!['/'] {
            parent(v@)
        } else {
            parent(v@).push('/')
        },
{
    let k: usize = find_last_end(v, s);
    let ghost rest = v@.take(s as int);
    let mut out: String = String::new();
    if k > 0 {
        out.append(primary.substring_char(0, k));
        proof {
            assert(v@.subrange(0, k as int) =~= rest.take(k as int));
            lemma_last_end(rest);
            assert(parent(v@).last() == rest[k - 1]);
        }
    }
    out.append("/");
    proof {
        reveal_strlit("/");
        if k > 0 {
            assert(out@ =~= parent(v@).push('/'));
        } else {
            assert(out@ =~= seq!['/']);
        }
    }
    out
}

/// Where the second file of a dual recording to `primary` goes.
pub fn secondary_path(primary: &str) -> (r: String)
    requires
        is_absolute(primary@),
    ensures
        r@ == secondary_of(primary@),
{
    let v: Vec<char> = chars_of(primary);
    let n: usize = v.len();
    let ghost p = primary@;
    assert(p.take(n as int) =~= p);
    let e: usize = find_last_end(&v, n);
    let s: usize = find_part_start(&v, e);
    let d: usize = find_dot(&v, s, e);
    let ghost name = p.subrange(s as int, e as int);
    let two_dots: bool = e - s == 2 && v[s] == '.' && v[s + 1] == '.';
    proof {
        if two_dots {
            assert(name =~= seq!['.', '.']);
        } else if name == seq!['.', '.'] {
            assert(name.len() == 2 && name[0] == '.' && name[1] == '.');
        }
    }
    if d - s <= 1 || two_dots {
        let mut out: String = String::from_str(primary);
        out.append(".secondary");
        return out;
    }
    let mut out: String = directory(primary, &v, s);
    let ghost dir = out@;
    out.append(primary.substring_char(s, d - 1));
    out.append(".secondary.");
    out.append(primary.substring_char(d, e));
    proof {
        let dot = last_dot(name);
        assert(p.subrange(s as int, d - 1) =~= name.take(dot));
        assert(p.subrange(d as int, e as int) =~= name.skip(dot + 1));
        let slash: Seq<char> = if parent(p) == seq!['/'] {
            Seq::empty()
        } else {
            seq!['/']
        };
        assert(dir =~= parent(p) + slash);
    }
    out
}

/// Whether a recording may be written to `p` when recordings belong into
/// `allowed`.
pub open spec fn admissible(p: Seq<char>, allowed: Seq<char>) -> bool {
    is_absolute(p) && !has_parent_dir(p) && lies_inside(p, allowed)
}

/// Refuses a path that is not absolute or that leads upwards. What is left is
/// to be held against the directory that recordings belong into.
pub fn check_shape(p: &str) -> (r: Result<(), String>)
    ensures
        match r {
            Ok(_) => is_absolute(p@) && !has_parent_dir(p@),
            Err(e) => if !is_absolute(p@) {
                e@ == "recording path must be absolute"@
            } else {
                has_parent_dir(p@) && e@ == "recording path must not contain '..'"@
            },
        },
{
    if !starts_at_root(p) {
        return Err(String::from_str("recording path must be absolute"));
    }
    if contains_parent_dir(p) {
        return Err(String::from_str("recording path must not contain '..'"));
    }
    Ok(())
}

/// Refuses a path outside the directory that recordings belong into.
pub fn check_inside(p: &str, allowed: &str) -> (r: Result<(), String>)
    ensures
        match r {
            Ok(_) => lies_inside(p@, allowed@),
            Err(e) => !lies_inside(p@, allowed@) && e@ == "recording path must be inside "@
                + allowed@,
        },
{
    if starts_with(p, allowed) {
        return Ok(());
    }
    let mut e: String = String::from_str("recording path must be inside ");
    e.append(allowed);
    Err(e)
}

proof fn lemma_no_upward_component(p: Seq<char>, i: int)
    requires
        !has_parent_dir(p),
        0 <= i < components(p).len(),
    ensures
        components(p)[i] != seq!['.', '.'],
    decreases p.len(),
{
    let e = last_end(p);
    let s = part_start(p, e);
    lemma_last_end(p);
    lemma_part_start(p, e);
    let rest = p.take(s);
    if i < components(rest).len() {
        assert(!has_parent_dir(rest)) by {
            if has_parent_dir(rest) {
                let k = choose|k: int| parent_dir_at(rest, k);
                assert(rest.last() == p[s - 1]);
                assert(k + 2 != s);
                assert(parent_dir_at(p, k));
            }
        }
        lemma_no_upward_component(rest, i);
    } else {
        let name = p.subrange(s, e);
        if name == seq!['.', '.'] {
            assert(name.len() == 2 && name[0] == '.' && name[1] == '.');
            assert(parent_dir_at(p, s));
        }
    }
}

/// An admissible path is made of the components of the directory that
/// recordings belong into and further ones, none of which leads upwards: what
/// it names lies in that directory.
pub proof fn admissible_paths_stay_inside(p: Seq<char>, allowed: Seq<char>)
    requires
        admissible(p, allowed),
        allowed.len() > 0,
    ensures
        components(allowed).len() <= components(p).len(),
        forall|i: int|
            0 <= i < components(allowed).len() ==> components(p)[i] == #[trigger] components(
                allowed,
            )[i],
        forall|i: int|
            0 <= i < components(p).len() ==> #[trigger] components(p)[i] != seq!['.', '.'],
{
    assert forall|i: int| 0 <= i < components(allowed).len() implies components(p)[i]
        == #[trigger] components(allowed)[i] by {
        assert(components(allowed)[i] == components(p).subrange(
            0,
            components(allowed).len() as int,
        )[i]);
    }
    assert forall|i: int| 0 <= i < components(p).len() implies #[trigger] components(p)[i]
        != seq!['.', '.'] by {
        lemma_no_upward_component(p, i);
    }
}

proof fn lemma_part_start_is(p: Seq<char>, k: int, e: int)
    requires
        0 < k <= e <= p.len(),
        p[k - 1] == '/',
        forall|i: int| k <= i < e ==> #[trigger] p[i] != '/',
    ensures
        part_start(p, e) == k,
    decreases e,
{
    if e > k {
        lemma_part_start_is(p, k, e - 1);
    }
}

proof fn lemma_last_dot(s: Seq<char>)
    ensures
        -1 <= last_dot(s) < s.len(),
        forall|i: int| last_dot(s) < i < s.len() ==> #[trigger] s[i] != '.',
    decreases s.len(),
{
    if s.len() > 0 && s.last() != '.' {
        lemma_last_dot(s.drop_last());
        assert forall|i: int| last_dot(s) < i < s.len() implies #[trigger] s[i] != '.' by {
            if i < s.len() - 1 {
                assert(s[i] == s.drop_last()[i]);
            }
        }
    }
}

/// The two files of a dual recording are never written to the same path.
pub proof fn secondary_path_differs(p: Seq<char>)
    requires
        is_absolute(p),
    ensures
        secondary_of(p) != p,
{
    reveal_strlit(".secondary");
    reveal_strlit(".secondary.");
    let q = secondary_of(p);
    let e = last_end(p);
    let s = part_start(p, e);
    let name = file_name(p);
    let dot = last_dot(name);
    lemma_last_end(p);
    lemma_part_start(p, e);
    lemma_last_dot(name);
    if dot <= 0 || name == seq!['.', '.'] {
        assert(q.len() == p.len() + 10);
    } else if q == p {
        let rest = p.take(s);
        lemma_last_end(rest);
        let dir = parent(p);
        let slash: Seq<char> = if dir == seq!['/'] {
            Seq::empty()
        } else {
            seq!['/']
        };
        let head = dir + slash;
        let ext = name.skip(dot + 1);
        let tail = name.take(dot) + ".secondary."@ + ext;
        assert(q =~= head + tail);
        assert(head.last() == '/');
        assert(tail.len() == name.len() + 10);
        assert(q[head.len() - 1] == '/');
        assert forall|i: int| head.len() <= i < q.len() implies #[trigger] q[i] != '/' by {
            let j = i - head.len();
            assert(q[i] == tail[j]);
            if j < dot {
                assert(tail[j] == name[j] == p[s + j]);
            } else if j >= dot + 11 {
                assert(tail[j] == ext[j - dot - 11]);
                assert(ext[j - dot - 11] == name[j - 10]);
                assert(name[j - 10] == p[s + j - 10]);
            }
        }
        assert(q.last() == tail.last());
        if ext.len() == 0 {
            assert(tail[tail.len() - 2] == 'y');
            assert(q[q.len() - 2] == 'y');
        } else {
            assert(tail.last() == ext.last());
            assert(ext.last() == name[name.len() - 1]);
        }
        assert(last_end(q) == q.len());
        lemma_part_start_is(q, head.len() as int, q.len() as int);
    }
}

/// Separators at the end of a path name nothing.
pub proof fn trailing_separators_name_nothing(p: Seq<char>)
    ensures
        components(p.push('/')) == components(p),
{
    let q = p.push('/');
    assert(q.drop_last() =~= p);
    let e = last_end(p);
    lemma_last_end(p);
    assert(last_end(q) == e);
    assert(q.take(p.len() as int) =~= p);
    lemma_part_start_of_prefix(q, p.len() as int, e);
    lemma_part_start(p, e);
    let s = part_start(p, e);
    assert(q.take(s) =~= p.take(s));
    if s < e {
        assert(q.subrange(s, e) =~= p.subrange(s, e));
    }
}

/// A name that is put behind a path is its last component: the others are those of
/// the path.
pub proof fn names_are_components(dir: Seq<char>, name: Seq<char>)
    requires
        name.len() > 0,
        forall|i: int| 0 <= i < name.len() ==> #[trigger] name[i] != '/',
        name != seq!['.'],
    ensures
        components(dir.push('/') + name) == components(dir).push(name),
{
    let p = dir.push('/') + name;
    let k = dir.len() + 1;
    assert(p.last() == name.last());
    assert(name.last() == name[name.len() - 1]);
    if p.last() == '.' && p[p.len() - 2] == '/' {
        if name.len() > 1 {
            assert(p[p.len() - 2] == name[name.len() - 2]);
        } else {
            assert(name =~= seq!['.']);
        }
    }
    assert(last_end(p) == p.len());
    assert(p[k - 1] == '/');
    assert forall|i: int| k <= i < p.len() implies #[trigger] p[i] != '/' by {
        assert(p[i] == name[i - k]);
    }
    lemma_part_start_is(p, k as int, p.len() as int);
    assert(p.take(k as int) =~= dir.push('/'));
    assert(p.subrange(k as int, p.len() as int) =~= name);
    trailing_separators_name_nothing(dir);
}

/// A file in the directory that recordings belong into is inside it, however deep
/// the directory lies; a file beside the directory is not, also where its name
/// starts with the directory's.
pub proof fn files_beside_the_directory_are_outside(
    top: Seq<char>,
    dir: Seq<char>,
    beside: Seq<char>,
    name: Seq<char>,
)
    requires
        top.len() > 0,
        top[0] == '/',
        forall|i: int| 0 <= i < dir.len() ==> #[trigger] dir[i] != '/',
        forall|i: int| 0 <= i < beside.len() ==> #[trigger] beside[i] != '/',
        forall|i: int| 0 <= i < name.len() ==> #[trigger] name[i] != '/',
        dir.len() > 0 && beside.len() > 0 && name.len() > 0,
        dir != seq!['.'] && beside != seq!['.'] && name != seq!['.'],
        beside != dir,
    ensures
        ({
            let allowed = top.push('/') + dir;
            &&& lies_inside(allowed.push('/') + name, allowed)
            &&& lies_inside(allowed, allowed)
            &&& !lies_inside(top.push('/') + beside, allowed)
            &&& !lies_inside((top.push('/') + beside).push('/') + name, allowed)
            &&& !lies_inside(top, allowed)
        }),
{
    let allowed = top.push('/') + dir;
    let other = top.push('/') + beside;
    names_are_components(top, dir);
    names_are_components(top, beside);
    names_are_components(allowed, name);
    names_are_components(other, name);
    let n = components(top).len() as int;
    let a = components(allowed);
    assert(a[n] == dir);
    assert(a =~= components(allowed.push('/') + name).subrange(0, a.len() as int));
    assert(a =~= a.subrange(0, a.len() as int));
    let o = components(other);
    assert(o[n] == beside);
    assert(!a.is_prefix_of(o)) by {
        if a.is_prefix_of(o) {
            assert(a[n] == o.subrange(0, a.len() as int)[n]);
        }
    }
    let on = components(other.push('/') + name);
    assert(on[n] == beside);
    assert(!a.is_prefix_of(on)) by {
        if a.is_prefix_of(on) {
            assert(a[n] == on.subrange(0, a.len() as int)[n]);
        }
    }
}

/// A path has the right shape exactly where it starts at the root and none of its
/// components is two dots.
pub proof fn shapes_are_absolute_without_dots(p: &str, r: Result<(), String>)
    requires
        call_ensures(check_shape, (p,), r),
    ensures
        r is Ok <==> p@.len() > 0 && p@[0] == '/' && forall|i: int|
            #![trigger p@[i]]
            0 <= i && i + 1 < p@.len() && p@[i] == '.' && p@[i + 1] == '.' ==> (i > 0 && p@[i - 1]
                != '/') || (i + 2 < p@.len() && p@[i + 2] != '/'),
{
    if r is Ok {
        assert forall|i: int|
            #![trigger p@[i]]
            0 <= i && i + 1 < p@.len() && p@[i] == '.' && p@[i + 1] == '.' implies (i > 0 && p@[i
            - 1] != '/') || (i + 2 < p@.len() && p@[i + 2] != '/') by {
            assert(!parent_dir_at(p@, i));
        }
    } else if p@.len() > 0 && p@[0] == '/' {
        let i = choose|i: int| parent_dir_at(p@, i);
        assert(p@[i] == '.');
    }
}

/// A path leads upwards wherever two dots stand between separators.
pub proof fn two_dots_lead_upwards(a: Seq<char>, b: Seq<char>)
    ensures
        has_parent_dir(a + seq!['/', '.', '.', '/'] + b),
        has_parent_dir(a + seq!['/', '.', '.']),
{
    let p = a + seq!['/', '.', '.', '/'] + b;
    let i = a.len() as int + 1;
    assert(p[i] == '.' && p[i + 1] == '.' && p[i - 1] == '/' && p[i + 2] == '/');
    assert(parent_dir_at(p, i));
    let q = a + seq!['/', '.', '.'];
    assert(q[i] == '.' && q[i + 1] == '.' && q[i - 1] == '/');
    assert(parent_dir_at(q, i));
}

/// A path is refused as outside exactly where it is.
pub proof fn paths_outside_are_refused(p: &str, allowed: &str, r: Result<(), String>, inside: bool)
    requires
        call_ensures(check_inside, (p, allowed), r),
        call_ensures(starts_with, (p, allowed), inside),
    ensures
        r is Ok <==> inside,
        allowed@.len() == 0 ==> inside,
        allowed@.len() > 0 && allowed@[0] != '/' ==> !inside,
        allowed@.len() > 0 && (p@.len() == 0 || p@[0] != '/') ==> !inside,
{
}

/// The second file of a recording lies beside the first, with `.secondary` before
/// its extension.
pub proof fn second_files_keep_their_extension(dir: Seq<char>, stem: Seq<char>, ext: Seq<char>)
    requires
        dir.len() > 1,
        dir[0] == '/',
        dir.last() != '/',
        !(dir.last() == '.' && dir[dir.len() - 2] == '/'),
        stem.len() > 0,
        ext.len() > 0,
        forall|i: int| 0 <= i < stem.len() ==> #[trigger] stem[i] != '/',
        forall|i: int| 0 <= i < ext.len() ==> #[trigger] ext[i] != '/' && ext[i] != '.',
    ensures
        secondary_of(dir.push('/') + stem + seq!['.'] + ext) == dir.push('/') + stem
            + ".secondary."@ + ext,
{
    let name = stem + seq!['.'] + ext;
    let p = dir.push('/') + stem + seq!['.'] + ext;
    let k = dir.len() + 1;
    assert(p =~= dir.push('/') + name);
    assert(p.last() == ext.last());
    assert(ext.last() == ext[ext.len() - 1]);
    assert(last_end(p) == p.len());
    assert forall|i: int| k <= i < p.len() implies #[trigger] p[i] != '/' by {
        assert(p[i] == name[i - k]);
        let j = i - k;
        if j < stem.len() {
            assert(name[j] == stem[j]);
        } else if j > stem.len() {
            assert(name[j] == ext[j - stem.len() - 1]);
        }
    }
    assert(p[k - 1] == '/');
    lemma_part_start_is(p, k as int, p.len() as int);
    assert(file_name(p) =~= name);
    lemma_last_dot_is(name, stem.len() as int, ext);
    let rest = p.take(k as int);
    assert(rest =~= dir.push('/'));
    assert(rest.drop_last() =~= dir);
    assert(last_end(rest) == last_end(dir));
    assert(last_end(dir) == dir.len());
    assert(parent(p) =~= dir);
    assert(dir != seq!['/']) by {
        assert(dir.len() > 1);
    }
    assert(name != seq!['.', '.']) by {
        assert(name.last() == ext.last());
        assert(seq!['.', '.'].last() == '.');
    }
    assert(name.take(stem.len() as int) =~= stem);
    assert(name.skip(stem.len() as int + 1) =~= ext);
    assert(secondary_of(p) =~= dir.push('/') + stem + ".secondary."@ + ext);
}

proof fn lemma_last_dot_is(name: Seq<char>, k: int, ext: Seq<char>)
    requires
        0 <= k < name.len(),
        name.len() == k + 1 + ext.len(),
        name[k] == '.',
        forall|i: int| k < i < name.len() ==> #[trigger] name[i] != '.',
    ensures
        last_dot(name) == k,
    decreases name.len(),
{
    if name.len() > k + 1 {
        let rest = name.drop_last();
        assert(name.last() == name[name.len() - 1]);
        assert forall|i: int| k < i < rest.len() implies #[trigger] rest[i] != '.' by {
            assert(rest[i] == name[i]);
        }
        lemma_last_dot_is(rest, k, ext.drop_last());
    }
}

/// A file name without an extension gets `.secondary` at its end.
pub proof fn second_files_without_extension(dir: Seq<char>, name: Seq<char>)
    requires
        name.len() > 0,
        forall|i: int| 0 <= i < name.len() ==> #[trigger] name[i] != '/' && name[i] != '.',
    ensures
        secondary_of(dir.push('/') + name) == dir.push('/') + name + ".secondary"@,
{
    let p = dir.push('/') + name;
    let k = dir.len() + 1;
    assert(p.last() == name.last());
    assert(name.last() == name[name.len() - 1]);
    assert(last_end(p) == p.len());
    assert(p[k - 1] == '/');
    assert forall|i: int| k <= i < p.len() implies #[trigger] p[i] != '/' by {
        assert(p[i] == name[i - k]);
    }
    lemma_part_start_is(p, k as int, p.len() as int);
    assert(file_name(p) =~= name);
    lemma_no_dot(name);
}

proof fn lemma_no_dot(name: Seq<char>)
    requires
        forall|i: int| 0 <= i < name.len() ==> #[trigger] name[i] != '.',
    ensures
        last_dot(name) == -1,
    decreases name.len(),
{
    if name.len() > 0 {
        let rest = name.drop_last();
        assert(name.last() == name[name.len() - 1]);
        assert forall|i: int| 0 <= i < rest.len() implies #[trigger] rest[i] != '.' by {
            assert(rest[i] == name[i]);
        }
        lemma_no_dot(rest);
    }
}

/// A path is absolute where it starts with a separator, and holds a parent
/// directory where two dots stand alone between separators or the path's ends.
pub proof fn paths_are_read_by_their_separators(p: &str, i: int, up: bool, root: bool)
    requires
        call_ensures(contains_parent_dir, (p,), up),
        call_ensures(starts_at_root, (p,), root),
        0 <= i < p@.len(),
    ensures
        root <==> p@[0] == '/',
        i + 1 < p@.len() && p@[i] == '.' && p@[i + 1] == '.' && (i == 0 || p@[i - 1] == '/') && (i
            + 2 == p@.len() || p@[i + 2] == '/') ==> up,
        (forall|k: int| 0 <= k < p@.len() ==> #[trigger] p@[k] != '.') ==> !up,
{
    if i + 1 < p@.len() && p@[i] == '.' && p@[i + 1] == '.' && (i == 0 || p@[i - 1] == '/') && (i + 2
        == p@.len() || p@[i + 2] == '/') {
        assert(parent_dir_at(p@, i));
    }
}

} // verus!
