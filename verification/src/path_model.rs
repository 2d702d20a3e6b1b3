//! Lexical model of native (Unix) paths as byte sequences: slash-separated
//! raw segments, normal components, and path joining.
use vstd::prelude::*;

verus! {

broadcast use vstd::seq::group_seq_axioms;

/// ASCII `/`.
pub open spec fn slash() -> u8 {
    0x2fu8
}

/// ASCII `.`.
pub open spec fn dot() -> u8 {
    0x2eu8
}

/// Whether a path is absolute: it starts with `/`.
pub open spec fn is_absolute(path: Seq<u8>) -> bool {
    path.len() > 0 && path[0] == slash()
}

/// The slash-separated raw segments of a path, empty ones included. A path
/// with `k` slashes has `k + 1` raw segments.
pub open spec fn raw_segments(path: Seq<u8>) -> Seq<Seq<u8>>
    decreases path.len(),
{
    if path.len() == 0 {
        seq![Seq::<u8>::empty()]
    } else {
        let r = raw_segments(path.drop_last());
        if path.last() == slash() {
            r.push(Seq::<u8>::empty())
        } else {
            r.update(r.len() - 1, r.last().push(path.last()))
        }
    }
}

/// Whether a segment is `.` or `..`.
pub open spec fn is_dot_segment(segment: Seq<u8>) -> bool {
    segment == seq![dot()] || segment == seq![dot(), dot()]
}

/// Whether some segment of a list is `.` or `..`.
pub open spec fn any_dot_segment(segments: Seq<Seq<u8>>) -> bool {
    exists|i: int| 0 <= i < segments.len() && is_dot_segment(#[trigger] segments[i])
}

/// Whether a path has a raw `.` or `..` segment.
pub open spec fn has_dot_segment(path: Seq<u8>) -> bool {
    any_dot_segment(raw_segments(path))
}

/// The non-empty segments of a list, in order.
pub open spec fn drop_empty(segments: Seq<Seq<u8>>) -> Seq<Seq<u8>>
    decreases segments.len(),
{
    if segments.len() == 0 {
        seq![]
    } else {
        let r = drop_empty(segments.drop_last());
        if segments.last().len() == 0 {
            r
        } else {
            r.push(segments.last())
        }
    }
}

/// The normal components of a path: its non-empty raw segments. For a path
/// without `.` or `..` segments these are exactly its components after the
/// root.
pub open spec fn components(path: Seq<u8>) -> Seq<Seq<u8>> {
    drop_empty(raw_segments(path))
}

/// Appends `child` to `base` as one path: an absolute child replaces the
/// base; otherwise one separator is inserted unless the base is empty or
/// already ends with one.
pub open spec fn path_push(base: Seq<u8>, child: Seq<u8>) -> Seq<u8> {
    if is_absolute(child) {
        child
    } else if base.len() == 0 || base.last() == slash() {
        base + child
    } else {
        base + seq![slash()] + child
    }
}

/// Joins a list of relative parts onto a base, one part at a time.
pub open spec fn join_all(base: Seq<u8>, parts: Seq<Seq<u8>>) -> Seq<u8>
    decreases parts.len(),
{
    if parts.len() == 0 {
        base
    } else {
        path_push(join_all(base, parts.drop_last()), parts.last())
    }
}

/// Whether a byte sequence is one normal component: non-empty, without `/`,
/// and neither `.` nor `..`.
pub open spec fn is_normal_component(native: Seq<u8>) -> bool {
    native.len() > 0 && !native.contains(slash()) && !is_dot_segment(native)
}

/// The byte sequences held by a list of byte vectors.
pub open spec fn views(list: Seq<Vec<u8>>) -> Seq<Seq<u8>> {
    Seq::new(list.len(), |i: int| list[i]@)
}

/// Whether `prefix` is a prefix of `seq`.
pub open spec fn is_seq_prefix<T>(prefix: Seq<T>, seq: Seq<T>) -> bool {
    prefix.len() <= seq.len() && seq.take(prefix.len() as int) == prefix
}

// ---------------------------------------------------------------------------
// Lemmas
// ---------------------------------------------------------------------------
/// Every path has at least one raw segment, and no raw segment holds a
/// slash.
pub proof fn lemma_raw_segments_shape(path: Seq<u8>)
    ensures
        raw_segments(path).len() >= 1,
        forall|i: int|
            0 <= i < raw_segments(path).len() ==> !(#[trigger] raw_segments(path)[i]).contains(
                slash(),
            ),
    decreases path.len(),
{
    if path.len() > 0 {
        let r = raw_segments(path.drop_last());
        lemma_raw_segments_shape(path.drop_last());
        if path.last() != slash() {
            let last = r.last();
            assert forall|i: int| 0 <= i < raw_segments(path).len() implies !(
            #[trigger] raw_segments(path)[i]).contains(slash()) by {
                if i == r.len() - 1 {
                    let pushed = last.push(path.last());
                    if pushed.contains(slash()) {
                        let k = choose|k: int| 0 <= k < pushed.len() && pushed[k] == slash();
                        if k < last.len() {
                            assert(last[k] == slash());
                        }
                    }
                } else {
                    assert(raw_segments(path)[i] == r[i]);
                }
            }
        } else {
            assert forall|i: int| 0 <= i < raw_segments(path).len() implies !(
            #[trigger] raw_segments(path)[i]).contains(slash()) by {
                if i < r.len() {
                    assert(raw_segments(path)[i] == r[i]);
                } else {
                    assert(raw_segments(path)[i] =~= Seq::<u8>::empty());
                }
            }
        }
    }
}

/// A path without slashes is its own single raw segment.
pub proof fn lemma_raw_segments_no_slash(path: Seq<u8>)
    requires
        !path.contains(slash()),
    ensures
        raw_segments(path) == seq![path],
    decreases path.len(),
{
    if path.len() > 0 {
        let prefix = path.drop_last();
        assert(!prefix.contains(slash())) by {
            if prefix.contains(slash()) {
                let k = choose|k: int| 0 <= k < prefix.len() && prefix[k] == slash();
                assert(path[k] == slash());
            }
        }
        lemma_raw_segments_no_slash(prefix);
        assert(path.last() != slash()) by {
            assert(path[path.len() - 1] == path.last());
        }
        assert(prefix.push(path.last()) =~= path);
        assert(raw_segments(path) =~= seq![path]);
    } else {
        assert(path =~= Seq::<u8>::empty());
    }
}

/// Appending bytes without a slash extends the last raw segment.
pub proof fn lemma_raw_segments_append_plain(base: Seq<u8>, tail: Seq<u8>)
    requires
        !tail.contains(slash()),
    ensures
        raw_segments(base + tail) == raw_segments(base).update(
            raw_segments(base).len() - 1,
            raw_segments(base).last() + tail,
        ),
    decreases tail.len(),
{
    lemma_raw_segments_shape(base);
    let r = raw_segments(base);
    if tail.len() == 0 {
        assert(base + tail =~= base);
        assert(r.last() + tail =~= r.last());
        assert(r.update(r.len() - 1, r.last()) =~= r);
    } else {
        let prefix = tail.drop_last();
        assert(!prefix.contains(slash())) by {
            if prefix.contains(slash()) {
                let k = choose|k: int| 0 <= k < prefix.len() && prefix[k] == slash();
                assert(tail[k] == slash());
            }
        }
        assert(tail.last() != slash()) by {
            assert(tail[tail.len() - 1] == tail.last());
        }
        lemma_raw_segments_append_plain(base, prefix);
        assert((base + tail).drop_last() =~= base + prefix);
        assert((base + tail).last() == tail.last());
        let r2 = raw_segments(base + prefix);
        assert(r2.len() == r.len());
        assert((r.last() + prefix).push(tail.last()) =~= r.last() + tail);
        assert(raw_segments(base + tail) =~= r.update(r.len() - 1, r.last() + tail));
    }
}

/// Appending a slash starts a new empty raw segment.
pub proof fn lemma_raw_segments_append_slash(base: Seq<u8>)
    ensures
        raw_segments(base.push(slash())) == raw_segments(base).push(Seq::<u8>::empty()),
{
    assert(base.push(slash()).drop_last() =~= base);
}

/// Non-empty segments of a list extended by one segment.
pub proof fn lemma_drop_empty_push(segments: Seq<Seq<u8>>, segment: Seq<u8>)
    ensures
        drop_empty(segments.push(segment)) == if segment.len() == 0 {
            drop_empty(segments)
        } else {
            drop_empty(segments).push(segment)
        },
{
    assert(segments.push(segment).drop_last() =~= segments);
}

/// Pushing a normal component onto a path adds exactly that component.
pub proof fn lemma_components_push_normal(base: Seq<u8>, child: Seq<u8>)
    requires
        is_normal_component(child),
    ensures
        components(path_push(base, child)) == components(base).push(child),
        has_dot_segment(path_push(base, child)) == has_dot_segment(base),
        is_absolute(path_push(base, child)) == is_absolute(base),
{
    lemma_raw_segments_shape(base);
    let r = raw_segments(base);
    assert(!is_absolute(child)) by {
        if is_absolute(child) {
            assert(child[0] == slash());
            assert(child.contains(slash()));
        }
    }
    let empty = Seq::<u8>::empty();
    let joined = if base.len() == 0 || base.last() == slash() {
        base
    } else {
        base.push(slash())
    };
    assert(path_push(base, child) == joined + child) by {
        if !(base.len() == 0 || base.last() == slash()) {
            assert(base + seq![slash()] =~= base.push(slash()));
        }
    }
    let rj = raw_segments(joined);
    let rd = rj.drop_last();
    lemma_raw_segments_shape(joined);
    if base.len() == 0 {
        assert(r =~= seq![empty]);
        assert(rj =~= rd.push(empty));
        assert(r =~= rd.push(empty));
    } else if base.last() == slash() {
        assert(base.drop_last().push(slash()) =~= base);
        lemma_raw_segments_append_slash(base.drop_last());
        assert(rj =~= rd.push(empty));
        assert(r =~= rd.push(empty));
    } else {
        lemma_raw_segments_append_slash(base);
        assert(rj =~= r.push(empty));
        assert(rd =~= r);
    }
    assert(rj.last() =~= empty);
    lemma_raw_segments_append_plain(joined, child);
    let rc = raw_segments(joined + child);
    assert(rj.last() + child =~= child);
    assert(rc =~= rd.push(child));
    lemma_drop_empty_push(rd, child);
    lemma_drop_empty_push(rd, empty);
    assert(drop_empty(r) == drop_empty(rd));
    assert(!is_dot_segment(empty)) by {
        assert(seq![dot()].len() == 1);
        assert(seq![dot(), dot()].len() == 2);
    }
    assert(any_dot_segment(rc) == any_dot_segment(r)) by {
        if any_dot_segment(rc) {
            let i = choose|i: int| 0 <= i < rc.len() && is_dot_segment(#[trigger] rc[i]);
            assert(i < rc.len() - 1);
            assert(rc[i] == rd[i]);
            assert(r[i] == rd[i]);
        }
        if any_dot_segment(r) {
            let i = choose|i: int| 0 <= i < r.len() && is_dot_segment(#[trigger] r[i]);
            assert(i < rd.len());
            assert(r[i] == rd[i]);
            assert(rc[i] == rd[i]);
        }
    }
    if base.len() > 0 {
        assert((joined + child)[0] == base[0]);
    } else {
        assert(joined + child =~= child);
    }
}

/// Raw segments of a concatenation: the last segment of the first part
/// merges with the first segment of the second.
pub proof fn lemma_raw_segments_concat(a: Seq<u8>, b: Seq<u8>)
    ensures
        raw_segments(a + b) == raw_segments(a).drop_last() + seq![
            raw_segments(a).last() + raw_segments(b)[0],
        ] + raw_segments(b).skip(1),
    decreases b.len(),
{
    lemma_raw_segments_shape(a);
    lemma_raw_segments_shape(b);
    let ra = raw_segments(a);
    if b.len() == 0 {
        assert(a + b =~= a);
        assert(raw_segments(b) =~= seq![Seq::<u8>::empty()]);
        assert(ra.last() + Seq::<u8>::empty() =~= ra.last());
        assert(ra =~= ra.drop_last() + seq![ra.last()]);
        assert(raw_segments(b).skip(1) =~= Seq::<Seq<u8>>::empty());
        assert(ra.drop_last() + seq![ra.last() + raw_segments(b)[0]] + raw_segments(b).skip(1)
            =~= ra);
    } else {
        let bp = b.drop_last();
        let x = b.last();
        lemma_raw_segments_concat(a, bp);
        lemma_raw_segments_shape(bp);
        assert((a + b).drop_last() =~= a + bp);
        assert((a + b).last() == x);
        let rbp = raw_segments(bp);
        let rab = raw_segments(a + bp);
        if x == slash() {
            assert(raw_segments(b) == rbp.push(Seq::<u8>::empty()));
            assert(raw_segments(b)[0] == rbp[0]);
            assert(raw_segments(b).skip(1) =~= rbp.skip(1).push(Seq::<u8>::empty()));
            assert(raw_segments(a + b) =~= ra.drop_last() + seq![ra.last() + raw_segments(b)[0]]
                + raw_segments(b).skip(1));
        } else {
            let rb = raw_segments(b);
            assert(rb == rbp.update(rbp.len() - 1, rbp.last().push(x)));
            if rbp.len() == 1 {
                assert(rb[0] == rbp[0].push(x));
                assert(rb.skip(1) =~= Seq::<Seq<u8>>::empty());
                assert(rbp.skip(1) =~= Seq::<Seq<u8>>::empty());
                assert((ra.last() + rbp[0]).push(x) =~= ra.last() + rbp[0].push(x));
                assert(raw_segments(a + b) =~= ra.drop_last() + seq![ra.last() + rb[0]] + rb.skip(
                    1,
                ));
            } else {
                assert(rb[0] == rbp[0]);
                assert(rb.skip(1) =~= rbp.skip(1).update(rbp.len() - 2, rbp.last().push(x)));
                assert(raw_segments(a + b) =~= ra.drop_last() + seq![ra.last() + rb[0]] + rb.skip(
                    1,
                ));
            }
        }
    }
}

/// Dropping empty segments distributes over concatenation.
pub proof fn lemma_drop_empty_concat(x: Seq<Seq<u8>>, y: Seq<Seq<u8>>)
    ensures
        drop_empty(x + y) == drop_empty(x) + drop_empty(y),
    decreases y.len(),
{
    if y.len() == 0 {
        assert(x + y =~= x);
        assert(drop_empty(x) + drop_empty(y) =~= drop_empty(x));
    } else {
        assert((x + y).drop_last() =~= x + y.drop_last());
        lemma_drop_empty_concat(x, y.drop_last());
        if y.last().len() == 0 {
        } else {
            assert(drop_empty(x) + drop_empty(y.drop_last()).push(y.last()) =~= (drop_empty(x)
                + drop_empty(y.drop_last())).push(y.last()));
        }
    }
}

/// A dot segment occurs in a concatenation exactly when it occurs in a part.
pub proof fn lemma_any_dot_concat(x: Seq<Seq<u8>>, y: Seq<Seq<u8>>)
    ensures
        any_dot_segment(x + y) == (any_dot_segment(x) || any_dot_segment(y)),
{
    if any_dot_segment(x + y) {
        let i = choose|i: int| 0 <= i < (x + y).len() && is_dot_segment(#[trigger] (x + y)[i]);
        if i < x.len() {
            assert((x + y)[i] == x[i]);
        } else {
            assert((x + y)[i] == y[i - x.len()]);
        }
    }
    if any_dot_segment(x) {
        let i = choose|i: int| 0 <= i < x.len() && is_dot_segment(#[trigger] x[i]);
        assert((x + y)[i] == x[i]);
    }
    if any_dot_segment(y) {
        let i = choose|i: int| 0 <= i < y.len() && is_dot_segment(#[trigger] y[i]);
        assert((x + y)[x.len() + i] == y[i]);
    }
}

/// Joining a relative path onto a base concatenates their components and
/// their dot segments, and keeps the base's absoluteness.
pub proof fn lemma_components_join(base: Seq<u8>, child: Seq<u8>)
    requires
        !is_absolute(child),
    ensures
        components(path_push(base, child)) == components(base) + components(child),
        has_dot_segment(path_push(base, child)) == (has_dot_segment(base) || has_dot_segment(
            child,
        )),
        child.len() > 0 ==> is_absolute(path_push(base, child)) == is_absolute(base),
{
    lemma_raw_segments_shape(base);
    lemma_raw_segments_shape(child);
    let r = raw_segments(base);
    let empty = Seq::<u8>::empty();
    let joined = if base.len() == 0 || base.last() == slash() {
        base
    } else {
        base.push(slash())
    };
    assert(path_push(base, child) == joined + child) by {
        if !(base.len() == 0 || base.last() == slash()) {
            assert(base + seq![slash()] =~= base.push(slash()));
        }
    }
    let rj = raw_segments(joined);
    let rd = rj.drop_last();
    lemma_raw_segments_shape(joined);
    if base.len() == 0 {
        assert(r =~= seq![empty]);
        assert(rj =~= rd.push(empty));
        assert(r =~= rd.push(empty));
    } else if base.last() == slash() {
        assert(base.drop_last().push(slash()) =~= base);
        lemma_raw_segments_append_slash(base.drop_last());
        assert(rj =~= rd.push(empty));
        assert(r =~= rd.push(empty));
    } else {
        lemma_raw_segments_append_slash(base);
        assert(rj =~= r.push(empty));
        assert(rd =~= r);
    }
    let rc = raw_segments(child);
    lemma_raw_segments_concat(joined, child);
    assert(rj.last() + rc[0] =~= rc[0]);
    assert(rc =~= seq![rc[0]] + rc.skip(1));
    assert(raw_segments(joined + child) =~= rd + rc);
    lemma_drop_empty_concat(rd, rc);
    lemma_drop_empty_push(rd, empty);
    lemma_any_dot_concat(rd, rc);
    assert(!is_dot_segment(empty)) by {
        assert(seq![dot()].len() == 1);
        assert(seq![dot(), dot()].len() == 2);
    }
    lemma_any_dot_concat(rd, seq![empty]);
    assert(rd.push(empty) =~= rd + seq![empty]);
    assert(!any_dot_segment(seq![empty])) by {
        if any_dot_segment(seq![empty]) {
            let i = choose|i: int|
                0 <= i < seq![empty].len() && is_dot_segment(#[trigger] seq![empty][i]);
            assert(seq![empty][i] == empty);
        }
    }
    if child.len() > 0 {
        if base.len() > 0 {
            assert((joined + child)[0] == base[0]);
        } else {
            assert(joined + child =~= child);
        }
    }
}

// ---------------------------------------------------------------------------
// Executable helpers
// ---------------------------------------------------------------------------
/// Whether a segment is `.` or `..`.
pub fn is_dot_segment_exec(segment: &[u8]) -> (res: bool)
    ensures
        res == is_dot_segment(segment@),
{
    if segment.len() == 1 {
        let r = segment[0] == 0x2e;
        if r {
            assert(segment@ =~= seq![dot()]);
        }
        r
    } else if segment.len() == 2 {
        let r = segment[0] == 0x2e && segment[1] == 0x2e;
        if r {
            assert(segment@ =~= seq![dot(), dot()]);
        }
        r
    } else {
        false
    }
}

/// Copies a byte slice.
pub fn copy_bytes(bytes: &[u8]) -> (out: Vec<u8>)
    ensures
        out@ == bytes@,
{
    let mut out: Vec<u8> = Vec::new();
    let mut i: usize = 0;
    while i < bytes.len()
        invariant
            i <= bytes@.len(),
            out@ == bytes@.take(i as int),
        decreases bytes@.len() - i,
    {
        out.push(bytes[i]);
        assert(bytes@.take(i + 1) =~= bytes@.take(i as int).push(bytes@[i as int]));
        i = i + 1;
    }
    assert(bytes@.take(i as int) =~= bytes@);
    out
}

/// Appends bytes to a vector.
pub fn append_bytes(out: &mut Vec<u8>, bytes: &[u8])
    ensures
        final(out)@ == old(out)@ + bytes@,
{
    let ghost start = out@;
    let mut i: usize = 0;
    while i < bytes.len()
        invariant
            i <= bytes@.len(),
            out@ == start + bytes@.take(i as int),
        decreases bytes@.len() - i,
    {
        out.push(bytes[i]);
        assert(bytes@.take(i + 1) =~= bytes@.take(i as int).push(bytes@[i as int]));
        i = i + 1;
    }
    assert(bytes@.take(i as int) =~= bytes@);
}

/// Appends `child` to `base` as one path.
pub fn path_push_exec(base: &[u8], child: &[u8]) -> (out: Vec<u8>)
    ensures
        out@ == path_push(base@, child@),
{
    if child.len() > 0 && child[0] == 0x2f {
        return copy_bytes(child);
    }
    let mut out = copy_bytes(base);
    if base.len() > 0 && base[base.len() - 1] != 0x2f {
        out.push(0x2f);
    }
    append_bytes(&mut out, child);
    assert(out@ =~= path_push(base@, child@));
    out
}

/// Whether a path is absolute.
pub fn is_absolute_exec(path: &[u8]) -> (res: bool)
    ensures
        res == is_absolute(path@),
{
    path.len() > 0 && path[0] == 0x2f
}

/// Whether a byte sequence contains `byte`.
pub fn contains_byte(bytes: &[u8], byte: u8) -> (res: bool)
    ensures
        res == bytes@.contains(byte),
{
    let mut i: usize = 0;
    while i < bytes.len()
        invariant
            i <= bytes@.len(),
            forall|j: int| 0 <= j < i ==> bytes@[j] != byte,
        decreases bytes@.len() - i,
    {
        if bytes[i] == byte {
            assert(bytes@[i as int] == byte);
            return true;
        }
        i = i + 1;
    }
    false
}

/// Splits a path into its normal components and reports whether it has a
/// raw `.` or `..` segment.
pub fn scan_path(path: &[u8]) -> (res: (Vec<Vec<u8>>, bool))
    ensures
        views(res.0@) == components(path@),
        res.1 == has_dot_segment(path@),
        forall|i: int| 0 <= i < res.0.len() ==> (#[trigger] res.0@[i])@.len() > 0,
{
    let mut completed: Vec<Vec<u8>> = Vec::new();
    let mut current: Vec<u8> = Vec::new();
    let mut dot_seen = false;
    let mut i: usize = 0;
    let ghost empty = Seq::<u8>::empty();
    assert(path@.take(0) =~= empty);
    assert(raw_segments(empty).drop_last() =~= Seq::<Seq<u8>>::empty());
    assert(views(completed@) =~= Seq::<Seq<u8>>::empty());
    while i < path.len()
        invariant
            i <= path@.len(),
            raw_segments(path@.take(i as int)).len() >= 1,
            views(completed@) == drop_empty(raw_segments(path@.take(i as int)).drop_last()),
            current@ == raw_segments(path@.take(i as int)).last(),
            dot_seen == any_dot_segment(raw_segments(path@.take(i as int)).drop_last()),
            forall|k: int| 0 <= k < completed.len() ==> (#[trigger] completed@[k])@.len() > 0,
        decreases path@.len() - i,
    {
        let ghost rs = raw_segments(path@.take(i as int));
        let ghost next = path@.take(i + 1);
        assert(next.drop_last() =~= path@.take(i as int));
        assert(next.last() == path@[i as int]);
        proof {
            lemma_raw_segments_shape(next);
        }
        let byte = path[i];
        if byte == 0x2f {
            assert(raw_segments(next) == rs.push(Seq::<u8>::empty()));
            assert(raw_segments(next).drop_last() =~= rs);
            assert(rs =~= rs.drop_last().push(rs.last()));
            proof {
                lemma_drop_empty_push(rs.drop_last(), rs.last());
            }
            let is_dot = is_dot_segment_exec(current.as_slice());
            assert(any_dot_segment(rs) == (any_dot_segment(rs.drop_last()) || is_dot_segment(
                rs.last(),
            ))) by {
                if any_dot_segment(rs) {
                    let k = choose|k: int| 0 <= k < rs.len() && is_dot_segment(#[trigger] rs[k]);
                    if k < rs.len() - 1 {
                        assert(rs.drop_last()[k] == rs[k]);
                    }
                }
                if any_dot_segment(rs.drop_last()) {
                    let k = choose|k: int|
                        0 <= k < rs.drop_last().len() && is_dot_segment(
                            #[trigger] rs.drop_last()[k],
                        );
                    assert(rs[k] == rs.drop_last()[k]);
                }
            }
            dot_seen = dot_seen || is_dot;
            if current.len() > 0 {
                let segment = current;
                let ghost old_view = views(completed@);
                completed.push(segment);
                assert(views(completed@) =~= old_view.push(rs.last()));
            }
            current = Vec::new();
            assert(current@ =~= Seq::<u8>::empty());
        } else {
            let ghost updated = rs.update(rs.len() - 1, rs.last().push(byte));
            assert(raw_segments(next) == updated);
            assert(updated.drop_last() =~= rs.drop_last());
            current.push(byte);
        }
        i = i + 1;
    }
    let ghost rs = raw_segments(path@.take(i as int));
    assert(path@.take(i as int) =~= path@);
    assert(rs =~= rs.drop_last().push(rs.last()));
    proof {
        lemma_drop_empty_push(rs.drop_last(), rs.last());
    }
    let is_dot = is_dot_segment_exec(current.as_slice());
    assert(any_dot_segment(rs) == (any_dot_segment(rs.drop_last()) || is_dot_segment(rs.last())))
        by {
        if any_dot_segment(rs) {
            let k = choose|k: int| 0 <= k < rs.len() && is_dot_segment(#[trigger] rs[k]);
            if k < rs.len() - 1 {
                assert(rs.drop_last()[k] == rs[k]);
            }
        }
        if any_dot_segment(rs.drop_last()) {
            let k = choose|k: int|
                0 <= k < rs.drop_last().len() && is_dot_segment(#[trigger] rs.drop_last()[k]);
            assert(rs[k] == rs.drop_last()[k]);
        }
    }
    if current.len() > 0 {
        let ghost old_view = views(completed@);
        completed.push(current);
        assert(views(completed@) =~= old_view.push(rs.last()));
    }
    (completed, dot_seen || is_dot)
}

} // verus!
