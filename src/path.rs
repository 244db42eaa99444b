//! Paths as text: prefix stripping against a root and file extensions.
//!
//! Paths are handled as `/`-separated character sequences, so the names
//! sent to the game look the same whatever the host's separator convention.
use vstd::prelude::*;

verus! {

/// A path segment is kept when it is neither empty (a doubled or trailing
/// separator) nor `.`.
pub open spec fn kept(seg: Seq<char>) -> bool {
    seg.len() > 0 && seg != seq!['.']
}

/// `done` with `seg` appended where `seg` is kept.
pub open spec fn push_kept(done: Seq<Seq<char>>, seg: Seq<char>) -> Seq<Seq<char>> {
    if kept(seg) {
        done.push(seg)
    } else {
        done
    }
}

/// Left-to-right scan of a path: the kept segments closed by a separator so
/// far, and the segment still open.
pub open spec fn scan(s: Seq<char>) -> (Seq<Seq<char>>, Seq<char>)
    decreases s.len(),
{
    if s.len() == 0 {
        (seq![], seq![])
    } else {
        let (done, open) = scan(s.drop_last());
        if s.last() == '/' {
            (push_kept(done, open), seq![])
        } else {
            (done, open.push(s.last()))
        }
    }
}

/// The segments of a path between its separators, without empty and `.`
/// segments: `/a//./b/` has the segments `a` and `b`.
pub open spec fn segments(s: Seq<char>) -> Seq<Seq<char>> {
    push_kept(scan(s).0, scan(s).1)
}

/// A path is absolute when it starts with a separator.
pub open spec fn is_absolute(s: Seq<char>) -> bool {
    s.len() > 0 && s[0] == '/'
}

/// Segments joined with single separators.
pub open spec fn join(parts: Seq<Seq<char>>) -> Seq<char>
    decreases parts.len(),
{
    if parts.len() == 0 {
        seq![]
    } else if parts.len() == 1 {
        parts[0]
    } else {
        join(parts.drop_last()) + seq!['/'] + parts.last()
    }
}

/// A path lies under a root when both are absolute or both relative, and
/// the root's segments are the first segments of the path.
pub open spec fn is_under(root: Seq<char>, path: Seq<char>) -> bool {
    let r = segments(root);
    let p = segments(path);
    &&& is_absolute(root) == is_absolute(path)
    &&& r.len() <= p.len()
    &&& p.subrange(0, r.len() as int) == r
}

/// The name of a path under a root, relative to that root: the path's
/// segments after the root's, joined with `/`.
pub open spec fn relative_name(root: Seq<char>, path: Seq<char>) -> Seq<char> {
    join(segments(path).subrange(segments(root).len() as int, segments(path).len() as int))
}

/// A text holds no separator.
pub open spec fn plain(seg: Seq<char>) -> bool {
    forall|i: int| 0 <= i < seg.len() ==> seg[i] != '/'
}

/// Scanning on through text without separators only extends the open segment.
proof fn lemma_scan_plain_suffix(s: Seq<char>, t: Seq<char>)
    requires
        plain(t),
    ensures
        scan(s + t) == (scan(s).0, scan(s).1 + t),
    decreases t.len(),
{
    if t.len() == 0 {
        assert(s + t =~= s);
        assert(scan(s).1 + t =~= scan(s).1);
    } else {
        lemma_scan_plain_suffix(s, t.drop_last());
        assert((s + t).drop_last() =~= s + t.drop_last());
        assert((s + t).last() == t.last());
        assert((scan(s).1 + t.drop_last()).push(t.last()) =~= scan(s).1 + t);
    }
}

/// Every closed segment of a scan is kept and plain, and the open segment
/// holds no separator.
proof fn lemma_scan_parts_plain(s: Seq<char>)
    ensures
        forall|i: int|
            0 <= i < scan(s).0.len() ==> kept(#[trigger] scan(s).0[i]) && plain(scan(s).0[i]),
        plain(scan(s).1),
    decreases s.len(),
{
    if s.len() > 0 {
        lemma_scan_parts_plain(s.drop_last());
        let (done, open) = scan(s.drop_last());
        if s.last() != '/' {
            assert forall|i: int| 0 <= i < open.push(s.last()).len() implies open.push(
                s.last(),
            )[i] != '/' by {
                if i < open.len() {
                    assert(open.push(s.last())[i] == open[i]);
                }
            }
        }
    }
}

/// The segments of a path are kept and hold no separator.
proof fn lemma_segments_plain(s: Seq<char>)
    ensures
        forall|i: int|
            0 <= i < segments(s).len() ==> kept(#[trigger] segments(s)[i]) && plain(segments(s)[i]),
{
    lemma_scan_parts_plain(s);
}

/// Joining kept, plain segments and splitting the result gives them back.
proof fn lemma_segments_of_join(parts: Seq<Seq<char>>)
    requires
        forall|i: int| 0 <= i < parts.len() ==> kept(#[trigger] parts[i]) && plain(parts[i]),
    ensures
        segments(join(parts)) == parts,
    decreases parts.len(),
{
    if parts.len() == 0 {
        assert(segments(join(parts)) =~= parts);
    } else if parts.len() == 1 {
        let empty: Seq<char> = seq![];
        lemma_scan_plain_suffix(empty, parts[0]);
        assert(empty + parts[0] =~= parts[0]);
        assert(seq![] + parts[0] =~= parts[0]);
        assert(seq![].push(parts[0]) =~= parts);
    } else {
        let init = parts.drop_last();
        let last = parts.last();
        lemma_segments_of_join(init);
        let j = join(init);
        let js = j + seq!['/'];
        assert(js.drop_last() =~= j);
        assert(scan(js) == (segments(j), Seq::<char>::empty()));
        lemma_scan_plain_suffix(js, last);
        assert(join(parts) == js + last);
        assert(Seq::<char>::empty() + last =~= last);
        assert(init.push(last) =~= parts);
    }
}

/// For a path under a root, the root's segments followed by those of the
/// relative name are exactly the path's segments: nothing is lost or added
/// in between.
pub proof fn root_and_relative_name_rebuild_the_path(root: Seq<char>, path: Seq<char>)
    requires
        is_under(root, path),
    ensures
        segments(root) + segments(relative_name(root, path)) == segments(path),
{
    let r = segments(root);
    let p = segments(path);
    let rest = p.subrange(r.len() as int, p.len() as int);
    lemma_segments_plain(path);
    assert forall|i: int| 0 <= i < rest.len() implies kept(#[trigger] rest[i]) && plain(rest[i]) by {
        assert(rest[i] == p[i + r.len()]);
    }
    lemma_segments_of_join(rest);
    assert(r + rest =~= p);
}

/// Index of the last occurrence of `c` in `s`, or -1 where there is none.
pub open spec fn last_index_of(s: Seq<char>, c: char) -> int
    decreases s.len(),
{
    if s.len() == 0 {
        -1
    } else if s.last() == c {
        s.len() - 1
    } else {
        last_index_of(s.drop_last(), c)
    }
}

/// The file name of a path: what follows its last separator. A path that
/// ends in a separator names a directory, and its file name is empty.
pub open spec fn file_name_of(path: Seq<char>) -> Seq<char> {
    path.subrange(last_index_of(path, '/') + 1, path.len() as int)
}

/// The extension of a path: what follows the last `.` of its file name,
/// where that `.` is not the name's first character. The name `..` has none.
pub open spec fn extension_of(path: Seq<char>) -> Option<Seq<char>> {
    let name = file_name_of(path);
    let dot = last_index_of(name, '.');
    if dot <= 0 || name == seq!['.', '.'] {
        None
    } else {
        Some(name.subrange(dot + 1, name.len() as int))
    }
}

proof fn lemma_last_index_of_bounds(s: Seq<char>, c: char)
    ensures
        -1 <= last_index_of(s, c) < s.len(),
        last_index_of(s, c) >= 0 ==> s[last_index_of(s, c)] == c,
    decreases s.len(),
{
    if s.len() > 0 && s.last() != c {
        lemma_last_index_of_bounds(s.drop_last(), c);
    }
}

/// Appends `seg` to `done` where it is kept.
fn push_segment(done: &mut Vec<String>, seg: &str)
    ensures
        final(done).deep_view() == push_kept(old(done).deep_view(), seg@),
{
    let n = seg.unicode_len();
    if n == 0 {
        return;
    }
    if n == 1 && seg.get_char(0) == '.' {
        assert(seg@ =~= seq!['.']);
        return;
    }
    assert(seg@ != seq!['.']) by {
        if seg@ == seq!['.'] {
            assert(seg@[0] == '.');
        }
    }
    let ghost before = done.deep_view();
    done.push(String::from_str(seg));
    assert(done.deep_view() =~= before.push(seg@));
}

/// The segments of `s` (see [segments]).
fn split_segments(s: &str) -> (r: Vec<String>)
    ensures
        r.deep_view() == segments(s@),
{
    let len = s.unicode_len();
    let mut done: Vec<String> = Vec::new();
    let mut start: usize = 0;
    let mut i: usize = 0;
    assert(s@.subrange(0, 0) =~= Seq::<char>::empty());
    assert(s@.subrange(0, 0) =~= seq![]);
    while i < len
        invariant
            start <= i <= len,
            len == s@.len(),
            scan(s@.subrange(0, i as int)) == (done.deep_view(), s@.subrange(start as int, i as int)),
        decreases len - i,
    {
        let c = s.get_char(i);
        assert(s@.subrange(0, i + 1).drop_last() =~= s@.subrange(0, i as int));
        assert(s@.subrange(0, i + 1).last() == c);
        if c == '/' {
            push_segment(&mut done, s.substring_char(start, i));
            start = i + 1;
            assert(s@.subrange(start as int, i + 1) =~= seq![]);
        } else {
            assert(s@.subrange(start as int, i + 1) =~= s@.subrange(start as int, i as int).push(c));
        }
        i = i + 1;
    }
    assert(s@.subrange(0, len as int) =~= s@);
    push_segment(&mut done, s.substring_char(start, len));
    done
}

/// Whether `s` starts with a separator.
fn starts_with_separator(s: &str) -> (r: bool)
    ensures
        r == is_absolute(s@),
{
    s.unicode_len() > 0 && s.get_char(0) == '/'
}

/// Position of the last `c` among the first `end` characters of `s`.
fn find_last(s: &str, end: usize, c: char) -> (r: Option<usize>)
    requires
        end <= s@.len(),
    ensures
        match r {
            Some(i) => last_index_of(s@.subrange(0, end as int), c) == i,
            None => last_index_of(s@.subrange(0, end as int), c) == -1,
        },
{
    let mut i = end;
    while i > 0
        invariant
            i <= end <= s@.len(),
            last_index_of(s@.subrange(0, end as int), c) == last_index_of(
                s@.subrange(0, i as int),
                c,
            ),
        decreases i,
    {
        if s.get_char(i - 1) == c {
            return Some(i - 1);
        }
        assert(s@.subrange(0, i as int).drop_last() =~= s@.subrange(0, i - 1));
        i = i - 1;
    }
    None
}

/// Strips `root` from the front of `path`, yielding the name relative to it,
/// or `None` where `path` does not lie under `root`.
pub fn strip_root(root: &str, path: &str) -> (r: Option<String>)
    ensures
        match r {
            Some(name) => is_under(root@, path@) && name@ == relative_name(root@, path@),
            None => !is_under(root@, path@),
        },
{
    if starts_with_separator(root) != starts_with_separator(path) {
        return None;
    }
    let stem = split_segments(root);
    let parts = split_segments(path);
    let ghost r = stem.deep_view();
    let ghost p = parts.deep_view();
    if stem.len() > parts.len() {
        return None;
    }
    let n = stem.len();
    let mut k: usize = 0;
    while k < n
        invariant
            k <= n <= parts.len(),
            n == stem.len(),
            r == stem.deep_view(),
            p == parts.deep_view(),
            r == segments(root@),
            p == segments(path@),
            forall|j: int| 0 <= j < k ==> r[j] == p[j],
        decreases n - k,
    {
        assert(r[k as int] == stem@[k as int]@ && p[k as int] == parts@[k as int]@);
        if !(stem[k] == parts[k]) {
            assert(p.subrange(0, n as int)[k as int] != r[k as int]);
            return None;
        }
        k = k + 1;
    }
    assert(p.subrange(0, n as int) =~= r);
    let mut name = String::new();
    let mut i: usize = n;
    proof {
        reveal_strlit("/");
    }
    assert(p.subrange(n as int, n as int) =~= seq![]);
    while i < parts.len()
        invariant
            n <= i <= parts.len(),
            p == parts.deep_view(),
            name@ == join(p.subrange(n as int, i as int)),
            p == segments(path@),
            n == segments(root@).len(),
            is_under(root@, path@),
            "/"@ == seq!['/'],
        decreases parts.len() - i,
    {
        assert(p.subrange(n as int, i + 1).drop_last() =~= p.subrange(n as int, i as int));
        if i > n {
            name.append("/");
        } else {
            assert(name@ =~= seq![]);
        }
        name.append(parts[i].as_str());
        assert(name@ =~= join(p.subrange(n as int, i + 1)));
        i = i + 1;
    }
    Some(name)
}

/// The extension of `path`, as `extension_of` describes it.
pub fn file_extension(path: &str) -> (r: Option<String>)
    ensures
        r.deep_view() == extension_of(path@),
{
    let end = path.unicode_len();
    assert(path@.subrange(0, end as int) =~= path@);
    let slash = find_last(path, end, '/');
    proof {
        lemma_last_index_of_bounds(path@, '/');
    }
    let name_start: usize = match slash {
        Some(i) => i + 1,
        None => 0,
    };
    let name = path.substring_char(name_start, end);
    let ghost name_view = file_name_of(path@);
    assert(name@ =~= name_view);
    let name_len = name.unicode_len();
    let dot = find_last(name, name_len, '.');
    assert(name@.subrange(0, name_len as int) =~= name@);
    match dot {
        None => None,
        Some(d) => {
            if d == 0 {
                return None;
            }
            if name_len == 2 && name.get_char(0) == '.' && name.get_char(1) == '.' {
                assert(name@ =~= seq!['.', '.']);
                return None;
            }
            assert(name@ != seq!['.', '.']);
            proof {
                lemma_last_index_of_bounds(name@, '.');
            }
            Some(String::from_str(name.substring_char(d + 1, name_len)))
        },
    }
}

} // verus!
