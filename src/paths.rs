//! Paths as text with `/` between their components.
use crate::text::{contains_char, has_char, join_with, joined, str_eq};
use vstd::prelude::*;
use vstd::string::*;

verus! {

/// The position of the last `/` of `s`, or -1 where it has none.
pub open spec fn last_sep(s: Seq<char>) -> int
    decreases s.len(),
{
    if s.len() == 0 {
        -1
    } else if s.last() == '/' {
        s.len() - 1
    } else {
        last_sep(s.drop_last())
    }
}

pub(crate) proof fn lemma_last_sep_bounds(s: Seq<char>)
    ensures
        -1 <= last_sep(s) < s.len(),
        last_sep(s) >= 0 ==> s[last_sep(s)] == '/',
        forall|j: int| last_sep(s) < j < s.len() ==> s[j] != '/',
    decreases s.len(),
{
    if s.len() > 0 && s.last() != '/' {
        lemma_last_sep_bounds(s.drop_last());
        assert forall|j: int| last_sep(s) < j < s.len() implies s[j] != '/' by {
            if j < s.len() - 1 {
                assert(s.drop_last()[j] == s[j]);
            }
        }
    }
}

/// The directory that holds `s`: what comes before its last `/` (the root
/// `/` itself where that is the first character), or the empty path.
pub open spec fn parent_of(s: Seq<char>) -> Seq<char> {
    let i = last_sep(s);
    if i < 0 {
        Seq::empty()
    } else if i == 0 {
        s.take(1)
    } else {
        s.take(i)
    }
}

/// The last component of `s`: what comes after its last `/`.
pub open spec fn file_name_of(s: Seq<char>) -> Seq<char> {
    s.skip(last_sep(s) + 1)
}

/// The directory against which the files that a resource pattern yields are
/// placed: the pattern's parent where it holds a wildcard, else the pattern.
pub open spec fn base_dir_of(pattern: Seq<char>) -> Seq<char> {
    if has_char(pattern, '*') {
        parent_of(pattern)
    } else {
        pattern
    }
}

/// `s` with the leading components `base` taken off, where `s` lies under `base`.
pub open spec fn strip_prefix_of(s: Seq<char>, base: Seq<char>) -> Option<Seq<char>> {
    if base.len() == 0 {
        Some(s)
    } else if s == base {
        Some(Seq::empty())
    } else if s.len() > base.len() && s.take(base.len() as int) == base {
        if base.last() == '/' {
            Some(s.skip(base.len() as int))
        } else if s[base.len() as int] == '/' {
            Some(s.skip(base.len() + 1int))
        } else {
            None
        }
    } else {
        None
    }
}

/// `b` appended to `a` as a further component; an absolute `b` replaces `a`.
pub open spec fn join_of(a: Seq<char>, b: Seq<char>) -> Seq<char> {
    if b.len() > 0 && b[0] == '/' {
        b
    } else if a.len() == 0 {
        b
    } else if a.last() == '/' {
        a + b
    } else {
        a + seq!['/'] + b
    }
}

/// What a component of a path becomes in a relative resource path: nothing
/// for an empty or `.` component, `_up_` for `..`, else itself.
pub open spec fn relative_component(c: Seq<char>) -> Seq<Seq<char>> {
    if c.len() == 0 || c == "."@ {
        Seq::empty()
    } else if c == ".."@ {
        seq!["_up_"@]
    } else {
        seq![c]
    }
}

/// The components of the rest `s` of a path, added to `done`, where `cur`
/// is the part of the current component read so far.
pub open spec fn relative_components(s: Seq<char>, done: Seq<Seq<char>>, cur: Seq<char>) -> Seq<
    Seq<char>,
>
    decreases s.len(),
{
    if s.len() == 0 {
        done + relative_component(cur)
    } else if s[0] == '/' {
        relative_components(s.skip(1), done + relative_component(cur), Seq::empty())
    } else {
        relative_components(s.skip(1), done, cur.push(s[0]))
    }
}

/// The relative path at which a resource file is placed when its mapping
/// names no destination: its components, with the root written `_root_`,
/// each `..` written `_up_`, and `.` left out.
pub open spec fn resource_relpath_of(s: Seq<char>) -> Seq<char> {
    let start = if s.len() > 0 && s[0] == '/' {
        seq!["_root_"@]
    } else {
        Seq::empty()
    };
    joined(relative_components(s, start, Seq::empty()), "/"@)
}

/// Where a file `src` that the resource pattern `pattern` yielded is placed
/// under `output_base`, for a mapping whose destination directory is `dst`.
pub open spec fn resource_destination_of(
    output_base: Seq<char>,
    pattern: Seq<char>,
    dst: Seq<char>,
    src: Seq<char>,
) -> Seq<char> {
    if dst.len() == 0 {
        join_of(output_base, resource_relpath_of(src))
    } else {
        let rel = match strip_prefix_of(src, base_dir_of(pattern)) {
            Some(r) => r,
            None => file_name_of(src),
        };
        join_of(join_of(output_base, dst), rel)
    }
}

fn substring(s: &str, from: usize, to: usize) -> (r: String)
    requires
        from <= to <= s@.len(),
    ensures
        r@ == s@.subrange(from as int, to as int),
{
    s.substring_char(from, to).to_owned()
}

/// The position of the last `/` of `s`.
fn last_separator(s: &str) -> (r: Option<usize>)
    ensures
        r matches Some(i) ==> i == last_sep(s@),
        r is None ==> last_sep(s@) == -1,
{
    let n = s.unicode_len();
    let mut i: usize = n;
    assert(s@.take(n as int) =~= s@);
    while i > 0
        invariant
            i <= n == s@.len(),
            last_sep(s@) == last_sep(s@.take(i as int)),
        decreases i,
    {
        proof {
            assert(s@.take(i as int).drop_last() =~= s@.take(i - 1));
        }
        if s.get_char(i - 1) == '/' {
            return Some(i - 1);
        }
        i = i - 1;
    }
    None
}

pub fn parent_dir(s: &str) -> (r: String)
    ensures
        r@ == parent_of(s@),
{
    proof {
        lemma_last_sep_bounds(s@);
    }
    match last_separator(s) {
        None => String::new(),
        Some(i) => if i == 0 {
            substring(s, 0, 1)
        } else {
            substring(s, 0, i)
        },
    }
}

pub fn file_name(s: &str) -> (r: String)
    ensures
        r@ == file_name_of(s@),
{
    proof {
        lemma_last_sep_bounds(s@);
    }
    let n = s.unicode_len();
    match last_separator(s) {
        None => substring(s, 0, n),
        Some(i) => substring(s, i + 1, n),
    }
}

pub fn base_dir(pattern: &str) -> (r: String)
    ensures
        r@ == base_dir_of(pattern@),
{
    if contains_char(pattern, '*') {
        parent_dir(pattern)
    } else {
        pattern.to_owned()
    }
}

/// Whether `s` begins with `p`.
pub fn starts_with(s: &str, p: &str) -> (r: bool)
    ensures
        r == (p@.len() <= s@.len() && s@.take(p@.len() as int) == p@),
{
    let n = p.unicode_len();
    if n > s.unicode_len() {
        return false;
    }
    let mut i: usize = 0;
    while i < n
        invariant
            n == p@.len() <= s@.len(),
            i <= n,
            forall|j: int| 0 <= j < i ==> s@[j] == p@[j],
        decreases n - i,
    {
        if s.get_char(i) != p.get_char(i) {
            assert(s@.take(n as int)[i as int] != p@[i as int]);
            return false;
        }
        i = i + 1;
    }
    assert(s@.take(n as int) =~= p@);
    true
}

pub fn strip_path_prefix(s: &str, base: &str) -> (r: Option<String>)
    ensures
        r.deep_view() == strip_prefix_of(s@, base@),
{
    let n = s.unicode_len();
    let m = base.unicode_len();
    if m == 0 {
        return Some(s.to_owned());
    }
    if str_eq(s, base) {
        return Some(String::new());
    }
    if n > m && starts_with(s, base) {
        if base.get_char(m - 1) == '/' {
            Some(substring(s, m, n))
        } else if s.get_char(m) == '/' {
            Some(substring(s, m + 1, n))
        } else {
            None
        }
    } else {
        None
    }
}

pub fn join_path(a: &str, b: &str) -> (r: String)
    ensures
        r@ == join_of(a@, b@),
{
    let n = a.unicode_len();
    if b.unicode_len() > 0 && b.get_char(0) == '/' {
        b.to_owned()
    } else if n == 0 {
        b.to_owned()
    } else if a.get_char(n - 1) == '/' {
        let mut r = a.to_owned();
        r.append(b);
        r
    } else {
        let mut r = a.to_owned();
        r.append("/");
        proof {
            reveal_strlit("/");
        }
        r.append(b);
        r
    }
}

fn push_relative_component(out: &mut Vec<String>, c: String)
    ensures
        final(out).deep_view() == old(out).deep_view() + relative_component(c@),
{
    proof {
        reveal_strlit(".");
        reveal_strlit("..");
        reveal_strlit("_up_");
    }
    if c.as_str().is_empty() || str_eq(c.as_str(), ".") {
        assert(final(out).deep_view() =~= old(out).deep_view() + Seq::empty());
    } else if str_eq(c.as_str(), "..") {
        out.push(String::from_str("_up_"));
        assert(final(out).deep_view() =~= old(out).deep_view() + seq!["_up_"@]);
    } else {
        out.push(c);
        assert(final(out).deep_view() =~= old(out).deep_view() + seq![c@]);
    }
}

/// The relative path at which a resource is placed when its mapping names
/// no destination.
pub fn resource_relpath(s: &str) -> (r: String)
    ensures
        r@ == resource_relpath_of(s@),
{
    let n = s.unicode_len();
    let mut out: Vec<String> = Vec::new();
    if n > 0 && s.get_char(0) == '/' {
        out.push(String::from_str("_root_"));
    }
    let ghost start = out.deep_view();
    assert(start =~= (if s@.len() > 0 && s@[0] == '/' {
        seq!["_root_"@]
    } else {
        Seq::<Seq<char>>::empty()
    }));
    let mut seg_start: usize = 0;
    let mut i: usize = 0;
    assert(s@.skip(0) =~= s@);
    assert(s@.subrange(0, 0) =~= Seq::<char>::empty());
    while i < n
        invariant
            n == s@.len(),
            seg_start <= i <= n,
            relative_components(s@, start, Seq::empty()) == relative_components(
                s@.skip(i as int),
                out.deep_view(),
                s@.subrange(seg_start as int, i as int),
            ),
        decreases n - i,
    {
        let c = s.get_char(i);
        proof {
            assert(s@.skip(i as int)[0] == c);
            assert(s@.skip(i as int).skip(1) =~= s@.skip(i + 1));
        }
        if c == '/' {
            let seg = substring(s, seg_start, i);
            push_relative_component(&mut out, seg);
            seg_start = i + 1;
            assert(s@.subrange(seg_start as int, i + 1) =~= Seq::<char>::empty());
        } else {
            assert(s@.subrange(seg_start as int, i as int).push(c) =~= s@.subrange(
                seg_start as int,
                i + 1,
            ));
        }
        i = i + 1;
    }
    let seg = substring(s, seg_start, n);
    push_relative_component(&mut out, seg);
    join_with(&out, "/")
}

/// Where a file `src` that the resource pattern `pattern` yielded is placed
/// under `output_base`, for a mapping whose destination directory is `dst`:
/// with no destination, at its relative resource path; else under `dst`, at
/// its path below the pattern's base directory, or by its file name alone
/// where it does not lie below that directory.
pub fn resource_destination(output_base: &str, pattern: &str, dst: &str, src: &str) -> (r: String)
    ensures
        r@ == resource_destination_of(output_base@, pattern@, dst@, src@),
{
    if dst.unicode_len() == 0 {
        let rel = resource_relpath(src);
        join_path(output_base, rel.as_str())
    } else {
        let base = base_dir(pattern);
        let rel = match strip_path_prefix(src, base.as_str()) {
            Some(r) => r,
            None => file_name(src),
        };
        let dir = join_path(output_base, dst);
        join_path(dir.as_str(), rel.as_str())
    }
}

proof fn lemma_last_sep_past(a: Seq<char>, tail: Seq<char>)
    requires
        !has_char(tail, '/'),
    ensures
        last_sep(a + tail) == last_sep(a),
    decreases tail.len(),
{
    if tail.len() == 0 {
        assert(a + tail =~= a);
    } else {
        assert((a + tail).drop_last() =~= a + tail.drop_last());
        assert(tail.last() == tail[tail.len() - 1]);
        assert(!has_char(tail.drop_last(), '/')) by {
            assert forall|j: int| 0 <= j < tail.drop_last().len() implies tail.drop_last()[j]
                != '/' by {
                assert(tail.drop_last()[j] == tail[j]);
            }
        }
        lemma_last_sep_past(a, tail.drop_last());
    }
}

/// A file found below the directory of a wildcard pattern keeps its path
/// below that directory: it is placed at that same path under the mapping's
/// destination. (The pattern is a directory `dir` and a last component
/// `last` that holds a wildcard; the file is `dir` followed by `rest`.)
pub proof fn lemma_path_preserved(
    output_base: Seq<char>,
    dir: Seq<char>,
    last: Seq<char>,
    dst: Seq<char>,
    rest: Seq<char>,
)
    requires
        dir.len() > 0,
        dir.last() != '/',
        has_char(last, '*'),
        !has_char(last, '/'),
        dst.len() > 0,
    ensures
        resource_destination_of(output_base, dir + seq!['/'] + last, dst, dir + seq!['/'] + rest)
            == join_of(join_of(output_base, dst), rest),
{
    let pattern = dir + seq!['/'] + last;
    let src = dir + seq!['/'] + rest;
    let d = dir + seq!['/'];
    assert(d.drop_last() =~= dir);
    assert(last_sep(d) == dir.len());
    lemma_last_sep_past(d, last);
    assert(pattern =~= d + last);
    let w = choose|j: int| 0 <= j < last.len() && last[j] == '*';
    assert(pattern[d.len() + w] == '*');
    assert(has_char(pattern, '*'));
    assert(pattern.take(dir.len() as int) =~= dir);
    assert(base_dir_of(pattern) == dir);
    assert(src.take(dir.len() as int) =~= dir);
    assert(src[dir.len() as int] == '/');
    assert(src.skip(dir.len() + 1int) =~= rest);
    assert(src != dir) by {
        assert(src.len() != dir.len());
    }
}

} // verus!
