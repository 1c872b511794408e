//! File system paths as text: joining components and replacing an
//! extension, as `std::path::Path::join` and `Path::with_extension` do
//! for '/'-separated paths.
use vstd::prelude::*;

use crate::text::{push_chars, string_of, string_of_range, to_chars};

verus! {

/// `base` joined with `part`: `part` itself when it is absolute or `base`
/// is empty, otherwise the two with one '/' between them.
pub open spec fn path_join(base: Seq<char>, part: Seq<char>) -> Seq<char> {
    if part.len() > 0 && part[0] == '/' {
        part
    } else if base.len() == 0 {
        part
    } else if base.last() == '/' {
        base + part
    } else {
        base + seq!['/'] + part
    }
}

/// `base` joined with each of `parts` in turn.
pub open spec fn path_join_all(base: Seq<char>, parts: Seq<Seq<char>>) -> Seq<char>
    decreases parts.len(),
{
    if parts.len() == 0 {
        base
    } else {
        path_join(path_join_all(base, parts.drop_last()), parts.last())
    }
}

/// The path without trailing separators and trailing "." components.
pub open spec fn trim_path_end(p: Seq<char>) -> Seq<char>
    decreases p.len(),
{
    if p.len() > 1 && p.last() == '/' {
        trim_path_end(p.drop_last())
    } else if p.len() >= 2 && p.last() == '.' && p[p.len() - 2] == '/' {
        trim_path_end(p.drop_last())
    } else {
        p
    }
}

/// Where the last component of `t` starts: just after its last '/'.
pub open spec fn name_start(t: Seq<char>) -> int
    decreases t.len(),
{
    if t.len() == 0 {
        0
    } else if t.last() == '/' {
        t.len() as int
    } else {
        name_start(t.drop_last())
    }
}

/// The index of the last '.' of `name`, or -1.
pub open spec fn last_dot(name: Seq<char>) -> int
    decreases name.len(),
{
    if name.len() == 0 {
        -1
    } else if name.last() == '.' {
        name.len() - 1
    } else {
        last_dot(name.drop_last())
    }
}

/// The file name of `p` (its last component), when it has one.
pub open spec fn file_name(p: Seq<char>) -> Option<Seq<char>> {
    let t = trim_path_end(p);
    let name = t.subrange(name_start(t), t.len() as int);
    if name.len() == 0 || name == seq!['.'] || name == seq!['.', '.'] {
        None
    } else {
        Some(name)
    }
}

/// `p` with the extension of its file name replaced by `ext` (added when
/// there is none; an empty `ext` removes it). A path without a file name is
/// left as it is.
pub open spec fn with_extension(p: Seq<char>, ext: Seq<char>) -> Seq<char> {
    let t = trim_path_end(p);
    let start = name_start(t);
    let name = t.subrange(start, t.len() as int);
    if file_name(p) is None {
        p
    } else {
        let stem_len = if last_dot(name) > 0 { last_dot(name) } else { name.len() as int };
        t.subrange(0, start + stem_len) + if ext.len() > 0 { seq!['.'] + ext } else { seq![] }
    }
}

/// `base` joined with `part` (see [`path_join`]).
pub fn join_path(base: &str, part: &str) -> (r: String)
    ensures
        r@ == path_join(base@, part@),
{
    let b = to_chars(base);
    let p = to_chars(part);
    if p.len() > 0 && p[0] == '/' {
        return string_of(p.as_slice());
    }
    if b.len() == 0 {
        return string_of(p.as_slice());
    }
    let mut r = string_of(b.as_slice());
    if b[b.len() - 1] != '/' {
        push_chars(&mut r, &['/']);
    }
    push_chars(&mut r, p.as_slice());
    r
}

proof fn lemma_trim_path_end_step(v: Seq<char>, end: int)
    requires
        0 <= end <= v.len(),
    ensures
        end > 1 && v[end - 1] == '/' ==> trim_path_end(v.take(end)) == trim_path_end(v.take(end - 1)),
        end >= 2 && v[end - 1] == '.' && v[end - 2] == '/' ==> trim_path_end(v.take(end)) == trim_path_end(v.take(end - 1)),
        !(end > 1 && v[end - 1] == '/') && !(end >= 2 && v[end - 1] == '.' && v[end - 2] == '/')
            ==> trim_path_end(v.take(end)) == v.take(end),
{
    if end > 0 {
        assert(v.take(end).drop_last() =~= v.take(end - 1));
    }
}

fn trimmed_end(v: &[char]) -> (end: usize)
    ensures
        end <= v@.len(),
        v@.take(end as int) == trim_path_end(v@),
{
    let mut end = v.len();
    proof {
        assert(v@.take(end as int) =~= v@);
    }
    while end > 1 && (v[end - 1] == '/' || (end >= 2 && v[end - 1] == '.' && v[end - 2] == '/'))
        invariant
            end <= v@.len(),
            trim_path_end(v@.take(end as int)) == trim_path_end(v@),
        decreases end,
    {
        proof {
            lemma_trim_path_end_step(v@, end as int);
        }
        end -= 1;
    }
    proof {
        lemma_trim_path_end_step(v@, end as int);
    }
    end
}

fn name_start_index(v: &[char], end: usize) -> (start: usize)
    requires
        end <= v@.len(),
    ensures
        start <= end,
        start == name_start(v@.take(end as int)),
{
    let ghost t = v@.take(end as int);
    let mut start = end;
    assert(t.take(start as int) =~= t);
    while start > 0 && v[start - 1] != '/'
        invariant
            start <= end <= v@.len(),
            t == v@.take(end as int),
            name_start(t) == name_start(t.take(start as int)),
        decreases start,
    {
        assert(t.take(start as int).drop_last() =~= t.take(start - 1));
        start -= 1;
    }
    if start > 0 {
        assert(t.take(start as int).last() == '/');
    }
    start
}

fn last_dot_in(v: &[char], start: usize, end: usize) -> (k: usize)
    requires
        start <= end <= v@.len(),
    ensures
        start <= k <= end,
        last_dot(v@.subrange(start as int, end as int)) == if k > start { k - start - 1 } else { -1 },
{
    let ghost name = v@.subrange(start as int, end as int);
    let mut k = end;
    assert(name.take(k - start) =~= name);
    while k > start && v[k - 1] != '.'
        invariant
            start <= k <= end <= v@.len(),
            name == v@.subrange(start as int, end as int),
            last_dot(name) == last_dot(name.take(k - start)),
        decreases k,
    {
        assert(name.take(k - start).drop_last() =~= name.take(k - start - 1));
        k -= 1;
    }
    if k > start {
        assert(name.take(k - start).last() == '.');
    }
    k
}

/// `path` with the extension of its file name replaced by `ext` (see
/// [`with_extension`]).
pub fn replace_extension(path: &str, ext: &str) -> (r: String)
    ensures
        r@ == with_extension(path@, ext@),
{
    let v = to_chars(path);
    let e = to_chars(ext);
    let end = trimmed_end(v.as_slice());
    let ghost t = v@.take(end as int);
    let start = name_start_index(v.as_slice(), end);
    let ghost name = t.subrange(start as int, end as int);
    assert(name =~= v@.subrange(start as int, end as int));
    let name_len = end - start;
    let is_dot = name_len == 1 && v[start] == '.';
    let is_dot_dot = name_len == 2 && v[start] == '.' && v[start + 1] == '.';
    if name_len == 0 || is_dot || is_dot_dot {
        proof {
            if name_len == 1 && is_dot {
                assert(name =~= seq!['.']);
            }
            if name_len == 2 && is_dot_dot {
                assert(name =~= seq!['.', '.']);
            }
        }
        return string_of(v.as_slice());
    }
    proof {
        if name_len == 1 {
            assert(name[0] != '.');
        }
        if name_len == 2 {
            assert(!(name[0] == '.' && name[1] == '.'));
        }
        assert(file_name(path@) is Some);
    }
    let k = last_dot_in(v.as_slice(), start, end);
    let stem_end = if k > start + 1 { k - 1 } else { end };
    let mut r = string_of_range(v.as_slice(), 0, stem_end);
    if e.len() > 0 {
        push_chars(&mut r, &['.']);
        push_chars(&mut r, e.as_slice());
    }
    proof {
        assert(t.subrange(0, stem_end as int) =~= v@.subrange(0, stem_end as int));
    }
    r
}

/// The file name of `path` (see [`file_name`]).
pub fn file_name_string(path: &str) -> (r: Option<String>)
    ensures
        r is Some <==> file_name(path@) is Some,
        r is Some ==> r.unwrap()@ == file_name(path@).unwrap(),
{
    let v = to_chars(path);
    let end = trimmed_end(v.as_slice());
    let ghost t = v@.take(end as int);
    let start = name_start_index(v.as_slice(), end);
    let ghost name = t.subrange(start as int, end as int);
    assert(name =~= v@.subrange(start as int, end as int));
    let name_len = end - start;
    let is_dot = name_len == 1 && v[start] == '.';
    let is_dot_dot = name_len == 2 && v[start] == '.' && v[start + 1] == '.';
    if name_len == 0 || is_dot || is_dot_dot {
        proof {
            if name_len == 1 && is_dot {
                assert(name =~= seq!['.']);
            }
            if name_len == 2 && is_dot_dot {
                assert(name =~= seq!['.', '.']);
            }
        }
        return None;
    }
    proof {
        if name_len == 1 {
            assert(name[0] != '.');
        }
        if name_len == 2 {
            assert(!(name[0] == '.' && name[1] == '.'));
        }
    }
    Some(string_of_range(v.as_slice(), start, end))
}

} // verus!
