//! Where a source lands when it is copied into a destination directory.
use vstd::prelude::*;
use crate::text::{join_path, same_text, spec_join_path};

verus! {

pub open spec fn trim_trailing_slashes(s: Seq<char>) -> Seq<char>
    decreases s.len(),
{
    if s.len() > 0 && s.last() == '/' {
        trim_trailing_slashes(s.drop_last())
    } else {
        s
    }
}

/// The characters after the last '/' of `s`.
pub open spec fn last_segment(s: Seq<char>) -> Seq<char>
    decreases s.len(),
{
    if s.len() == 0 || s.last() == '/' {
        Seq::empty()
    } else {
        last_segment(s.drop_last()).push(s.last())
    }
}

/// The final component of a path, trailing separators ignored; none for an
/// empty path, the root, `.` or `..`.
pub open spec fn spec_file_name(p: Seq<char>) -> Option<Seq<char>> {
    let seg = last_segment(trim_trailing_slashes(p));
    if seg.len() == 0 || seg == "."@ || seg == ".."@ {
        None
    } else {
        Some(seg)
    }
}

/// The final component of `path`.
pub fn file_name(path: &str) -> (r: Option<String>)
    ensures
        match r {
            Some(n) => spec_file_name(path@) == Some(n@),
            None => spec_file_name(path@) is None,
        },
{
    let s = path;
    let n = s.unicode_len();
    let mut end: usize = n;
    assert(s@.take(n as int) =~= s@);
    while end > 0 && s.get_char(end - 1) == '/'
        invariant
            end <= n,
            n == s@.len(),
            trim_trailing_slashes(s@) == trim_trailing_slashes(s@.take(end as int)),
        decreases end,
    {
        assert(s@.take(end as int).drop_last() =~= s@.take(end - 1));
        end = end - 1;
    }
    let mut start: usize = end;
    assert(s@.subrange(end as int, end as int) =~= Seq::<char>::empty());
    assert(last_segment(s@.take(end as int)) =~= last_segment(s@.take(end as int)) + s@.subrange(
        end as int,
        end as int,
    ));
    while start > 0 && s.get_char(start - 1) != '/'
        invariant
            start <= end <= n,
            n == s@.len(),
            last_segment(s@.take(end as int)) == last_segment(s@.take(start as int)) + s@.subrange(
                start as int,
                end as int,
            ),
        decreases start,
    {
        assert(s@.take(start as int).drop_last() =~= s@.take(start - 1));
        assert(s@.subrange(start - 1, end as int) =~= seq![s@[start - 1]] + s@.subrange(
            start as int,
            end as int,
        ));
        assert(last_segment(s@.take(start - 1)).push(s@[start - 1]) + s@.subrange(start as int, end as int)
            =~= last_segment(s@.take(start - 1)) + s@.subrange(start - 1, end as int));
        start = start - 1;
    }
    if start == 0 {
        assert(s@.take(0) =~= Seq::<char>::empty());
    }
    assert(last_segment(s@.take(start as int)) =~= Seq::<char>::empty());
    assert(trim_trailing_slashes(s@.take(end as int)) == s@.take(end as int));
    let seg = s.substring_char(start, end);
    assert(seg@ =~= last_segment(trim_trailing_slashes(s@)));
    if start == end || same_text(seg, ".") || same_text(seg, "..") {
        None
    } else {
        Some(String::from_str(seg))
    }
}

pub open spec fn spec_target_in_directory(dir: Seq<char>, source: Seq<char>) -> Option<Seq<char>> {
    match spec_file_name(source) {
        Some(name) => Some(spec_join_path(dir, name)),
        None => None,
    }
}

/// `dir/<file name of source>`, the place a source takes inside a destination
/// directory; none when the source has no file name.
pub fn target_in_directory(dir: &str, source: &str) -> (r: Option<String>)
    ensures
        match r {
            Some(t) => spec_target_in_directory(dir@, source@) == Some(t@),
            None => spec_target_in_directory(dir@, source@) is None,
        },
{
    match file_name(source) {
        Some(name) => Some(join_path(dir, name.as_str())),
        None => None,
    }
}

} // verus!
