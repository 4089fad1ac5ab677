//! After a move: the order in which emptied source directories are removed.
use vstd::prelude::*;
use vstd::utf8::encode_utf8;
use crate::plan::DirectoryTask;

verus! {

broadcast use vstd::seq_lib::group_to_multiset_ensures;

/// A path component starts at byte `i`: a non-separator that begins the
/// path or follows a separator, except a `.` component after the first
/// position, which paths leave out.
pub open spec fn component_starts_at(b: Seq<u8>, i: int) -> bool {
    b[i] != 0x2fu8 && (i == 0 || (b[i - 1] == 0x2fu8 && !(b[i] == 0x2eu8 && (i + 1 == b.len() || b[i
        + 1] == 0x2fu8))))
}

/// Components of `b` that start before position `n`.
pub open spec fn segment_starts(b: Seq<u8>, n: int) -> nat
    decreases n,
{
    if n <= 0 {
        0
    } else {
        segment_starts(b, n - 1) + if component_starts_at(b, n - 1) {
            1nat
        } else {
            0nat
        }
    }
}

/// Depth of a path given as bytes: its components (non-empty segments, a
/// `.` counted only in first position), plus one for a leading root separator.
pub open spec fn path_depth(b: Seq<u8>) -> nat {
    segment_starts(b, b.len() as int) + if b.len() > 0 && b[0] == 0x2fu8 {
        1nat
    } else {
        0nat
    }
}

pub open spec fn depth_of(p: String) -> nat {
    path_depth(encode_utf8(p@))
}

/// The source paths of the directory tasks that have one, in plan order.
pub open spec fn removal_candidates(dirs: Seq<DirectoryTask>) -> Seq<String>
    decreases dirs.len(),
{
    if dirs.len() == 0 {
        Seq::empty()
    } else {
        let prev = removal_candidates(dirs.drop_last());
        match dirs.last().source {
            Some(s) => prev.push(s),
            None => prev,
        }
    }
}

/// Depth of a path, by its UTF-8 bytes.
pub fn path_depth_of(p: &String) -> (r: usize)
    ensures
        r == depth_of(*p),
{
    let b = p.as_str().as_bytes();
    let n = b.len();
    let mut count: usize = 0;
    let mut i: usize = 0;
    while i < n
        invariant
            i <= n,
            n == b@.len(),
            b@ == encode_utf8(p@),
            count == segment_starts(b@, i as int),
            count <= i,
            i > 0 && b@[0] == 0x2fu8 ==> count < i,
        decreases n - i,
    {
        if b[i] != 0x2fu8 && (i == 0 || (b[i - 1] == 0x2fu8 && !(b[i] == 0x2eu8 && (i + 1 == n
            || b[i + 1] == 0x2fu8)))) {
            count = count + 1;
        }
        i = i + 1;
    }
    if n > 0 && b[0] == 0x2fu8 {
        count + 1
    } else {
        count
    }
}

/// The source directories to try to remove after a move, deepest first, so
/// that a parent comes only after its children.
pub fn removal_order(dirs: &Vec<DirectoryTask>) -> (r: Vec<String>)
    ensures
        r@.to_multiset() == removal_candidates(dirs@).to_multiset(),
        forall|i: int, j: int| 0 <= i < j < r@.len() ==> depth_of(#[trigger] r@[i]) >= depth_of(#[trigger] r@[j]),
{
    let mut order: Vec<String> = Vec::new();
    let mut depths: Vec<usize> = Vec::new();
    let n = dirs.len();
    let mut k: usize = 0;
    while k < n
        invariant
            k <= n,
            n == dirs@.len(),
            order@.len() == depths@.len(),
            forall|i: int| 0 <= i < order@.len() ==> depths@[i] == depth_of(#[trigger] order@[i]),
            forall|i: int, j: int| 0 <= i < j < depths@.len() ==> #[trigger] depths@[i] >= #[trigger] depths@[j],
            order@.to_multiset() == removal_candidates(dirs@.take(k as int)).to_multiset(),
        decreases n - k,
    {
        let ghost prev = dirs@.take(k as int);
        assert(dirs@.take(k + 1).drop_last() =~= prev);
        match &dirs[k].source {
            Some(s) => {
                let d = path_depth_of(s);
                let m = depths.len();
                let mut pos: usize = 0;
                while pos < m && depths[pos] >= d
                    invariant
                        pos <= m,
                        m == depths@.len(),
                        forall|i: int| 0 <= i < pos ==> #[trigger] depths@[i] >= d,
                    decreases m - pos,
                {
                    pos = pos + 1;
                }
                let ghost old_depths = depths@;
                let ghost old_order = order@;
                proof {
                    assert forall|i: int| pos <= i < m implies #[trigger] depths@[i] < d by {
                        if i > pos {
                            assert(depths@[pos as int] >= depths@[i]);
                        }
                    }
                }
                order.insert(pos, s.clone());
                depths.insert(pos, d);
                proof {
                    assert forall|i: int| 0 <= i < order@.len() implies depths@[i] == depth_of(
                        #[trigger] order@[i],
                    ) by {
                        if i < pos {
                            assert(order@[i] == old_order[i]);
                        } else if i > pos {
                            assert(order@[i] == old_order[i - 1]);
                        }
                    }
                    assert forall|i: int, j: int| 0 <= i < j < depths@.len() implies #[trigger] depths@[i]
                        >= #[trigger] depths@[j] by {
                        if i < pos && j > pos {
                            assert(old_depths[i] >= d);
                        } else if i == pos && j > pos {
                            assert(old_depths[j - 1] < d);
                        } else if i < pos && j == pos {
                            assert(old_depths[i] >= d);
                        } else if i > pos {
                            assert(old_depths[i - 1] >= old_depths[j - 1]);
                        } else {
                            assert(old_depths[i] >= old_depths[j]);
                        }
                    }
                    assert(removal_candidates(dirs@.take(k + 1)) == removal_candidates(prev).push(*s));
                }
            },
            None => {
                assert(removal_candidates(dirs@.take(k + 1)) == removal_candidates(prev));
            },
        }
        k = k + 1;
    }
    assert(dirs@.take(n as int) =~= dirs@);
    proof {
        assert forall|i: int, j: int| 0 <= i < j < order@.len() implies depth_of(#[trigger] order@[i])
            >= depth_of(#[trigger] order@[j]) by {
            assert(depths@[i] >= depths@[j]);
        }
    }
    order
}

} // verus!
