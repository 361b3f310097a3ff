use vstd::prelude::*;

verus! {

/// Reads `s` left to right, splitting on `/`: the segments closed so far, and
/// the run of characters since the last `/`.
pub open spec fn split_state(s: Seq<char>) -> (Seq<Seq<char>>, Seq<char>)
    decreases s.len(),
{
    if s.len() == 0 {
        (Seq::empty(), Seq::empty())
    } else {
        let prev = split_state(s.drop_last());
        if s.last() == '/' {
            if prev.1.len() > 0 {
                (prev.0.push(prev.1), Seq::empty())
            } else {
                (prev.0, Seq::empty())
            }
        } else {
            (prev.0, prev.1.push(s.last()))
        }
    }
}

/// The non-empty segments of a path, in order: `/` separates them, and empty
/// segments (from leading, trailing or repeated slashes) are dropped.
pub open spec fn path_segments(s: Seq<char>) -> Seq<Seq<char>> {
    let st = split_state(s);
    if st.1.len() > 0 {
        st.0.push(st.1)
    } else {
        st.0
    }
}

/// A sequence of segments as a request path is made of: none empty, none
/// holding a `/`.
pub open spec fn well_formed_segments(segs: Seq<Seq<char>>) -> bool {
    forall|k: int, j: int|
        0 <= k < segs.len() && 0 <= j < segs[k].len() ==> #[trigger] segs[k][j] != '/' && segs[k].len() > 0
}

proof fn lemma_split_state_well_formed(s: Seq<char>)
    ensures
        well_formed_segments(split_state(s).0),
        forall|j: int| 0 <= j < split_state(s).1.len() ==> #[trigger] split_state(s).1[j] != '/',
    decreases s.len(),
{
    if s.len() > 0 {
        lemma_split_state_well_formed(s.drop_last());
    }
}

/// Every segment that `path_segments` yields is non-empty and free of `/`.
pub proof fn lemma_path_segments_well_formed(s: Seq<char>)
    ensures
        well_formed_segments(path_segments(s)),
{
    lemma_split_state_well_formed(s);
}

/// Splits a request path into its non-empty segments, dropping leading,
/// trailing and repeated slashes.
pub fn split_path(path: &str) -> (r: Vec<&str>)
    ensures
        r@.map_values(|x: &str| x@) == path_segments(path@),
{
    let n = path.unicode_len();
    let mut r: Vec<&str> = Vec::new();
    let mut start: usize = 0;
    let mut i: usize = 0;
    while i < n
        invariant
            n == path@.len(),
            start <= i <= n,
            split_state(path@.subrange(0, i as int)).0 == r@.map_values(|x: &str| x@),
            split_state(path@.subrange(0, i as int)).1 == path@.subrange(start as int, i as int),
        decreases n - i,
    {
        let c = path.get_char(i);
        proof {
            let next = path@.subrange(0, i + 1);
            assert(next.drop_last() =~= path@.subrange(0, i as int));
            assert(next.last() == c);
            assert(path@.subrange(start as int, i + 1) =~= path@.subrange(start as int, i as int).push(c));
        }
        if c == '/' {
            if start < i {
                let seg = path.substring_char(start, i);
                r.push(seg);
                assert(r@.map_values(|x: &str| x@) =~= split_state(path@.subrange(0, i + 1)).0);
            }
            start = i + 1;
            assert(path@.subrange(start as int, i + 1) =~= Seq::<char>::empty());
        }
        i = i + 1;
    }
    assert(path@.subrange(0, n as int) =~= path@);
    if start < n {
        let seg = path.substring_char(start, n);
        r.push(seg);
        assert(r@.map_values(|x: &str| x@) =~= path_segments(path@));
    }
    r
}

} // verus!
