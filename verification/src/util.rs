//! Small verified helpers shared by the registries and the pipeline:
//! views of header/cookie pair lists and cloning of plain values.

use vstd::prelude::*;

verus! {

/// The view of a list of string pairs: each pair as its pair of character
/// sequences. Header and cookie contracts are stated over this.
pub open spec fn pair_views(s: Seq<(String, String)>) -> Seq<(Seq<char>, Seq<char>)> {
    s.map_values(|p: (String, String)| (p.0@, p.1@))
}

/// Clone an optional string, preserving its view.
pub fn clone_opt_string(o: &Option<String>) -> (r: Option<String>)
    ensures
        r.deep_view() == o.deep_view(),
        r is Some <==> o is Some,
{
    match o {
        Some(s) => Some(s.clone()),
        None => None,
    }
}

/// Clone a byte vector.
pub fn clone_bytes(v: &Vec<u8>) -> (r: Vec<u8>)
    ensures
        r@ == v@,
{
    let mut out: Vec<u8> = Vec::new();
    let mut i: usize = 0;
    while i < v.len()
        invariant
            i <= v.len(),
            out@ == v@.subrange(0, i as int),
        decreases v.len() - i,
    {
        out.push(v[i]);
        i = i + 1;
        proof {
            assert(out@ =~= v@.subrange(0, i as int));
        }
    }
    proof {
        assert(out@ =~= v@);
    }
    out
}

/// Clone a vector of string pairs, preserving its view.
pub fn clone_pairs(src: &Vec<(String, String)>) -> (r: Vec<(String, String)>)
    ensures
        pair_views(r@) == pair_views(src@),
{
    let mut out: Vec<(String, String)> = Vec::new();
    let mut i: usize = 0;
    while i < src.len()
        invariant
            i <= src.len(),
            out@.len() == i,
            forall|j: int|
                0 <= j < i ==> (#[trigger] out@[j]).0@ == src@[j].0@ && out@[j].1@ == src@[j].1@,
        decreases src.len() - i,
    {
        let (k, v) = (&src[i].0, &src[i].1);
        out.push((k.clone(), v.clone()));
        i = i + 1;
    }
    proof {
        assert(pair_views(out@) =~= pair_views(src@));
    }
    out
}

/// Append clones of `src`'s pairs to `dst`, in order.
pub fn append_pairs(dst: &mut Vec<(String, String)>, src: &Vec<(String, String)>)
    ensures
        pair_views(final(dst)@) == pair_views(old(dst)@) + pair_views(src@),
{
    let n = dst.len();
    let mut i: usize = 0;
    while i < src.len()
        invariant
            i <= src.len(),
            dst@.len() == n + i,
            n == old(dst)@.len(),
            forall|j: int|
                0 <= j < n ==> (#[trigger] dst@[j]).0@ == old(dst)@[j].0@ && dst@[j].1@ == old(
                    dst,
                )@[j].1@,
            forall|j: int|
                0 <= j < i ==> (#[trigger] dst@[n + j]).0@ == src@[j].0@ && dst@[n + j].1@
                    == src@[j].1@,
        decreases src.len() - i,
    {
        let (k, v) = (&src[i].0, &src[i].1);
        dst.push((k.clone(), v.clone()));
        i = i + 1;
    }
    proof {
        assert forall|j: int| 0 <= j < dst@.len() implies pair_views(dst@)[j] == (pair_views(
            old(dst)@,
        ) + pair_views(src@))[j] by {
            if n <= j {
                assert(dst@[n + (j - n)].0@ == src@[j - n].0@);
                assert(dst@[n + (j - n)].1@ == src@[j - n].1@);
            }
        }
        assert(pair_views(dst@) =~= pair_views(old(dst)@) + pair_views(src@));
    }
}

} // verus!
