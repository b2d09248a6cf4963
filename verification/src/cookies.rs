//! The cookie jar model and the coalescing of cookie header values for
//! WebSocket upgrades: each value trimmed, empty segments dropped, the rest
//! joined with `"; "`.

use vstd::prelude::*;
use crate::chars::trimmed;
use crate::chars::trim_str;
use crate::util::pair_views;
use crate::util::append_pairs;
use crate::util::clone_pairs;

verus! {

/// A session's cookie jar, viewed as the ordered pairs it has absorbed.
/// Matching cookies against a request's URL is the transport's business;
/// the jar records what was set and supplies it back.
#[derive(Debug)]
pub struct CookieJar {
    cookies: Vec<(String, String)>,
}

impl View for CookieJar {
    type V = Seq<(Seq<char>, Seq<char>)>;

    closed spec fn view(&self) -> Self::V {
        pair_views(self.cookies@)
    }
}

impl Default for CookieJar {
    /// An empty jar.
    fn default() -> (r: Self)
        ensures
            r@ == Seq::<(Seq<char>, Seq<char>)>::empty(),
    {
        let r = CookieJar { cookies: Vec::new() };
        proof {
            assert(r@ =~= Seq::<(Seq<char>, Seq<char>)>::empty());
        }
        r
    }
}

impl CookieJar {
    /// Empty the jar, keeping it usable.
    pub fn clear(&mut self)
        ensures
            final(self)@ == Seq::<(Seq<char>, Seq<char>)>::empty(),
    {
        self.cookies.clear();
        proof {
            assert(self@ =~= Seq::<(Seq<char>, Seq<char>)>::empty());
        }
    }

    /// Absorb observed Set-Cookie pairs, in order, after what is already
    /// there.
    pub fn absorb(&mut self, pairs: &Vec<(String, String)>)
        ensures
            final(self)@ == old(self)@ + pair_views(pairs@),
    {
        append_pairs(&mut self.cookies, pairs);
    }

    /// A copy of the jar's pairs, in order.
    pub fn snapshot(&self) -> (r: Vec<(String, String)>)
        ensures
            pair_views(r@) == self@,
    {
        clone_pairs(&self.cookies)
    }
}

/// The views of a list of strings.
pub open spec fn strs_views(s: Seq<String>) -> Seq<Seq<char>> {
    s.map_values(|x: String| x@)
}

/// The single Cookie header value obtained from a list of raw values: each
/// trimmed, empty segments dropped, the rest joined with `"; "`.
pub open spec fn coalesced_cookies(vals: Seq<Seq<char>>) -> Seq<char>
    decreases vals.len(),
{
    if vals.len() == 0 {
        Seq::empty()
    } else {
        let rest = coalesced_cookies(vals.drop_last());
        let t = trimmed(vals.last());
        if t.len() == 0 {
            rest
        } else if rest.len() == 0 {
            t
        } else {
            rest + seq![';', ' '] + t
        }
    }
}

/// Coalesce raw cookie header values into one header value.
pub fn coalesce_cookie_values(values: &Vec<String>) -> (r: String)
    ensures
        r@ == coalesced_cookies(strs_views(values@)),
{
    let mut out = String::new();
    let mut i: usize = 0;
    while i < values.len()
        invariant
            i <= values@.len(),
            out@ == coalesced_cookies(strs_views(values@.subrange(0, i as int))),
        decreases values@.len() - i,
    {
        let t = trim_str(values[i].as_str());
        let ghost pre = out@;
        if !t.as_str().is_empty() {
            if !out.as_str().is_empty() {
                out.append("; ");
                proof {
                    reveal_strlit("; ");
                    assert("; "@ =~= seq![';', ' ']);
                }
            }
            out.append(t.as_str());
        }
        i = i + 1;
        proof {
            let vs = strs_views(values@.subrange(0, i as int));
            assert(vs.drop_last() =~= strs_views(values@.subrange(0, i - 1)));
            assert(vs.last() == values@[i - 1]@);
            assert(out@ == coalesced_cookies(vs));
        }
    }
    proof {
        assert(values@.subrange(0, values@.len() as int) =~= values@);
    }
    out
}

/// The cookie header value of one stored pair: `name=value`.
pub open spec fn cookie_pair_value(k: Seq<char>, v: Seq<char>) -> Seq<char> {
    k + seq!['='] + v
}

/// Render the jar's pairs as `name=value` strings, in order.
pub fn cookie_value_strings(pairs: &Vec<(String, String)>) -> (r: Vec<String>)
    ensures
        r@.len() == pairs@.len(),
        forall|i: int|
            0 <= i < r@.len() ==> (#[trigger] r@[i])@ == cookie_pair_value(
                pairs@[i].0@,
                pairs@[i].1@,
            ),
{
    let mut out: Vec<String> = Vec::new();
    let mut i: usize = 0;
    while i < pairs.len()
        invariant
            i <= pairs@.len(),
            out@.len() == i,
            forall|j: int|
                0 <= j < i ==> (#[trigger] out@[j])@ == cookie_pair_value(
                    pairs@[j].0@,
                    pairs@[j].1@,
                ),
        decreases pairs@.len() - i,
    {
        let mut s = pairs[i].0.clone();
        s.append("=");
        s.append(pairs[i].1.as_str());
        proof {
            reveal_strlit("=");
            assert("="@ =~= seq!['=']);
        }
        out.push(s);
        i = i + 1;
    }
    out
}

} // verus!
