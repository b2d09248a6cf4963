//! WebSocket upgrade headers. The upgrade is fingerprint-sensitive: a
//! fixed, ordered list of standard header names must reach the wire in
//! Title-Case, with a user-supplied header's casing taking precedence for
//! a matching name. Also the single coalesced Cookie header that
//! session-bound upgrades append.

use vstd::prelude::*;
use crate::chars::{str_ci_eq, strs_ci_eq};
use crate::cookies::{
    coalesce_cookie_values,
    coalesced_cookies,
    cookie_pair_value,
    cookie_value_strings,
    strs_views,
};

verus! {

/// The ordered standard header names of a browser-shaped upgrade request,
/// in their canonical Title-Case.
pub open spec fn spec_standard_upgrade_names() -> Seq<Seq<char>> {
    seq![
        "Host"@,
        "Connection"@,
        "Pragma"@,
        "Cache-Control"@,
        "User-Agent"@,
        "Upgrade"@,
        "Origin"@,
        "Sec-WebSocket-Version"@,
        "Accept-Encoding"@,
        "Accept-Language"@,
        "Accept"@,
        "Cookie"@,
        "Sec-WebSocket-Key"@,
        "Sec-WebSocket-Extensions"@,
        "Sec-WebSocket-Protocol"@,
        "Sec-Fetch-Dest"@,
        "Sec-Fetch-Mode"@,
        "Sec-Fetch-Site"@,
        "Sec-Fetch-User"@,
    ]
}

/// The canonical list as strings.
pub fn standard_upgrade_names() -> (r: Vec<String>)
    ensures
        r@.len() == spec_standard_upgrade_names().len(),
        forall|i: int|
            0 <= i < r@.len() ==> (#[trigger] r@[i])@ == spec_standard_upgrade_names()[i],
{
    let mut v: Vec<String> = Vec::new();
    v.push(String::from_str("Host"));
    v.push(String::from_str("Connection"));
    v.push(String::from_str("Pragma"));
    v.push(String::from_str("Cache-Control"));
    v.push(String::from_str("User-Agent"));
    v.push(String::from_str("Upgrade"));
    v.push(String::from_str("Origin"));
    v.push(String::from_str("Sec-WebSocket-Version"));
    v.push(String::from_str("Accept-Encoding"));
    v.push(String::from_str("Accept-Language"));
    v.push(String::from_str("Accept"));
    v.push(String::from_str("Cookie"));
    v.push(String::from_str("Sec-WebSocket-Key"));
    v.push(String::from_str("Sec-WebSocket-Extensions"));
    v.push(String::from_str("Sec-WebSocket-Protocol"));
    v.push(String::from_str("Sec-Fetch-Dest"));
    v.push(String::from_str("Sec-Fetch-Mode"));
    v.push(String::from_str("Sec-Fetch-Site"));
    v.push(String::from_str("Sec-Fetch-User"));
    v
}

/// The names of a header list, in order.
pub open spec fn header_name_views(headers: Seq<(String, String)>) -> Seq<Seq<char>> {
    headers.map_values(|p: (String, String)| p.0@)
}

/// The first name in a list that equals the target up to ASCII case.
pub open spec fn first_ci_match(names: Seq<Seq<char>>, target: Seq<char>) -> Option<Seq<char>>
    decreases names.len(),
{
    if names.len() == 0 {
        None
    } else if str_ci_eq(names.first(), target) {
        Some(names.first())
    } else {
        first_ci_match(names.drop_first(), target)
    }
}

/// The casing the upgrade uses for one standard name: the first matching
/// user-supplied name if there is one, else the canonical Title-Case.
pub open spec fn chosen_casing(user_names: Seq<Seq<char>>, standard: Seq<char>) -> Seq<char> {
    match first_ci_match(user_names, standard) {
        Some(n) => n,
        None => standard,
    }
}

/// Find the first user header whose name matches the target up to ASCII
/// case, and hand its name back.
fn find_user_casing(user: &Vec<(String, String)>, target: &String) -> (r: Option<String>)
    ensures
        r matches Some(n) ==> first_ci_match(header_name_views(user@), target@) == Some(n@),
        r is None ==> first_ci_match(header_name_views(user@), target@) is None,
{
    let mut i: usize = 0;
    proof {
        assert(header_name_views(user@).skip(0) =~= header_name_views(user@));
    }
    while i < user.len()
        invariant
            i <= user@.len(),
            first_ci_match(header_name_views(user@), target@) == first_ci_match(
                header_name_views(user@).skip(i as int),
                target@,
            ),
        decreases user@.len() - i,
    {
        let ghost names = header_name_views(user@);
        proof {
            assert(names.skip(i as int).first() == user@[i as int].0@);
        }
        if strs_ci_eq(user[i].0.as_str(), target.as_str()) {
            return Some(user[i].0.clone());
        }
        i = i + 1;
        proof {
            assert(names.skip(i - 1).drop_first() =~= names.skip(i as int));
        }
    }
    proof {
        assert(header_name_views(user@).skip(user@.len() as int) =~= Seq::<Seq<char>>::empty());
    }
    None
}

/// The ordered header names an upgrade request sends: every standard name
/// in its canonical order, each in the user's casing where the user named
/// it and in Title-Case otherwise.
pub fn ws_upgrade_header_names(user: &Vec<(String, String)>) -> (r: Vec<String>)
    ensures
        r@.len() == spec_standard_upgrade_names().len(),
        forall|i: int|
            0 <= i < r@.len() ==> (#[trigger] r@[i])@ == chosen_casing(
                header_name_views(user@),
                spec_standard_upgrade_names()[i],
            ),
{
    let standard = standard_upgrade_names();
    let mut out: Vec<String> = Vec::new();
    let mut i: usize = 0;
    while i < standard.len()
        invariant
            standard@.len() == spec_standard_upgrade_names().len(),
            forall|j: int|
                0 <= j < standard@.len() ==> (#[trigger] standard@[j])@
                    == spec_standard_upgrade_names()[j],
            i <= standard@.len(),
            out@.len() == i,
            forall|j: int|
                0 <= j < i ==> (#[trigger] out@[j])@ == chosen_casing(
                    header_name_views(user@),
                    spec_standard_upgrade_names()[j],
                ),
        decreases standard@.len() - i,
    {
        let name = match find_user_casing(user, &standard[i]) {
            Some(n) => n,
            None => standard[i].clone(),
        };
        out.push(name);
        i = i + 1;
    }
    out
}

/// The single Cookie header value a session-bound upgrade appends: the
/// user-supplied cookie values first, then the jar's pairs as
/// `name=value`, each segment trimmed, empties dropped, joined with
/// `"; "`. `None` when nothing remains.
pub fn ws_cookie_header(user_values: &Vec<String>, jar_pairs: &Vec<(String, String)>) -> (r:
    Option<String>)
    ensures
        ({
            let merged = strs_views(user_values@) + jar_pairs@.map_values(
                |p: (String, String)| cookie_pair_value(p.0@, p.1@),
            );
            &&& (r matches Some(s) ==> s@ == coalesced_cookies(merged) && s@.len() > 0)
            &&& (r is None <==> coalesced_cookies(merged).len() == 0)
        }),
{
    let mut values: Vec<String> = Vec::new();
    let mut i: usize = 0;
    while i < user_values.len()
        invariant
            i <= user_values@.len(),
            values@.len() == i,
            forall|j: int| 0 <= j < i ==> (#[trigger] values@[j])@ == user_values@[j]@,
        decreases user_values@.len() - i,
    {
        values.push(user_values[i].clone());
        i = i + 1;
    }
    let mut jar_values = cookie_value_strings(jar_pairs);
    let ghost n_user = values@.len();
    let ghost jar_vals = jar_values@;
    values.append(&mut jar_values);
    proof {
        assert(strs_views(values@) =~= strs_views(user_values@) + jar_pairs@.map_values(
            |p: (String, String)| cookie_pair_value(p.0@, p.1@),
        ));
    }
    let joined = coalesce_cookie_values(&values);
    if joined.as_str().is_empty() {
        None
    } else {
        Some(joined)
    }
}

} // verus!
