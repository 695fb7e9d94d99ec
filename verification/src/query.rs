//! Parsing the query string of the one captured redirect request.
//!
//! The request's URL is split at its first `?`; the piece up to the
//! next `?` (or the end) is the query string, whose `&`-separated
//! entries each contribute a key/value pair when they contain `=`.
//! When a key occurs twice the later occurrence wins.  The redirect is
//! accepted when both `code` and `state` are present.

use vstd::prelude::*;

use crate::errors::AuthError;
use crate::text::{find_char, find_in, lemma_find_in, str_eq};

verus! {

/// The prefix of `s` up to (excluding) the first occurrence of `c`,
/// or all of `s` when `c` does not occur.
pub open spec fn before(s: Seq<char>, c: char) -> Seq<char> {
    if find_in(s, c) < 0 {
        s
    } else {
        s.take(find_in(s, c))
    }
}

/// The suffix of `s` after the first occurrence of `c`, when `c`
/// occurs at all.
pub open spec fn after(s: Seq<char>, c: char) -> Option<Seq<char>> {
    if find_in(s, c) < 0 {
        None
    } else {
        Some(s.skip(find_in(s, c) + 1))
    }
}

/// The query string of a request URL: what stands between the first
/// `?` and the next `?` or the end; empty when the URL has no `?`.
pub open spec fn query_of(url: Seq<char>) -> Seq<char> {
    match after(url, '?') {
        None => Seq::empty(),
        Some(rest) => before(rest, '?'),
    }
}

/// The key/value pair of one query entry: the part before the first
/// `=` and the part between the first and a second `=`; an entry
/// without `=` contributes nothing.
pub open spec fn pair_of(entry: Seq<char>) -> Option<(Seq<char>, Seq<char>)> {
    match after(entry, '=') {
        None => None,
        Some(rest) => Some((before(entry, '='), before(rest, '='))),
    }
}

/// A pair as a sequence of zero or one elements.
pub open spec fn opt_pair(p: Option<(Seq<char>, Seq<char>)>) -> Seq<(Seq<char>, Seq<char>)> {
    match p {
        None => Seq::empty(),
        Some(kv) => seq![kv],
    }
}

/// Every key/value pair of a query string, in order of occurrence.
pub open spec fn params_of(q: Seq<char>) -> Seq<(Seq<char>, Seq<char>)>
    decreases q.len(),
    via params_of_decreases
{
    match after(q, '&') {
        None => opt_pair(pair_of(q)),
        Some(rest) => opt_pair(pair_of(before(q, '&'))) + params_of(rest),
    }
}

#[via_fn]
proof fn params_of_decreases(q: Seq<char>) {
    lemma_find_in(q, '&');
}

/// The value bound to `key`, the last occurrence winning.
pub open spec fn lookup_param(pairs: Seq<(Seq<char>, Seq<char>)>, key: Seq<char>) -> Option<
    Seq<char>,
>
    decreases pairs.len(),
{
    if pairs.len() == 0 {
        None
    } else {
        match lookup_param(pairs.drop_first(), key) {
            Some(v) => Some(v),
            None => if pairs[0].0 == key {
                Some(pairs[0].1)
            } else {
                None
            },
        }
    }
}

/// What the URL's query string binds `key` to, if anything.
pub open spec fn query_param(url: Seq<char>, key: Seq<char>) -> Option<Seq<char>> {
    lookup_param(params_of(query_of(url)), key)
}

/// The authorization code and anti-forgery state captured from the one
/// inbound redirect.
#[derive(Clone, Debug, PartialEq, Eq)]
pub struct AuthRedirect {
    /// The short-lived authorization code to exchange for a token.
    pub code: String,
    /// The state token echoed back by the authorization server.
    pub state: String,
}

/// The prefix of `s` before the first `c`.
fn before_char<'a>(s: &'a str, c: char) -> (r: &'a str)
    ensures
        r@ == before(s@, c),
{
    proof {
        lemma_find_in(s@, c);
    }
    match find_char(s, c) {
        None => {
            proof {
                assert(s@.subrange(0, s@.len() as int) =~= s@);
            }
            s.substring_char(0, s.unicode_len())
        },
        Some(i) => {
            let r = s.substring_char(0, i);
            proof {
                assert(r@ =~= before(s@, c));
            }
            r
        },
    }
}

/// The suffix of `s` after the first `c`, when `c` occurs.
fn after_char<'a>(s: &'a str, c: char) -> (r: Option<&'a str>)
    ensures
        match r {
            None => after(s@, c) is None,
            Some(rest) => after(s@, c) == Some(rest@) && rest@.len() < s@.len(),
        },
{
    proof {
        lemma_find_in(s@, c);
    }
    let n: usize = s.unicode_len();
    match find_char(s, c) {
        None => None,
        Some(i) => {
            let r = s.substring_char(i + 1, n);
            proof {
                assert(r@ =~= s@.skip(find_in(s@, c) + 1));
            }
            Some(r)
        },
    }
}

/// The query string of the URL, as [`query_of`] gives it.
fn query_slice<'a>(url: &'a str) -> (q: &'a str)
    ensures
        q@ == query_of(url@),
{
    match after_char(url, '?') {
        None => {
            let empty = "";
            proof {
                reveal_strlit("");
                assert(empty@ =~= query_of(url@));
            }
            empty
        },
        Some(rest) => before_char(rest, '?'),
    }
}

/// The key/value pair of one query entry, as [`pair_of`] gives it.
fn entry_pair(entry: &str) -> (r: Option<(String, String)>)
    ensures
        r is Some <==> pair_of(entry@) is Some,
        r matches Some(kv) ==> pair_of(entry@) == Some((kv.0@, kv.1@)),
{
    match after_char(entry, '=') {
        None => None,
        Some(rest) => {
            let key: String = before_char(entry, '=').to_owned();
            let value: String = before_char(rest, '=').to_owned();
            Some((key, value))
        },
    }
}

/// The views of a vector of owned pairs.
pub open spec fn pairs_view(v: Seq<(String, String)>) -> Seq<(Seq<char>, Seq<char>)> {
    v.map_values(|kv: (String, String)| (kv.0@, kv.1@))
}

/// Collects every key/value pair of the query string, in order.
fn collect_params(q: &str) -> (r: Vec<(String, String)>)
    ensures
        pairs_view(r@) == params_of(q@),
{
    let mut result: Vec<(String, String)> = Vec::new();
    let mut rest: &str = q;
    loop
        invariant
            params_of(q@) =~= pairs_view(result@) + params_of(rest@),
        decreases rest@.len(),
    {
        match after_char(rest, '&') {
            None => {
                match entry_pair(rest) {
                    None => {
                        proof {
                            assert(pairs_view(result@) + params_of(rest@) =~= pairs_view(
                                result@,
                            ));
                        }
                    },
                    Some(kv) => {
                        result.push(kv);
                        proof {
                            assert(pairs_view(result@) =~= params_of(q@));
                        }
                    },
                }
                return result;
            },
            Some(tail) => {
                let entry: &str = before_char(rest, '&');
                let ghost old_result = result@;
                let ghost old_rest = rest@;
                match entry_pair(entry) {
                    None => {},
                    Some(kv) => {
                        result.push(kv);
                    },
                }
                rest = tail;
                proof {
                    assert(pairs_view(result@) + params_of(rest@) =~= (pairs_view(old_result)
                        + opt_pair(pair_of(before(old_rest, '&')))) + params_of(tail@));
                    assert((pairs_view(old_result) + opt_pair(pair_of(before(old_rest, '&'))))
                        + params_of(tail@) =~= pairs_view(old_result) + params_of(old_rest));
                }
            },
        }
    }
}

/// No pair of the suffix from `i` on matches `key`, so the lookup over
/// the whole sequence equals the lookup over the first `i` pairs.
proof fn lemma_lookup_split(pairs: Seq<(Seq<char>, Seq<char>)>, i: int, key: Seq<char>)
    requires
        0 <= i <= pairs.len(),
        forall|k: int| i <= k < pairs.len() ==> (#[trigger] pairs[k].0) != key,
    ensures
        lookup_param(pairs, key) == lookup_param(pairs.take(i), key),
    decreases pairs.len(),
{
    if pairs.len() == 0 {
        assert(pairs.take(i) =~= pairs);
    } else if i == pairs.len() {
        assert(pairs.take(i) =~= pairs);
    } else if i == 0 {
        lemma_lookup_split(pairs.drop_first(), 0, key);
        assert(pairs.drop_first().take(0) =~= Seq::<(Seq<char>, Seq<char>)>::empty());
        assert(pairs.take(0) =~= Seq::<(Seq<char>, Seq<char>)>::empty());
    } else {
        assert forall|k: int| i - 1 <= k < pairs.drop_first().len() implies (
        #[trigger] pairs.drop_first()[k].0) != key by {
            assert(pairs.drop_first()[k] == pairs[k + 1]);
        }
        lemma_lookup_split(pairs.drop_first(), i - 1, key);
        assert(pairs.take(i).drop_first() =~= pairs.drop_first().take(i - 1));
    }
}

/// The last pair matches `key`, so the lookup returns its value.
proof fn lemma_lookup_last(pairs: Seq<(Seq<char>, Seq<char>)>, key: Seq<char>)
    requires
        pairs.len() > 0,
        pairs.last().0 == key,
    ensures
        lookup_param(pairs, key) == Some(pairs.last().1),
    decreases pairs.len(),
{
    if pairs.len() > 1 {
        assert(pairs.drop_first().last() == pairs.last());
        lemma_lookup_last(pairs.drop_first(), key);
    } else {
        assert(pairs[0] == pairs.last());
        assert(pairs.drop_first().len() == 0);
        assert(lookup_param(pairs.drop_first(), key) is None);
    }
}

/// No pair matches `key`, so the lookup fails.
proof fn lemma_lookup_none(pairs: Seq<(Seq<char>, Seq<char>)>, key: Seq<char>)
    requires
        forall|k: int| 0 <= k < pairs.len() ==> (#[trigger] pairs[k].0) != key,
    ensures
        lookup_param(pairs, key) is None,
{
    lemma_lookup_split(pairs, 0, key);
    assert(pairs.take(0) =~= Seq::<(Seq<char>, Seq<char>)>::empty());
}

/// Finds the value bound to `key`, the last occurrence winning.
fn lookup(pairs: &Vec<(String, String)>, key: &str) -> (r: Option<String>)
    ensures
        match r {
            None => lookup_param(pairs_view(pairs@), key@) is None,
            Some(v) => lookup_param(pairs_view(pairs@), key@) == Some(v@),
        },
{
    let ghost pv = pairs_view(pairs@);
    let mut i: usize = pairs.len();
    while i > 0
        invariant
            i <= pairs.len(),
            pv == pairs_view(pairs@),
            pv.len() == pairs@.len(),
            forall|k: int| i <= k < pv.len() ==> (#[trigger] pv[k].0) != key@,
        decreases i,
    {
        i = i - 1;
        if str_eq(pairs[i].0.as_str(), key) {
            let value: String = pairs[i].1.clone();
            proof {
                lemma_lookup_split(pv, i as int + 1, key@);
                lemma_lookup_last(pv.take(i as int + 1), key@);
            }
            return Some(value);
        }
    }
    proof {
        lemma_lookup_none(pv, key@);
    }
    None
}

/// Extracts `code` and `state` from the captured request URL, in that
/// order of precedence: a URL whose query binds both yields the
/// redirect, one missing `code` fails with `MissingCode`, and one with
/// `code` but no `state` fails with `MissingState`.  No partially
/// filled redirect is ever produced.
pub fn extract_redirect(url: &str) -> (r: Result<AuthRedirect, AuthError>)
    ensures
        r is Ok <==> (query_param(url@, "code"@) is Some && query_param(url@, "state"@) is Some),
        r matches Ok(a) ==> query_param(url@, "code"@) == Some(a.code@) && query_param(
            url@,
            "state"@,
        ) == Some(a.state@),
        r matches Err(e) ==> ((e is MissingCode && query_param(url@, "code"@) is None) || (
        e is MissingState && query_param(url@, "code"@) is Some && query_param(
            url@,
            "state"@,
        ) is None)),
{
    let q: &str = query_slice(url);
    let pairs: Vec<(String, String)> = collect_params(q);
    let code: Option<String> = lookup(&pairs, "code");
    let state: Option<String> = lookup(&pairs, "state");
    match (code, state) {
        (Some(code), Some(state)) => Ok(AuthRedirect { code, state }),
        (None, _) => Err(AuthError::MissingCode),
        (Some(_), None) => Err(AuthError::MissingState),
    }
}

} // verus!
