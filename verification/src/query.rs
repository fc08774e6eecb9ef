//! Reading the override directive out of a query string.
//!
//! A query string is parsed as URL-encoded key/value pairs; the first
//! pair whose key is exactly `_method` carries the directive. Parsing
//! is total: a malformed query simply yields pairs in which no such
//! key occurs, never an error.

use crate::method::{override_verb, override_verb_of, Method};
use vstd::prelude::*;

verus! {

/// The key/value pairs that URL-encoded form parsing yields on a given
/// query string. The decoding (splitting on `&` and `=`, replacing `+`
/// by a space, percent-decoding, lossy UTF-8 reading) is too long to
/// state here; it is a function of the characters alone, so the pairs
/// are given this name and the contracts speak of it exactly.
pub uninterp spec fn form_pairs_of(q: Seq<char>) -> Seq<(Seq<char>, Seq<char>)>;

/// Relies on url::form_urlencoded::parse: it decodes a query string
/// into key/value pairs, depending on the input bytes alone, and on an
/// empty input it yields no pairs.
#[verifier::external_body]
fn parse_query_pairs(q: &str) -> (r: Vec<(String, String)>)
    ensures
        r.deep_view() == form_pairs_of(q@),
        q@.len() == 0 ==> r.deep_view().len() == 0,
{
    url::form_urlencoded::parse(q.as_bytes()).into_owned().collect()
}

/// The value of the first pair whose key is exactly `_method`, if any.
pub open spec fn first_method_value(pairs: Seq<(Seq<char>, Seq<char>)>) -> Option<Seq<char>>
    decreases pairs.len(),
{
    if pairs.len() == 0 {
        None
    } else if pairs[0].0 == "_method"@ {
        Some(pairs[0].1)
    } else {
        first_method_value(pairs.drop_first())
    }
}

/// The override directive that a sequence of query pairs carries: the
/// first `_method` value, mapped through the override table. A value
/// outside the table is treated as no directive at all.
pub open spec fn override_directive(pairs: Seq<(Seq<char>, Seq<char>)>) -> Option<Method> {
    match first_method_value(pairs) {
        Some(v) => override_verb_of(v),
        None => None,
    }
}

/// Scan the pairs in order for the first key exactly equal to
/// `_method`, and map its value through the override table.
pub fn find_directive(pairs: &Vec<(String, String)>) -> (r: Option<Method>)
    ensures
        r == override_directive(pairs.deep_view()),
{
    let needle: String = "_method".to_owned();
    let ghost pv = pairs.deep_view();
    let mut i: usize = 0;
    proof {
        assert(pv.subrange(0, pv.len() as int) =~= pv);
    }
    while i < pairs.len()
        invariant
            i <= pairs.len(),
            pv == pairs.deep_view(),
            needle@ == "_method"@,
            first_method_value(pv) == first_method_value(pv.subrange(i as int, pv.len() as int)),
        decreases pairs.len() - i,
    {
        let p = &pairs[i];
        proof {
            assert(pv[i as int] == (p.0@, p.1@));
            assert(pv.subrange(i as int, pv.len() as int)[0] == pv[i as int]);
        }
        if p.0 == needle {
            proof {
                assert(first_method_value(pv) == Some(p.1@));
            }
            return override_verb(&p.1);
        }
        proof {
            assert(pv.subrange(i as int, pv.len() as int).drop_first() =~= pv.subrange(
                i as int + 1,
                pv.len() as int,
            ));
        }
        i += 1;
    }
    proof {
        assert(pv.subrange(i as int, pv.len() as int).len() == 0);
    }
    None
}

/// Parse a query string and extract the directive it carries, if any.
pub fn directive_of_query(q: &str) -> (r: Option<Method>)
    ensures
        r == override_directive(form_pairs_of(q@)),
{
    let pairs = parse_query_pairs(q);
    find_directive(&pairs)
}

} // verus!
