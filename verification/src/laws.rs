//! The laws of the override rule, stated over the spec model and
//! proved once and for all.

use crate::adapter::{method_after_override, spec_rewrite, Request};
use crate::method::Method;
use crate::query::first_method_value;
use vstd::prelude::*;

verus! {

/// A request whose method is not POST keeps its method, whatever the
/// query string holds.
pub proof fn lemma_non_post_unchanged(m: Method, pairs: Seq<(Seq<char>, Seq<char>)>)
    requires
        m != Method::Post,
    ensures
        method_after_override(m, pairs) == m,
{
}

/// Where no pair at all has the key `_method`, the scan finds no value.
proof fn lemma_no_method_key(pairs: Seq<(Seq<char>, Seq<char>)>)
    requires
        forall|i: int| 0 <= i < pairs.len() ==> #[trigger] pairs[i].0 != "_method"@,
    ensures
        first_method_value(pairs) == Option::<Seq<char>>::None,
    decreases pairs.len(),
{
    if pairs.len() > 0 {
        lemma_no_method_key(pairs.drop_first());
    }
}

/// A POST request without a `_method` parameter keeps POST.
pub proof fn lemma_post_without_directive(pairs: Seq<(Seq<char>, Seq<char>)>)
    requires
        forall|i: int| 0 <= i < pairs.len() ==> #[trigger] pairs[i].0 != "_method"@,
    ensures
        method_after_override(Method::Post, pairs) == Method::Post,
{
    lemma_no_method_key(pairs);
}

/// The first pair whose key is `_method` is the one whose value the
/// scan yields; later occurrences and unrelated pairs play no part.
pub proof fn lemma_first_method_value(pairs: Seq<(Seq<char>, Seq<char>)>, k: int)
    requires
        0 <= k < pairs.len(),
        pairs[k].0 == "_method"@,
        forall|i: int| 0 <= i < k ==> #[trigger] pairs[i].0 != "_method"@,
    ensures
        first_method_value(pairs) == Some(pairs[k].1),
    decreases k,
{
    if k > 0 {
        lemma_first_method_value(pairs.drop_first(), k - 1);
    }
}

/// A POST request whose first `_method` value is `PUT`, `PATCH` or
/// `DELETE` (exact case) is overridden to that verb, whatever other
/// pairs stand around it.
pub proof fn lemma_post_with_directive(pairs: Seq<(Seq<char>, Seq<char>)>, k: int)
    requires
        0 <= k < pairs.len(),
        pairs[k].0 == "_method"@,
        forall|i: int| 0 <= i < k ==> #[trigger] pairs[i].0 != "_method"@,
    ensures
        pairs[k].1 == "PUT"@ ==> method_after_override(Method::Post, pairs) == Method::Put,
        pairs[k].1 == "PATCH"@ ==> method_after_override(Method::Post, pairs) == Method::Patch,
        pairs[k].1 == "DELETE"@ ==> method_after_override(Method::Post, pairs) == Method::Delete,
{
    lemma_first_method_value(pairs, k);
    reveal_strlit("PUT");
    reveal_strlit("PATCH");
    reveal_strlit("DELETE");
    assert(("PUT"@).len() == 3 && ("PATCH"@).len() == 5 && ("DELETE"@).len() == 6);
}

/// A POST request whose first `_method` value lies outside the table
/// (a verb such as `GET`, a lowercase variant, anything else) keeps
/// POST.
pub proof fn lemma_post_with_unrecognized_directive(pairs: Seq<(Seq<char>, Seq<char>)>, k: int)
    requires
        0 <= k < pairs.len(),
        pairs[k].0 == "_method"@,
        forall|i: int| 0 <= i < k ==> #[trigger] pairs[i].0 != "_method"@,
        pairs[k].1 != "PUT"@,
        pairs[k].1 != "PATCH"@,
        pairs[k].1 != "DELETE"@,
    ensures
        method_after_override(Method::Post, pairs) == Method::Post,
{
    lemma_first_method_value(pairs, k);
}

/// Rewriting is idempotent: an overridden request now carries PUT,
/// PATCH or DELETE, on which the rule no longer triggers, and a
/// request the rule left alone is left alone again.
pub proof fn lemma_rewrite_idempotent<B>(req: Request<B>)
    ensures
        spec_rewrite(spec_rewrite(req)) == spec_rewrite(req),
{
}

} // verus!
