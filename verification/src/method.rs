//! The HTTP method of a request, and the fixed table that maps a
//! `_method` override value to the verb it stands for.

use vstd::prelude::*;

verus! {

/// An HTTP request method.
///
/// The nine registered verbs each have a variant of their own; any
/// extension method is `Other`. The adapter only ever asks whether a
/// method is exactly `Post`, and only ever writes `Put`, `Patch` or
/// `Delete`, so nothing more needs to be distinguished.
#[derive(Clone, Copy, Debug, PartialEq, Eq, Structural)]
pub enum Method {
    Get,
    Head,
    Post,
    Put,
    Delete,
    Connect,
    Options,
    Trace,
    Patch,
    Other,
}

/// The fixed override table: the verbs that a `_method` query value
/// may name, matched exactly (uppercase only). Every other value,
/// including case variants and verbs such as `GET` or `OPTIONS`,
/// yields no override.
pub open spec fn override_verb_of(v: Seq<char>) -> Option<Method> {
    if v == "DELETE"@ {
        Some(Method::Delete)
    } else if v == "PATCH"@ {
        Some(Method::Patch)
    } else if v == "PUT"@ {
        Some(Method::Put)
    } else {
        None
    }
}

/// Look a `_method` value up in the override table.
pub fn override_verb(v: &String) -> (r: Option<Method>)
    ensures
        r == override_verb_of(v@),
{
    let delete: String = "DELETE".to_owned();
    let patch: String = "PATCH".to_owned();
    let put: String = "PUT".to_owned();
    if *v == delete {
        Some(Method::Delete)
    } else if *v == patch {
        Some(Method::Patch)
    } else if *v == put {
        Some(Method::Put)
    } else {
        None
    }
}

} // verus!
