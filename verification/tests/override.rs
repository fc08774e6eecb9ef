use method_override::adapter::{MethodOverrideMiddleware, Request};
use method_override::method::{override_verb, Method};
use method_override::query::find_directive;

/// The method a wrapped handler observes for a request with the given
/// method and query string.
fn observed(method: Method, query: Option<&str>) -> Method {
    let adapter = MethodOverrideMiddleware::new(());
    let mut req = Request {
        method,
        path: "/".to_owned(),
        query: query.map(|q| q.to_owned()),
        body: (),
    };
    adapter.rewrite_request(&mut req);
    req.method
}

#[test]
fn override_test() {
    // No override requested
    assert_eq!(observed(Method::Get, None), Method::Get);
    assert_eq!(observed(Method::Put, None), Method::Put);
    assert_eq!(observed(Method::Post, None), Method::Post);
    assert_eq!(observed(Method::Patch, None), Method::Patch);

    // Successful overrides
    assert_eq!(
        observed(Method::Post, Some("a=1&b=2&_method=PATCH")),
        Method::Patch
    );
    assert_eq!(
        observed(Method::Post, Some("a=1&b=2&_method=PUT")),
        Method::Put
    );
    assert_eq!(
        observed(Method::Post, Some("a=1&b=2&_method=DELETE")),
        Method::Delete
    );

    // Other methods cannot be specified for overrides
    assert_eq!(
        observed(Method::Post, Some("a=1&b=2&_method=GET")),
        Method::Post
    );
    assert_eq!(observed(Method::Post, Some("_method=OPTIONS")), Method::Post);

    // Non-POST requests don't get overridden
    assert_eq!(observed(Method::Get, Some("_method=PATCH")), Method::Get);
    assert_eq!(observed(Method::Delete, Some("_method=PUT")), Method::Delete);
    assert_eq!(observed(Method::Patch, Some("_method=DELETE")), Method::Patch);
}

#[test]
fn non_post_never_overridden() {
    let methods = vec![
        Method::Get,
        Method::Head,
        Method::Put,
        Method::Delete,
        Method::Connect,
        Method::Options,
        Method::Trace,
        Method::Patch,
        Method::Other,
    ];
    for m in methods {
        assert_eq!(observed(m, Some("_method=PUT")), m);
        assert_eq!(observed(m, Some("_method=DELETE")), m);
        assert_eq!(observed(m, None), m);
    }
}

#[test]
fn post_without_directive_stays_post() {
    assert_eq!(observed(Method::Post, None), Method::Post);
    assert_eq!(observed(Method::Post, Some("")), Method::Post);
    assert_eq!(observed(Method::Post, Some("a=1&b=2")), Method::Post);
    assert_eq!(observed(Method::Post, Some("method=PUT")), Method::Post);
}

#[test]
fn first_method_occurrence_wins() {
    assert_eq!(
        observed(Method::Post, Some("_method=PUT&_method=DELETE")),
        Method::Put
    );
    assert_eq!(
        observed(Method::Post, Some("x=1&_method=DELETE&_method=PATCH")),
        Method::Delete
    );
}

#[test]
fn override_matching_is_case_sensitive() {
    assert_eq!(observed(Method::Post, Some("_method=put")), Method::Post);
    assert_eq!(observed(Method::Post, Some("_method=Put")), Method::Post);
    assert_eq!(observed(Method::Post, Some("_Method=PUT")), Method::Post);
    assert_eq!(observed(Method::Post, Some("_METHOD=PUT")), Method::Post);
}

#[test]
fn query_is_percent_decoded() {
    // %50%55%54 decodes to PUT; an unparsed query would yield no override.
    assert_eq!(
        observed(Method::Post, Some("_method=%50%55%54")),
        Method::Put
    );
    assert_eq!(
        observed(Method::Post, Some("%5Fmethod=DELETE")),
        Method::Delete
    );
}

#[test]
fn only_the_method_field_changes() {
    let adapter = MethodOverrideMiddleware::new(());
    let mut req = Request {
        method: Method::Post,
        path: "/item/1".to_owned(),
        query: Some("a=1&_method=DELETE".to_owned()),
        body: vec![1u8, 2, 3],
    };
    adapter.rewrite_request(&mut req);
    assert_eq!(req.method, Method::Delete);
    assert_eq!(req.path, "/item/1");
    assert_eq!(req.query, Some("a=1&_method=DELETE".to_owned()));
    assert_eq!(req.body, vec![1u8, 2, 3]);
}

#[test]
fn rewriting_is_idempotent() {
    let adapter = MethodOverrideMiddleware::new(());
    let cases = vec![
        (Method::Post, Some("_method=PUT")),
        (Method::Post, Some("_method=GET")),
        (Method::Post, None),
        (Method::Get, Some("_method=DELETE")),
    ];
    for (m, q) in cases {
        let mut req = Request {
            method: m,
            path: "/".to_owned(),
            query: q.map(|s: &str| s.to_owned()),
            body: (),
        };
        adapter.rewrite_request(&mut req);
        let once = req.method;
        adapter.rewrite_request(&mut req);
        assert_eq!(req.method, once);
    }
}

#[test]
fn override_table_exact_values() {
    assert_eq!(override_verb(&"PUT".to_owned()), Some(Method::Put));
    assert_eq!(override_verb(&"PATCH".to_owned()), Some(Method::Patch));
    assert_eq!(override_verb(&"DELETE".to_owned()), Some(Method::Delete));
    assert_eq!(override_verb(&"GET".to_owned()), None);
    assert_eq!(override_verb(&"OPTIONS".to_owned()), None);
    assert_eq!(override_verb(&"put".to_owned()), None);
    assert_eq!(override_verb(&"delete".to_owned()), None);
    assert_eq!(override_verb(&"".to_owned()), None);
    assert_eq!(override_verb(&" PUT".to_owned()), None);
}

#[test]
fn directive_scan_on_built_pairs() {
    let pairs: Vec<(String, String)> = vec![];
    assert_eq!(find_directive(&pairs), None);

    let pairs = vec![
        ("a".to_owned(), "PUT".to_owned()),
        ("_method".to_owned(), "PATCH".to_owned()),
        ("_method".to_owned(), "DELETE".to_owned()),
    ];
    assert_eq!(find_directive(&pairs), Some(Method::Patch));

    let pairs = vec![
        ("_method".to_owned(), "nonsense".to_owned()),
        ("_method".to_owned(), "PUT".to_owned()),
    ];
    assert_eq!(find_directive(&pairs), None);
}
