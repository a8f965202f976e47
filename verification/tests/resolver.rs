use serve::handler::{Handler, Precheck};
use serve::http::{Line, StatusCode};
use serve::types::DefaultHeaderSelector;

fn handler() -> Handler<DefaultHeaderSelector> {
    Handler {
        prefix: b"",
        header_selector: DefaultHeaderSelector,
    }
}

fn prefixed_handler() -> Handler<DefaultHeaderSelector> {
    Handler {
        prefix: b"app",
        header_selector: DefaultHeaderSelector,
    }
}

fn header(headers: &[Line], key: &[u8]) -> Option<Vec<u8>> {
    headers
        .iter()
        .find(|l| l.key == key)
        .map(|l| l.value.as_bytes().to_vec())
}

#[test]
fn nonzero_content_length_is_rejected_first() {
    let h = handler();
    match h.precheck(b"GET", b"/index.html", Some(b"12")) {
        Precheck::Done(r) => {
            assert_eq!(r.status.as_u16(), 400);
            assert!(r.body.is_none());
            assert_eq!(r.headers.len(), 2);
            assert_eq!(header(&r.headers, b"content-length").unwrap(), b"0");
        }
        Precheck::Search { .. } => panic!("expected a terminal response"),
    }
    match h.precheck(b"POST", b"/.hidden", Some(b"5")) {
        Precheck::Done(r) => assert_eq!(r.status.as_u16(), 400),
        Precheck::Search { .. } => panic!("expected a terminal response"),
    }
}

#[test]
fn zero_content_length_is_accepted() {
    let h = handler();
    match h.precheck(b"GET", b"/foo", Some(b"0")) {
        Precheck::Search { .. } => {}
        Precheck::Done(_) => panic!("expected a candidate search"),
    }
}

#[test]
fn other_methods_are_rejected() {
    let h = handler();
    for m in [b"POST".as_slice(), b"PUT", b"DELETE", b"OPTIONS", b"get"] {
        match h.precheck(m, b"/index.html", None) {
            Precheck::Done(r) => {
                assert_eq!(r.status.as_u16(), 405);
                assert!(r.body.is_none());
                assert_eq!(r.headers.len(), 2);
            }
            Precheck::Search { .. } => panic!("expected a terminal response"),
        }
    }
}

#[test]
fn traversal_paths_are_rejected() {
    let h = handler();
    for p in [
        b"/.env".as_slice(),
        b"/.git/config",
        b"/a/.hidden",
        b"/a/../b",
        b"/..",
    ] {
        match h.precheck(b"GET", p, None) {
            Precheck::Done(r) => assert_eq!(r.status.as_u16(), 404),
            Precheck::Search { .. } => panic!("expected a terminal response"),
        }
    }
}

#[test]
fn candidate_order_for_plain_path() {
    let h = handler();
    match h.precheck(b"GET", b"/foo", None) {
        Precheck::Search { candidates, is_get } => {
            assert!(is_get);
            assert_eq!(
                candidates,
                vec![
                    b"foo".to_vec(),
                    b"foo.html".to_vec(),
                    b"foo.307".to_vec(),
                    b"foo.308".to_vec(),
                ]
            );
        }
        Precheck::Done(_) => panic!("expected a candidate search"),
    }
}

#[test]
fn candidate_order_for_root() {
    let h = handler();
    match h.precheck(b"HEAD", b"/", None) {
        Precheck::Search { candidates, is_get } => {
            assert!(!is_get);
            assert_eq!(
                candidates,
                vec![
                    b"index.html".to_vec(),
                    b"index.307".to_vec(),
                    b"index.308".to_vec(),
                ]
            );
        }
        Precheck::Done(_) => panic!("expected a candidate search"),
    }
}

#[test]
fn trailing_slash_redirects_permanently() {
    let h = handler();
    match h.precheck(b"GET", b"/docs/", None) {
        Precheck::Done(r) => {
            assert_eq!(r.status.as_u16(), 308);
            assert!(r.body.is_none());
            assert_eq!(header(&r.headers, b"location").unwrap(), b"/docs");
            assert!(header(&r.headers, b"etag").is_none());
        }
        Precheck::Search { .. } => panic!("expected a terminal response"),
    }
}

#[test]
fn trailing_slash_redirect_keeps_prefix() {
    let h = prefixed_handler();
    match h.precheck(b"GET", b"/app/docs/", None) {
        Precheck::Done(r) => {
            assert_eq!(r.status.as_u16(), 308);
            assert_eq!(header(&r.headers, b"location").unwrap(), b"/app/docs");
        }
        Precheck::Search { .. } => panic!("expected a terminal response"),
    }
}

#[test]
fn wrong_prefix_is_not_found() {
    let h = prefixed_handler();
    match h.precheck(b"GET", b"/other/docs", None) {
        Precheck::Done(r) => {
            assert_eq!(r.status.as_u16(), 404);
            assert_eq!(r.headers.len(), 2);
        }
        Precheck::Search { .. } => panic!("expected a terminal response"),
    }
}

#[test]
fn prefixed_path_is_stripped() {
    let h = prefixed_handler();
    match h.precheck(b"GET", b"/app/foo", None) {
        Precheck::Search { candidates, .. } => {
            assert_eq!(candidates[0], b"foo".to_vec());
        }
        Precheck::Done(_) => panic!("expected a candidate search"),
    }
}

#[test]
fn not_found_uses_error_headers() {
    let h = handler();
    let r = h.not_found();
    assert_eq!(r.status.as_u16(), 404);
    assert!(r.body.is_none());
    assert_eq!(r.headers.len(), 2);
    assert_eq!(header(&r.headers, b"allow").unwrap(), b"GET, HEAD");
}

#[test]
fn repeated_precheck_is_identical() {
    let h = handler();
    for _ in 0..2 {
        match h.precheck(b"GET", b"/docs/", None) {
            Precheck::Done(r) => {
                assert_eq!(r.status.as_u16(), 308);
                assert_eq!(header(&r.headers, b"location").unwrap(), b"/docs");
            }
            Precheck::Search { .. } => panic!("expected a terminal response"),
        }
    }
}

#[test]
fn status_codes_on_the_wire() {
    assert_eq!(StatusCode::OK.as_u16(), 200);
    assert_eq!(StatusCode::NotModified.as_u16(), 304);
    assert_eq!(StatusCode::TemporaryRedirect.as_u16(), 307);
    assert_eq!(StatusCode::PermanentRedirect.as_u16(), 308);
    assert_eq!(StatusCode::BadRequest.as_u16(), 400);
    assert_eq!(StatusCode::NotFound.as_u16(), 404);
    assert_eq!(StatusCode::MethodNotAllowed.as_u16(), 405);
    assert_eq!(StatusCode::PreconditionFailed.as_u16(), 412);
}
