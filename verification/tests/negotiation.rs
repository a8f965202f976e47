use serve::handler::{finish_candidate, should_forward, CandidatePlan, Handler};
use serve::http::{Line, StatusCode};
use serve::types::DefaultHeaderSelector;

fn handler() -> Handler<DefaultHeaderSelector> {
    Handler {
        prefix: b"",
        header_selector: DefaultHeaderSelector,
    }
}

fn plan_for(candidate: &[u8]) -> CandidatePlan {
    handler().candidate_plan(&candidate.to_vec()).unwrap()
}

fn find(headers: &[Line], key: &[u8]) -> Option<Vec<u8>> {
    headers
        .iter()
        .find(|l| l.key == key)
        .map(|l| l.value.as_bytes().to_vec())
}

#[test]
fn plans_follow_the_policy() {
    let p = plan_for(b"style.css");
    assert_eq!(p.br_path.as_deref(), Some(b"style.css.br".as_slice()));
    assert!(!p.is_permanent);

    let p = plan_for(b"about.308");
    assert!(p.br_path.is_none());
    assert!(p.is_permanent);

    let p = plan_for(b"photo.png");
    assert!(p.br_path.is_none());
    assert!(!p.is_permanent);

    assert!(handler().candidate_plan(&b"foo".to_vec()).is_none());
    assert!(handler().candidate_plan(&b"a.exe".to_vec()).is_none());
}

#[test]
fn get_serves_content_with_etag() {
    let r = finish_candidate(plan_for(b"f.txt"), false, b"hello world".to_vec(), None, None, true);
    assert_eq!(r.status.as_u16(), 200);
    assert_eq!(r.body.as_deref(), Some(b"hello world".as_slice()));
    assert_eq!(find(&r.headers, b"content-length").unwrap(), b"11");
    let expected = format!("{:x}", crc32fast::hash(b"hello world")).into_bytes();
    assert_eq!(find(&r.headers, b"etag").unwrap(), expected);
    assert!(find(&r.headers, b"content-encoding").is_none());
}

#[test]
fn head_suppresses_body_only() {
    let r = finish_candidate(plan_for(b"f.txt"), false, b"hello world".to_vec(), None, None, false);
    assert_eq!(r.status.as_u16(), 200);
    assert!(r.body.is_none());
    assert_eq!(find(&r.headers, b"content-length").unwrap(), b"11");
    assert!(find(&r.headers, b"etag").is_some());
}

#[test]
fn etag_round_trip_yields_not_modified() {
    let first = finish_candidate(plan_for(b"f.txt"), false, b"hello".to_vec(), None, None, true);
    let etag = find(&first.headers, b"etag").unwrap();
    let second = finish_candidate(
        plan_for(b"f.txt"),
        false,
        b"hello".to_vec(),
        Some(&etag),
        None,
        true,
    );
    assert_eq!(second.status.as_u16(), 304);
    assert!(second.body.is_none());
}

#[test]
fn mismatched_if_match_fails_precondition() {
    let r = finish_candidate(
        plan_for(b"f.txt"),
        false,
        b"hello".to_vec(),
        None,
        Some(b"deadbeef"),
        true,
    );
    assert_eq!(r.status.as_u16(), 412);
    assert!(r.body.is_none());
}

#[test]
fn matching_if_match_passes() {
    let etag = serve::etag::compute_etag(b"hello");
    let r = finish_candidate(
        plan_for(b"f.txt"),
        false,
        b"hello".to_vec(),
        None,
        Some(&etag),
        true,
    );
    assert_eq!(r.status.as_u16(), 200);
}

#[test]
fn if_none_match_takes_precedence_over_if_match() {
    let etag = serve::etag::compute_etag(b"hello");
    let r = finish_candidate(
        plan_for(b"f.txt"),
        false,
        b"hello".to_vec(),
        Some(&etag),
        Some(b"mismatch"),
        true,
    );
    assert_eq!(r.status.as_u16(), 304);
}

#[test]
fn compressed_variant_is_marked_and_served() {
    let br = b"\x0b\x05\x80brotli-ish".to_vec();
    let r = finish_candidate(plan_for(b"style.css"), true, br.clone(), None, None, true);
    assert_eq!(r.status.as_u16(), 200);
    assert_eq!(find(&r.headers, b"content-encoding").unwrap(), b"br");
    assert_eq!(r.body.as_deref(), Some(br.as_slice()));

    let raw = b"body { color: red }".to_vec();
    let r2 = finish_candidate(plan_for(b"style.css"), false, raw.clone(), None, None, true);
    assert!(find(&r2.headers, b"content-encoding").is_none());
    assert_eq!(r2.body.as_deref(), Some(raw.as_slice()));
    assert_ne!(
        find(&r.headers, b"etag").unwrap(),
        find(&r2.headers, b"etag").unwrap()
    );
}

#[test]
fn temporary_sentinel_redirects_with_etag() {
    let r = finish_candidate(
        plan_for(b"about.307"),
        false,
        b"/about-us trailing junk".to_vec(),
        None,
        None,
        true,
    );
    assert_eq!(r.status.as_u16(), 307);
    assert!(r.body.is_none());
    assert_eq!(find(&r.headers, b"location").unwrap(), b"/about-us");
    assert_eq!(find(&r.headers, b"content-length").unwrap(), b"0");
    let etag = find(&r.headers, b"etag").unwrap();
    let again = finish_candidate(
        plan_for(b"about.307"),
        false,
        b"/about-us trailing junk".to_vec(),
        Some(&etag),
        None,
        true,
    );
    assert_eq!(again.status.as_u16(), 304);
}

#[test]
fn permanent_sentinel_never_carries_etag() {
    let r = finish_candidate(
        plan_for(b"docs.308"),
        false,
        b"/docs\n".to_vec(),
        None,
        None,
        true,
    );
    assert_eq!(r.status.as_u16(), 308);
    assert!(r.body.is_none());
    assert_eq!(find(&r.headers, b"location").unwrap(), b"/docs");
    assert!(find(&r.headers, b"etag").is_none());

    let conditional = finish_candidate(
        plan_for(b"docs.308"),
        false,
        b"/docs\n".to_vec(),
        Some(b"anything"),
        Some(b"anything"),
        true,
    );
    assert_eq!(conditional.status.as_u16(), 308);
}

#[test]
fn redirect_target_of_all_whitespace_is_empty() {
    let r = finish_candidate(
        plan_for(b"a.307"),
        false,
        b" /nope".to_vec(),
        None,
        None,
        true,
    );
    assert_eq!(find(&r.headers, b"location").unwrap(), b"");
}

#[test]
fn identical_requests_resolve_identically() {
    let a = finish_candidate(plan_for(b"f.txt"), false, b"stable".to_vec(), None, None, true);
    let b = finish_candidate(plan_for(b"f.txt"), false, b"stable".to_vec(), None, None, true);
    assert_eq!(a.status.as_u16(), b.status.as_u16());
    assert_eq!(a.body, b.body);
    assert_eq!(a.headers.len(), b.headers.len());
    for (x, y) in a.headers.iter().zip(b.headers.iter()) {
        assert_eq!(x.key, y.key);
        assert_eq!(x.value.as_bytes(), y.value.as_bytes());
    }
}

#[test]
fn forwarding_decision() {
    assert!(should_forward(StatusCode::NotFound, true));
    assert!(should_forward(StatusCode::BadRequest, true));
    assert!(!should_forward(StatusCode::NotFound, false));
    assert!(!should_forward(StatusCode::OK, true));
    assert!(!should_forward(StatusCode::PermanentRedirect, true));
    assert!(!should_forward(StatusCode::InternalServerError, true));
}
