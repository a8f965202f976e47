use serve::http::Line;
use serve::types::{
    default_error_headers, default_headers, headers_and_compression, headers_for_type,
};

fn value_of(headers: &[Line], key: &[u8]) -> Option<Vec<u8>> {
    headers
        .iter()
        .find(|l| l.key == key)
        .map(|l| l.value.as_bytes().to_vec())
}

#[test]
fn baseline_headers_in_order() {
    let h = default_headers();
    assert_eq!(h.len(), 9);
    assert_eq!(h[0].key, b"allow");
    assert_eq!(h[0].value.as_bytes(), b"GET, HEAD");
    assert_eq!(h[1].key, b"x-content-type-options");
    assert_eq!(h[1].value.as_bytes(), b"nosniff");
    assert_eq!(h[2].key, b"x-frame-options");
    assert_eq!(h[2].value.as_bytes(), b"DENY");
    assert_eq!(h[3].key, b"x-xss-protection");
    assert_eq!(h[3].value.as_bytes(), b"1; mode=block");
    assert_eq!(h[4].key, b"cross-origin-resource-policy");
    assert_eq!(h[4].value.as_bytes(), b"same-site");
    assert_eq!(h[5].key, b"cross-origin-embedder-policy");
    assert_eq!(h[5].value.as_bytes(), b"credentialless");
    assert_eq!(h[6].key, b"cross-origin-opener-policy");
    assert_eq!(h[6].value.as_bytes(), b"same-origin");
    assert_eq!(h[7].key, b"content-security-policy");
    assert_eq!(h[8].key, b"strict-transport-security");
    assert_eq!(
        h[8].value.as_bytes(),
        b"max-age=63072000; includeSubDomains; preload"
    );
}

#[test]
fn error_headers_are_bare() {
    let h = default_error_headers();
    assert_eq!(h.len(), 2);
    assert_eq!(h[0].key, b"allow");
    assert_eq!(h[0].value.as_bytes(), b"GET, HEAD");
    assert_eq!(h[1].key, b"content-length");
    assert_eq!(h[1].value.as_bytes(), b"0");
}

#[test]
fn css_policy() {
    let hc = headers_for_type(b"style.css", b"css").unwrap();
    assert!(hc.compressible);
    assert!(!hc.redirection);
    assert_eq!(value_of(&hc.headers, b"content-type").unwrap(), b"text/css");
    assert_eq!(
        value_of(&hc.headers, b"cache-control").unwrap(),
        b"public,max-age=3600,must-revalidate,stale-if-error=3600"
    );
}

#[test]
fn image_policy_is_immutable_and_raw() {
    let hc = headers_for_type(b"a.png", b"png").unwrap();
    assert!(!hc.compressible);
    assert!(!hc.redirection);
    assert_eq!(value_of(&hc.headers, b"content-type").unwrap(), b"image/png");
    assert_eq!(
        value_of(&hc.headers, b"cache-control").unwrap(),
        b"public,max-age=86400,immutable,stale-while-revalidate=864000,stale-if-error=3600"
    );
}

#[test]
fn service_worker_gains_scope_header() {
    let hc = headers_for_type(b"service-worker.js", b"js").unwrap();
    assert_eq!(
        value_of(&hc.headers, b"cache-control").unwrap(),
        b"public,no-cache,max-age=0,must-revalidate;stale-if-error=3600"
    );
    let last = hc.headers.last().unwrap();
    assert_eq!(last.key, b"service-worker-allowed");
    assert_eq!(last.value.as_bytes(), b"/");

    let hc = headers_for_type(b"sw.v2.js", b"js").unwrap();
    assert_eq!(hc.headers.last().unwrap().key, b"service-worker-allowed");

    let hc = headers_for_type(b"app.js", b"js").unwrap();
    assert_eq!(
        value_of(&hc.headers, b"cache-control").unwrap(),
        b"public,max-age=3600,must-revalidate,stale-if-error=3600"
    );
    assert!(value_of(&hc.headers, b"service-worker-allowed").is_none());
}

#[test]
fn sentinel_policies() {
    let hc = headers_for_type(b"about.307", b"307").unwrap();
    assert!(hc.redirection);
    assert!(!hc.compressible);
    assert!(value_of(&hc.headers, b"content-type").is_none());
    assert_eq!(
        value_of(&hc.headers, b"cache-control").unwrap(),
        b"public,max-age=3600,must-revalidate,stale-if-error=3600"
    );

    let hc = headers_for_type(b"about.308", b"308").unwrap();
    assert!(hc.redirection);
    assert!(!hc.compressible);
    assert!(value_of(&hc.headers, b"content-type").is_none());
    assert!(value_of(&hc.headers, b"cache-control").is_none());
    assert_eq!(hc.headers.len(), 9);
}

#[test]
fn unknown_extension_is_skipped() {
    assert!(headers_for_type(b"a.exe", b"exe").is_none());
    assert!(headers_for_type(b"noext", b"").is_none());
}

#[test]
fn assembly_marks_redirection_by_missing_content_type() {
    let hc = headers_and_compression(Some(b"text/plain"), None, true);
    assert!(!hc.redirection);
    assert!(hc.compressible);
    assert_eq!(hc.headers.len(), 10);
    let hc = headers_and_compression(None, None, false);
    assert!(hc.redirection);
    assert_eq!(hc.headers.len(), 9);
}
