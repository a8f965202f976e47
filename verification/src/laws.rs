//! The laws the resolver obeys, stated over the same spec functions that
//! the executable contracts are pinned to, and proved here once and for all.
use crate::bytes::spec_starts_with;
use crate::etag::spec_etag;
use crate::handler::{
    spec_candidates, spec_dir_location, spec_error_response, spec_finish, spec_is_traversal,
    spec_precheck, spec_redirect_target, spec_strip_leading_slash, PolicyModel, PrecheckModel,
};
use crate::path::SLASH;
use crate::types::spec_default_policy;
use vstd::prelude::*;
use vstd::string::StringSliceAdditionalSpecFns;

verus! {

broadcast use vstd::string::group_string_axioms;

/// A request whose `content-length` is present and not literally `0` is
/// answered `400` over the error headers, before any path logic runs and
/// whatever its method or path.
pub proof fn law_body_rejected(
    pol: spec_fn(Seq<u8>, Seq<u8>) -> Option<PolicyModel>,
    err: Seq<(Seq<u8>, Seq<u8>)>,
    prefix: Seq<u8>,
    method: Seq<u8>,
    path: Seq<u8>,
    content_length: Seq<u8>,
)
    requires
        content_length != "0".spec_bytes(),
    ensures
        spec_precheck(pol, err, prefix, method, path, Some(content_length))
            == PrecheckModel::Done(spec_error_response(400, err)),
{
}

/// A request with any method besides `GET` and `HEAD` is answered `405`
/// over the error headers; resolution ends before any candidate is
/// generated, so the filesystem is never consulted.
pub proof fn law_method_gate(
    pol: spec_fn(Seq<u8>, Seq<u8>) -> Option<PolicyModel>,
    err: Seq<(Seq<u8>, Seq<u8>)>,
    prefix: Seq<u8>,
    method: Seq<u8>,
    path: Seq<u8>,
    content_length: Option<Seq<u8>>,
)
    requires
        match content_length {
            Some(v) => v == "0".spec_bytes(),
            None => true,
        },
        method != "GET".spec_bytes(),
        method != "HEAD".spec_bytes(),
    ensures
        spec_precheck(pol, err, prefix, method, path, content_length) == PrecheckModel::Done(
            spec_error_response(405, err),
        ),
{
}

/// A logical path that begins with a dot or holds a `/.` pair is answered
/// `404` whatever the policy table says and whether or not a matching
/// file exists: resolution ends before any candidate is generated.
pub proof fn law_traversal_rejected(
    pol: spec_fn(Seq<u8>, Seq<u8>) -> Option<PolicyModel>,
    err: Seq<(Seq<u8>, Seq<u8>)>,
    prefix: Seq<u8>,
    method: Seq<u8>,
    path: Seq<u8>,
    content_length: Option<Seq<u8>>,
)
    requires
        match content_length {
            Some(v) => v == "0".spec_bytes(),
            None => true,
        },
        method == "GET".spec_bytes() || method == "HEAD".spec_bytes(),
        spec_starts_with(spec_strip_leading_slash(path), prefix),
        ({
            let p2 = spec_strip_leading_slash(
                spec_strip_leading_slash(path).skip(prefix.len() as int),
            );
            &&& !(p2.len() > 0 && p2.last() == SLASH)
            &&& spec_is_traversal(p2)
        }),
    ensures
        spec_precheck(pol, err, prefix, method, path, content_length) == PrecheckModel::Done(
            spec_error_response(404, err),
        ),
{
}

/// Resolution is a function of the request and the bytes on disk, so an
/// unchanged filesystem answers a repeated request identically; and the
/// header lines, the entity tag among them, do not depend on the
/// conditional request headers at all.
pub proof fn law_headers_stable(
    policy: PolicyModel,
    is_permanent: bool,
    compressed: bool,
    content: Seq<u8>,
    if_none_match_1: Option<Seq<u8>>,
    if_match_1: Option<Seq<u8>>,
    if_none_match_2: Option<Seq<u8>>,
    if_match_2: Option<Seq<u8>>,
    is_get: bool,
)
    ensures
        spec_finish(policy, is_permanent, compressed, content, if_none_match_1, if_match_1, is_get)
            .headers == spec_finish(
            policy,
            is_permanent,
            compressed,
            content,
            if_none_match_2,
            if_match_2,
            is_get,
        ).headers,
{
}

/// Round trip: a non-sentinel response carries `etag: E`, and repeating
/// the request with `if-none-match: E` against the same bytes yields
/// `304` with no body.
pub proof fn law_etag_round_trip(
    policy: PolicyModel,
    compressed: bool,
    content: Seq<u8>,
    if_match: Option<Seq<u8>>,
    is_get: bool,
)
    ensures
        ({
            let r = spec_finish(
                policy,
                false,
                compressed,
                content,
                Some(spec_etag(content)),
                if_match,
                is_get,
            );
            &&& r.status == 304
            &&& r.body is None
        }),
{
}

/// Precedence: a matching `if-none-match` answers `304` even when a
/// mismatching `if-match` is sent beside it; `if-none-match` is
/// evaluated first.
pub proof fn law_none_match_precedence(
    policy: PolicyModel,
    compressed: bool,
    content: Seq<u8>,
    mismatched: Seq<u8>,
    is_get: bool,
)
    requires
        mismatched != spec_etag(content),
    ensures
        spec_finish(
            policy,
            false,
            compressed,
            content,
            Some(spec_etag(content)),
            Some(mismatched),
            is_get,
        ).status == 304,
{
}

/// Candidate order: a non-empty logical path `p` is tried as `p` itself
/// first, then `p.html`, then the redirect sentinels; the root is tried
/// as `index.html`, then its sentinels.
pub proof fn law_candidate_order(p: Seq<u8>)
    ensures
        p.len() > 0 ==> ({
            &&& spec_candidates(p).len() == 4
            &&& spec_candidates(p)[0] == p
            &&& spec_candidates(p)[1] == p + ".html".spec_bytes()
            &&& spec_candidates(p)[2] == p + ".307".spec_bytes()
            &&& spec_candidates(p)[3] == p + ".308".spec_bytes()
        }),
        p.len() == 0 ==> ({
            &&& spec_candidates(p).len() == 3
            &&& spec_candidates(p)[0] == "index.html".spec_bytes()
            &&& spec_candidates(p)[1] == "index.307".spec_bytes()
            &&& spec_candidates(p)[2] == "index.308".spec_bytes()
        }),
{
}

/// A permanent-redirect sentinel is answered `308` with no body, and no
/// `etag` header is ever attached: not by the sentinel's own headers
/// (the premise), and not by the negotiation engine.
pub proof fn law_permanent_never_tagged(
    policy: PolicyModel,
    compressed: bool,
    content: Seq<u8>,
    if_none_match: Option<Seq<u8>>,
    if_match: Option<Seq<u8>>,
    is_get: bool,
)
    requires
        policy.redirection,
        forall|i: int|
            0 <= i < policy.headers.len() ==> (#[trigger] policy.headers[i]).0
                != "etag".spec_bytes(),
    ensures
        ({
            let r = spec_finish(policy, true, compressed, content, if_none_match, if_match, is_get);
            &&& r.status == 308
            &&& r.body is None
            &&& forall|i: int|
                0 <= i < r.headers.len() ==> (#[trigger] r.headers[i]).0 != "etag".spec_bytes()
        }),
{
    reveal_strlit("etag");
    reveal_strlit("content-length");
    reveal_strlit("location");
    assert(vstd::string::is_ascii("etag"));
    assert(vstd::string::is_ascii("content-length"));
    assert(vstd::string::is_ascii("location"));
    assert("etag".spec_bytes().len() == 4);
    assert("content-length".spec_bytes().len() == 14);
    assert("location".spec_bytes().len() == 8);
    let r = spec_finish(policy, true, compressed, content, if_none_match, if_match, is_get);
    assert forall|i: int| 0 <= i < r.headers.len() implies (#[trigger] r.headers[i]).0
        != "etag".spec_bytes() by {
        if i < policy.headers.len() {
            assert(r.headers[i] == policy.headers[i]);
        }
    }
}

/// The default table recognizes the permanent-redirect sentinel extension
/// for every file name: the policy is a redirect, tries no precompressed
/// sibling, and none of its header lines is an `etag` line.
#[verifier::rlimit(100)]
pub proof fn law_sentinel_policy(filename: Seq<u8>)
    ensures
        ({
            let p = spec_default_policy(filename, "308".spec_bytes());
            &&& p is Some
            &&& p->Some_0.redirection
            &&& !p->Some_0.compressible
            &&& forall|i: int|
                0 <= i < p->Some_0.headers.len() ==> (#[trigger] p->Some_0.headers[i]).0
                    != "etag".spec_bytes()
        }),
{
    reveal_strlit("html");
    reveal_strlit("htm");
    reveal_strlit("css");
    reveal_strlit("js");
    reveal_strlit("mjs");
    reveal_strlit("map");
    reveal_strlit("json");
    reveal_strlit("txt");
    reveal_strlit("csv");
    reveal_strlit("md");
    reveal_strlit("wasm");
    reveal_strlit("woff2");
    reveal_strlit("ico");
    reveal_strlit("webp");
    reveal_strlit("avif");
    reveal_strlit("gif");
    reveal_strlit("heif");
    reveal_strlit("heic");
    reveal_strlit("png");
    reveal_strlit("jpg");
    reveal_strlit("mp3");
    reveal_strlit("mp4");
    reveal_strlit("svg");
    reveal_strlit("pdf");
    reveal_strlit("zip");
    reveal_strlit("307");
    reveal_strlit("308");
    reveal_strlit("etag");
    reveal_strlit("allow");
    reveal_strlit("x-content-type-options");
    reveal_strlit("x-frame-options");
    reveal_strlit("x-xss-protection");
    reveal_strlit("cross-origin-resource-policy");
    reveal_strlit("cross-origin-embedder-policy");
    reveal_strlit("cross-origin-opener-policy");
    reveal_strlit("content-security-policy");
    reveal_strlit("strict-transport-security");
    assert(vstd::string::is_ascii("308"));
    assert(vstd::string::is_ascii("etag"));
    assert(vstd::string::is_ascii("allow"));
    assert(vstd::string::is_ascii("x-content-type-options"));
    assert(vstd::string::is_ascii("x-frame-options"));
    assert(vstd::string::is_ascii("x-xss-protection"));
    assert(vstd::string::is_ascii("cross-origin-resource-policy"));
    assert(vstd::string::is_ascii("cross-origin-embedder-policy"));
    assert(vstd::string::is_ascii("cross-origin-opener-policy"));
    assert(vstd::string::is_ascii("content-security-policy"));
    assert(vstd::string::is_ascii("strict-transport-security"));
    assert(vstd::string::is_ascii("html"));
    assert(vstd::string::is_ascii("htm"));
    assert(vstd::string::is_ascii("css"));
    assert(vstd::string::is_ascii("js"));
    assert(vstd::string::is_ascii("mjs"));
    assert(vstd::string::is_ascii("map"));
    assert(vstd::string::is_ascii("json"));
    assert(vstd::string::is_ascii("txt"));
    assert(vstd::string::is_ascii("csv"));
    assert(vstd::string::is_ascii("md"));
    assert(vstd::string::is_ascii("wasm"));
    assert(vstd::string::is_ascii("woff2"));
    assert(vstd::string::is_ascii("ico"));
    assert(vstd::string::is_ascii("webp"));
    assert(vstd::string::is_ascii("avif"));
    assert(vstd::string::is_ascii("gif"));
    assert(vstd::string::is_ascii("heif"));
    assert(vstd::string::is_ascii("heic"));
    assert(vstd::string::is_ascii("png"));
    assert(vstd::string::is_ascii("jpg"));
    assert(vstd::string::is_ascii("mp3"));
    assert(vstd::string::is_ascii("mp4"));
    assert(vstd::string::is_ascii("svg"));
    assert(vstd::string::is_ascii("pdf"));
    assert(vstd::string::is_ascii("zip"));
    assert(vstd::string::is_ascii("307"));
    let s308 = "308".spec_bytes();
    assert(s308.len() == 3 && s308[0] == 51 && s308[1] == 48 && s308[2] == 56);
    let p = spec_default_policy(filename, s308);
    assert(p is Some && p->Some_0.redirection && !p->Some_0.compressible);
    assert forall|i: int| 0 <= i < p->Some_0.headers.len() implies (#[trigger] p
        ->Some_0.headers[i]).0 != "etag".spec_bytes() by {
        assert(p->Some_0.headers == crate::types::spec_default_headers());
        assert("etag".spec_bytes().len() == 4);
        assert("allow".spec_bytes().len() == 5);
        assert("x-content-type-options".spec_bytes().len() == 22);
        assert("x-frame-options".spec_bytes().len() == 15);
        assert("x-xss-protection".spec_bytes().len() == 16);
        assert("cross-origin-resource-policy".spec_bytes().len() == 28);
        assert("cross-origin-embedder-policy".spec_bytes().len() == 28);
        assert("cross-origin-opener-policy".spec_bytes().len() == 26);
        assert("content-security-policy".spec_bytes().len() == 23);
        assert("strict-transport-security".spec_bytes().len() == 25);
    }
}

/// A directory-style request (one ending in `/`) whose table recognizes
/// the permanent sentinel with untagged headers — the default table does,
/// for every file name, by `law_sentinel_policy` — is answered `308` with
/// the location pointing at the path without its trailing slash, and no
/// `etag` header, ever.
pub proof fn law_dir_redirect_untagged(
    pol: spec_fn(Seq<u8>, Seq<u8>) -> Option<PolicyModel>,
    err: Seq<(Seq<u8>, Seq<u8>)>,
    prefix: Seq<u8>,
    method: Seq<u8>,
    path: Seq<u8>,
    content_length: Option<Seq<u8>>,
)
    requires
        match content_length {
            Some(v) => v == "0".spec_bytes(),
            None => true,
        },
        method == "GET".spec_bytes() || method == "HEAD".spec_bytes(),
        spec_starts_with(spec_strip_leading_slash(path), prefix),
        ({
            let p2 = spec_strip_leading_slash(
                spec_strip_leading_slash(path).skip(prefix.len() as int),
            );
            let p3 = p2.take(p2.len() - 1);
            &&& p2.len() > 0 && p2.last() == SLASH
            &&& pol(p3, "308".spec_bytes()) is Some
            &&& forall|i: int|
                0 <= i < pol(p3, "308".spec_bytes())->Some_0.headers.len() ==> (#[trigger] pol(
                    p3,
                    "308".spec_bytes(),
                )->Some_0.headers[i]).0 != "etag".spec_bytes()
        }),
    ensures
        ({
            let p2 = spec_strip_leading_slash(
                spec_strip_leading_slash(path).skip(prefix.len() as int),
            );
            let p3 = p2.take(p2.len() - 1);
            let r = spec_precheck(pol, err, prefix, method, path, content_length);
            &&& r matches PrecheckModel::Done(resp)
            &&& r->Done_0.status == 308
            &&& r->Done_0.body is None
            &&& r->Done_0.headers.last() == (
                "location".spec_bytes(),
                spec_dir_location(prefix, p3),
            )
            &&& forall|i: int|
                0 <= i < r->Done_0.headers.len() ==> (#[trigger] r->Done_0.headers[i]).0
                    != "etag".spec_bytes()
        }),
{
    let p2 = spec_strip_leading_slash(spec_strip_leading_slash(path).skip(prefix.len() as int));
    let p3 = p2.take(p2.len() - 1);
    reveal_strlit("etag");
    reveal_strlit("location");
    assert(vstd::string::is_ascii("etag"));
    assert(vstd::string::is_ascii("location"));
    assert("etag".spec_bytes().len() == 4);
    assert("location".spec_bytes().len() == 8);
    let pm = pol(p3, "308".spec_bytes())->Some_0;
    let r = spec_precheck(pol, err, prefix, method, path, content_length);
    assert(r == PrecheckModel::Done(
        crate::http::ResponseModel {
            status: 308,
            headers: pm.headers.push(("location".spec_bytes(), spec_dir_location(prefix, p3))),
            body: None,
        },
    ));
    assert forall|i: int| 0 <= i < r->Done_0.headers.len() implies (#[trigger] r
        ->Done_0.headers[i]).0 != "etag".spec_bytes() by {
        if i < pm.headers.len() {
            assert(r->Done_0.headers[i] == pm.headers[i]);
        }
    }
}

/// A temporary-redirect sentinel whose conditionals do not short-circuit
/// is answered `307` with no body, the target read from the sentinel's
/// bytes up to the first whitespace, and the entity tag attached.
pub proof fn law_temporary_redirect(
    policy: PolicyModel,
    compressed: bool,
    content: Seq<u8>,
    if_none_match: Option<Seq<u8>>,
    if_match: Option<Seq<u8>>,
    is_get: bool,
)
    requires
        policy.redirection,
        if_none_match != Some(spec_etag(content)),
        match if_match {
            Some(m) => m == spec_etag(content),
            None => true,
        },
    ensures
        ({
            let r = spec_finish(
                policy,
                false,
                compressed,
                content,
                if_none_match,
                if_match,
                is_get,
            );
            &&& r.status == 307
            &&& r.body is None
            &&& r.headers.contains(("location".spec_bytes(), spec_redirect_target(content)))
            &&& r.headers.contains(("etag".spec_bytes(), spec_etag(content)))
        }),
{
    let r = spec_finish(policy, false, compressed, content, if_none_match, if_match, is_get);
    let h1 = policy.headers.push(("content-length".spec_bytes(), "0".spec_bytes())).push(
        ("location".spec_bytes(), spec_redirect_target(content)),
    );
    assert(r.headers == h1.push(("etag".spec_bytes(), spec_etag(content))));
    assert(r.headers[h1.len() - 1] == ("location".spec_bytes(), spec_redirect_target(content)));
    assert(r.headers[h1.len() as int] == ("etag".spec_bytes(), spec_etag(content)));
}

/// An ordinary resource whose conditionals do not short-circuit is
/// answered `200`; a `GET` body is exactly the bytes that were read
/// (the precompressed sibling's bytes when that variant was chosen),
/// and a `HEAD` carries no body under the same headers.
pub proof fn law_success_serves_content(
    policy: PolicyModel,
    compressed: bool,
    content: Seq<u8>,
    if_none_match: Option<Seq<u8>>,
    if_match: Option<Seq<u8>>,
)
    requires
        !policy.redirection,
        if_none_match != Some(spec_etag(content)),
        match if_match {
            Some(m) => m == spec_etag(content),
            None => true,
        },
    ensures
        ({
            let get = spec_finish(policy, false, compressed, content, if_none_match, if_match, true);
            let head = spec_finish(
                policy,
                false,
                compressed,
                content,
                if_none_match,
                if_match,
                false,
            );
            &&& get.status == 200
            &&& get.body == Some(content)
            &&& head.status == 200
            &&& head.body is None
            &&& head.headers == get.headers
        }),
{
}

/// When the precompressed sibling is served, the response says so with
/// `content-encoding: br`; when the raw file is served and the policy
/// itself sets no encoding, no `content-encoding` header appears.
pub proof fn law_compression_marked(
    policy: PolicyModel,
    content: Seq<u8>,
    if_none_match: Option<Seq<u8>>,
    if_match: Option<Seq<u8>>,
    is_get: bool,
)
    requires
        !policy.redirection,
        forall|i: int|
            0 <= i < policy.headers.len() ==> (#[trigger] policy.headers[i]).0
                != "content-encoding".spec_bytes(),
    ensures
        spec_finish(policy, false, true, content, if_none_match, if_match, is_get).headers.contains(
            ("content-encoding".spec_bytes(), "br".spec_bytes()),
        ),
        forall|i: int|
            0 <= i < spec_finish(
                policy,
                false,
                false,
                content,
                if_none_match,
                if_match,
                is_get,
            ).headers.len() ==> (#[trigger] spec_finish(
                policy,
                false,
                false,
                content,
                if_none_match,
                if_match,
                is_get,
            ).headers[i]).0 != "content-encoding".spec_bytes(),
{
    reveal_strlit("content-encoding");
    reveal_strlit("content-length");
    reveal_strlit("etag");
    assert(vstd::string::is_ascii("content-encoding"));
    assert(vstd::string::is_ascii("content-length"));
    assert(vstd::string::is_ascii("etag"));
    assert("content-encoding".spec_bytes().len() == 16);
    assert("content-length".spec_bytes().len() == 14);
    assert("etag".spec_bytes().len() == 4);
    let hc = spec_finish(policy, false, true, content, if_none_match, if_match, is_get).headers;
    let n = policy.headers.len() as int;
    assert(hc[n + 1] == ("content-encoding".spec_bytes(), "br".spec_bytes()));
    assert(hc.contains(("content-encoding".spec_bytes(), "br".spec_bytes())));
    let hr = spec_finish(policy, false, false, content, if_none_match, if_match, is_get).headers;
    assert forall|i: int| 0 <= i < hr.len() implies (#[trigger] hr[i]).0
        != "content-encoding".spec_bytes() by {
        if i < policy.headers.len() {
            assert(hr[i] == policy.headers[i]);
        }
    }
}

} // verus!
