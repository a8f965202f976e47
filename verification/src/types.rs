//! The default policy table: baseline security headers, the error header
//! set, and the extension-driven content-type / cache-control mapping.
use crate::bytes::{bytes_eq, spec_starts_with, starts_with};
use crate::handler::{opt_policy_view, HeaderSelector, HeadersAndCompression, PolicyModel};
use crate::http::{lines_view, Line};
use vstd::prelude::*;
use vstd::string::StringSliceAdditionalSpecFns;

verus! {

/// The baseline security-header set that every non-error response starts
/// from, in emission order.
pub open spec fn spec_default_headers() -> Seq<(Seq<u8>, Seq<u8>)> {
    seq![
        ("allow".spec_bytes(), "GET, HEAD".spec_bytes()),
        ("x-content-type-options".spec_bytes(), "nosniff".spec_bytes()),
        ("x-frame-options".spec_bytes(), "DENY".spec_bytes()),
        ("x-xss-protection".spec_bytes(), "1; mode=block".spec_bytes()),
        ("cross-origin-resource-policy".spec_bytes(), "same-site".spec_bytes()),
        ("cross-origin-embedder-policy".spec_bytes(), "credentialless".spec_bytes()),
        ("cross-origin-opener-policy".spec_bytes(), "same-origin".spec_bytes()),
        (
            "content-security-policy".spec_bytes(),
            "default-src 'self';script-src 'wasm-unsafe-eval';script-src-elem 'self' 'unsafe-inline';script-src-attr 'none';worker-src 'self' blob:;style-src 'self' 'unsafe-inline';img-src 'self' data: blob:;font-src 'self' data:;frame-src 'none';object-src 'none';base-uri 'none';frame-ancestors 'none';form-action 'none'".spec_bytes(),
        ),
        (
            "strict-transport-security".spec_bytes(),
            "max-age=63072000; includeSubDomains; preload".spec_bytes(),
        ),
    ]
}

/// The header lines of every error response: `allow` and an empty length.
pub open spec fn spec_error_headers() -> Seq<(Seq<u8>, Seq<u8>)> {
    seq![
        ("allow".spec_bytes(), "GET, HEAD".spec_bytes()),
        ("content-length".spec_bytes(), "0".spec_bytes()),
    ]
}

/// Cache-control for resources that must be revalidated on every use.
pub open spec fn spec_cc_no_cache() -> Seq<u8> {
    "public,no-cache,max-age=0,must-revalidate;stale-if-error=3600".spec_bytes()
}

/// Cache-control for resources cached briefly, then revalidated.
pub open spec fn spec_cc_revalidate() -> Seq<u8> {
    "public,max-age=3600,must-revalidate,stale-if-error=3600".spec_bytes()
}

/// Cache-control for immutable resources.
pub open spec fn spec_cc_immutable() -> Seq<u8> {
    "public,max-age=86400,immutable,stale-while-revalidate=864000,stale-if-error=3600".spec_bytes()
}

/// The policy assembled from the baseline headers plus an optional
/// content-type and cache-control; a missing content-type marks a
/// redirect sentinel.
pub open spec fn spec_headers_and_compression(
    content_type: Option<Seq<u8>>,
    cache_control: Option<Seq<u8>>,
    compressible: bool,
) -> PolicyModel {
    PolicyModel {
        headers: spec_default_headers() + (match content_type {
            Some(ct) => seq![("content-type".spec_bytes(), ct)],
            None => Seq::empty(),
        }) + (match cache_control {
            Some(cc) => seq![("cache-control".spec_bytes(), cc)],
            None => Seq::empty(),
        }),
        compressible,
        redirection: content_type is None,
    }
}

/// The view of an optional static byte slice.
pub open spec fn opt_slice_view(r: Option<&'static [u8]>) -> Option<Seq<u8>> {
    match r {
        Some(b) => Some(b@),
        None => None,
    }
}

/// The extra header a service-worker script carries.
pub open spec fn spec_sw_allowed_line() -> (Seq<u8>, Seq<u8>) {
    ("service-worker-allowed".spec_bytes(), "/".spec_bytes())
}

/// True of file names that a browser treats as service-worker scripts.
pub open spec fn spec_is_service_worker(filename: Seq<u8>) -> bool {
    spec_starts_with(filename, "service-worker.".spec_bytes()) || spec_starts_with(
        filename,
        "sw.".spec_bytes(),
    )
}

/// What the default table returns for a file name and extension.
pub open spec fn spec_default_policy(filename: Seq<u8>, ext: Seq<u8>) -> Option<PolicyModel> {
    if ext == "html".spec_bytes() || ext == "htm".spec_bytes() {
        Some(
            spec_headers_and_compression(
                Some("text/html".spec_bytes()),
                Some(spec_cc_revalidate()),
                true,
            ),
        )
    } else if ext == "css".spec_bytes() {
        Some(
            spec_headers_and_compression(
                Some("text/css".spec_bytes()),
                Some(spec_cc_revalidate()),
                true,
            ),
        )
    } else if ext == "js".spec_bytes() || ext == "mjs".spec_bytes() || ext == "map".spec_bytes() {
        if spec_is_service_worker(filename) {
            Some(
                PolicyModel {
                    headers: spec_headers_and_compression(
                        Some("application/javascript".spec_bytes()),
                        Some(spec_cc_no_cache()),
                        true,
                    ).headers.push(spec_sw_allowed_line()),
                    compressible: true,
                    redirection: false,
                },
            )
        } else {
            Some(
                spec_headers_and_compression(
                    Some("application/javascript".spec_bytes()),
                    Some(spec_cc_revalidate()),
                    true,
                ),
            )
        }
    } else if ext == "json".spec_bytes() {
        Some(
            spec_headers_and_compression(
                Some("application/json".spec_bytes()),
                Some(spec_cc_revalidate()),
                true,
            ),
        )
    } else if ext == "txt".spec_bytes() {
        Some(
            spec_headers_and_compression(
                Some("text/plain".spec_bytes()),
                Some(spec_cc_revalidate()),
                true,
            ),
        )
    } else if ext == "csv".spec_bytes() {
        Some(
            spec_headers_and_compression(
                Some("text/csv".spec_bytes()),
                Some(spec_cc_revalidate()),
                true,
            ),
        )
    } else if ext == "md".spec_bytes() {
        Some(
            spec_headers_and_compression(
                Some("text/markdown".spec_bytes()),
                Some(spec_cc_revalidate()),
                true,
            ),
        )
    } else if ext == "wasm".spec_bytes() {
        Some(
            spec_headers_and_compression(
                Some("application/wasm".spec_bytes()),
                Some(spec_cc_revalidate()),
                true,
            ),
        )
    } else if ext == "woff2".spec_bytes() {
        Some(
            spec_headers_and_compression(
                Some("font/woff2".spec_bytes()),
                Some(spec_cc_revalidate()),
                false,
            ),
        )
    } else if ext == "ico".spec_bytes() {
        Some(
            spec_headers_and_compression(
                Some("image/x-icon".spec_bytes()),
                Some(spec_cc_immutable()),
                true,
            ),
        )
    } else if ext == "webp".spec_bytes() {
        Some(
            spec_headers_and_compression(
                Some("image/webp".spec_bytes()),
                Some(spec_cc_immutable()),
                false,
            ),
        )
    } else if ext == "avif".spec_bytes() {
        Some(
            spec_headers_and_compression(
                Some("image/avif".spec_bytes()),
                Some(spec_cc_immutable()),
                false,
            ),
        )
    } else if ext == "gif".spec_bytes() {
        Some(
            spec_headers_and_compression(
                Some("image/gif".spec_bytes()),
                Some(spec_cc_immutable()),
                false,
            ),
        )
    } else if ext == "heif".spec_bytes() {
        Some(
            spec_headers_and_compression(
                Some("image/heif".spec_bytes()),
                Some(spec_cc_immutable()),
                false,
            ),
        )
    } else if ext == "heic".spec_bytes() {
        Some(
            spec_headers_and_compression(
                Some("image/heic".spec_bytes()),
                Some(spec_cc_immutable()),
                false,
            ),
        )
    } else if ext == "png".spec_bytes() {
        Some(
            spec_headers_and_compression(
                Some("image/png".spec_bytes()),
                Some(spec_cc_immutable()),
                false,
            ),
        )
    } else if ext == "jpg".spec_bytes() {
        Some(
            spec_headers_and_compression(
                Some("image/jpeg".spec_bytes()),
                Some(spec_cc_immutable()),
                false,
            ),
        )
    } else if ext == "mp3".spec_bytes() {
        Some(
            spec_headers_and_compression(
                Some("audio/mp3".spec_bytes()),
                Some(spec_cc_revalidate()),
                false,
            ),
        )
    } else if ext == "mp4".spec_bytes() {
        Some(
            spec_headers_and_compression(
                Some("video/mp4".spec_bytes()),
                Some(spec_cc_revalidate()),
                false,
            ),
        )
    } else if ext == "svg".spec_bytes() {
        Some(
            spec_headers_and_compression(
                Some("image/svg+xml".spec_bytes()),
                Some(spec_cc_immutable()),
                true,
            ),
        )
    } else if ext == "pdf".spec_bytes() {
        Some(
            spec_headers_and_compression(
                Some("application/pdf".spec_bytes()),
                Some(spec_cc_revalidate()),
                true,
            ),
        )
    } else if ext == "zip".spec_bytes() {
        Some(
            spec_headers_and_compression(
                Some("application/zip".spec_bytes()),
                Some(spec_cc_revalidate()),
                false,
            ),
        )
    } else if ext == "307".spec_bytes() {
        Some(spec_headers_and_compression(None, Some(spec_cc_revalidate()), false))
    } else if ext == "308".spec_bytes() {
        Some(spec_headers_and_compression(None, None, false))
    } else {
        None
    }
}

/// The baseline security-header set, built fresh.
pub fn default_headers() -> (r: Vec<Line>)
    ensures
        lines_view(r@) == spec_default_headers(),
{
    let mut r: Vec<Line> = Vec::new();
    r.push(Line::with_slice_value("allow".as_bytes(), "GET, HEAD".as_bytes()));
    r.push(Line::with_slice_value("x-content-type-options".as_bytes(), "nosniff".as_bytes()));
    r.push(Line::with_slice_value("x-frame-options".as_bytes(), "DENY".as_bytes()));
    r.push(Line::with_slice_value("x-xss-protection".as_bytes(), "1; mode=block".as_bytes()));
    r.push(Line::with_slice_value("cross-origin-resource-policy".as_bytes(), "same-site".as_bytes()));
    r.push(
        Line::with_slice_value("cross-origin-embedder-policy".as_bytes(), "credentialless".as_bytes()),
    );
    r.push(Line::with_slice_value("cross-origin-opener-policy".as_bytes(), "same-origin".as_bytes()));
    r.push(
        Line::with_slice_value(
            "content-security-policy".as_bytes(),
            "default-src 'self';script-src 'wasm-unsafe-eval';script-src-elem 'self' 'unsafe-inline';script-src-attr 'none';worker-src 'self' blob:;style-src 'self' 'unsafe-inline';img-src 'self' data: blob:;font-src 'self' data:;frame-src 'none';object-src 'none';base-uri 'none';frame-ancestors 'none';form-action 'none'".as_bytes(),
        ),
    );
    r.push(
        Line::with_slice_value(
            "strict-transport-security".as_bytes(),
            "max-age=63072000; includeSubDomains; preload".as_bytes(),
        ),
    );
    proof {
        assert(lines_view(r@) =~= spec_default_headers());
    }
    r
}

/// The error header set, built fresh.
pub fn default_error_headers() -> (r: Vec<Line>)
    ensures
        lines_view(r@) == spec_error_headers(),
{
    let mut r: Vec<Line> = Vec::new();
    r.push(Line::with_slice_value("allow".as_bytes(), "GET, HEAD".as_bytes()));
    r.push(Line::with_slice_value("content-length".as_bytes(), "0".as_bytes()));
    proof {
        assert(lines_view(r@) =~= spec_error_headers());
    }
    r
}

/// The policy assembled from the baseline headers plus the given
/// content-type and cache-control lines.
pub fn headers_and_compression(
    content_type: Option<&'static [u8]>,
    cache_control: Option<&'static [u8]>,
    compressible: bool,
) -> (r: HeadersAndCompression)
    ensures
        r@ == spec_headers_and_compression(
            opt_slice_view(content_type),
            opt_slice_view(cache_control),
            compressible,
        ),
{
    let mut headers = default_headers();
    let redirection = content_type.is_none();
    if let Some(ct) = content_type {
        headers.push(Line::with_slice_value("content-type".as_bytes(), ct));
    }
    if let Some(cc) = cache_control {
        headers.push(Line::with_slice_value("cache-control".as_bytes(), cc));
    }
    let r = HeadersAndCompression { headers, compressible, redirection };
    proof {
        assert(r@.headers =~= spec_headers_and_compression(
            opt_slice_view(content_type),
            opt_slice_view(cache_control),
            compressible,
        ).headers);
    }
    r
}

/// The default table: the policy for each known extension.
pub fn headers_for_type(filename: &[u8], extension: &[u8]) -> (r: Option<HeadersAndCompression>)
    ensures
        opt_policy_view(r) == spec_default_policy(filename@, extension@),
{
    if bytes_eq(extension, "html".as_bytes()) || bytes_eq(extension, "htm".as_bytes()) {
        Some(
            headers_and_compression(
                Some("text/html".as_bytes()),
                Some("public,max-age=3600,must-revalidate,stale-if-error=3600".as_bytes()),
                true,
            ),
        )
    } else if bytes_eq(extension, "css".as_bytes()) {
        Some(
            headers_and_compression(
                Some("text/css".as_bytes()),
                Some("public,max-age=3600,must-revalidate,stale-if-error=3600".as_bytes()),
                true,
            ),
        )
    } else if bytes_eq(extension, "js".as_bytes()) || bytes_eq(extension, "mjs".as_bytes())
        || bytes_eq(extension, "map".as_bytes()) {
        if starts_with(filename, "service-worker.".as_bytes()) || starts_with(
            filename,
            "sw.".as_bytes(),
        ) {
            let mut hc = headers_and_compression(
                Some("application/javascript".as_bytes()),
                Some("public,no-cache,max-age=0,must-revalidate;stale-if-error=3600".as_bytes()),
                true,
            );
            hc.headers.push(
                Line::with_slice_value("service-worker-allowed".as_bytes(), "/".as_bytes()),
            );
            proof {
                assert(lines_view(hc.headers@) =~= spec_default_policy(
                    filename@,
                    extension@,
                )->Some_0.headers);
            }
            Some(hc)
        } else {
            Some(
                headers_and_compression(
                    Some("application/javascript".as_bytes()),
                    Some("public,max-age=3600,must-revalidate,stale-if-error=3600".as_bytes()),
                    true,
                ),
            )
        }
    } else if bytes_eq(extension, "json".as_bytes()) {
        Some(
            headers_and_compression(
                Some("application/json".as_bytes()),
                Some("public,max-age=3600,must-revalidate,stale-if-error=3600".as_bytes()),
                true,
            ),
        )
    } else if bytes_eq(extension, "txt".as_bytes()) {
        Some(
            headers_and_compression(
                Some("text/plain".as_bytes()),
                Some("public,max-age=3600,must-revalidate,stale-if-error=3600".as_bytes()),
                true,
            ),
        )
    } else if bytes_eq(extension, "csv".as_bytes()) {
        Some(
            headers_and_compression(
                Some("text/csv".as_bytes()),
                Some("public,max-age=3600,must-revalidate,stale-if-error=3600".as_bytes()),
                true,
            ),
        )
    } else if bytes_eq(extension, "md".as_bytes()) {
        Some(
            headers_and_compression(
                Some("text/markdown".as_bytes()),
                Some("public,max-age=3600,must-revalidate,stale-if-error=3600".as_bytes()),
                true,
            ),
        )
    } else if bytes_eq(extension, "wasm".as_bytes()) {
        Some(
            headers_and_compression(
                Some("application/wasm".as_bytes()),
                Some("public,max-age=3600,must-revalidate,stale-if-error=3600".as_bytes()),
                true,
            ),
        )
    } else if bytes_eq(extension, "woff2".as_bytes()) {
        Some(
            headers_and_compression(
                Some("font/woff2".as_bytes()),
                Some("public,max-age=3600,must-revalidate,stale-if-error=3600".as_bytes()),
                false,
            ),
        )
    } else if bytes_eq(extension, "ico".as_bytes()) {
        Some(
            headers_and_compression(
                Some("image/x-icon".as_bytes()),
                Some(
                    "public,max-age=86400,immutable,stale-while-revalidate=864000,stale-if-error=3600".as_bytes(),
                ),
                true,
            ),
        )
    } else if bytes_eq(extension, "webp".as_bytes()) {
        Some(
            headers_and_compression(
                Some("image/webp".as_bytes()),
                Some(
                    "public,max-age=86400,immutable,stale-while-revalidate=864000,stale-if-error=3600".as_bytes(),
                ),
                false,
            ),
        )
    } else if bytes_eq(extension, "avif".as_bytes()) {
        Some(
            headers_and_compression(
                Some("image/avif".as_bytes()),
                Some(
                    "public,max-age=86400,immutable,stale-while-revalidate=864000,stale-if-error=3600".as_bytes(),
                ),
                false,
            ),
        )
    } else if bytes_eq(extension, "gif".as_bytes()) {
        Some(
            headers_and_compression(
                Some("image/gif".as_bytes()),
                Some(
                    "public,max-age=86400,immutable,stale-while-revalidate=864000,stale-if-error=3600".as_bytes(),
                ),
                false,
            ),
        )
    } else if bytes_eq(extension, "heif".as_bytes()) {
        Some(
            headers_and_compression(
                Some("image/heif".as_bytes()),
                Some(
                    "public,max-age=86400,immutable,stale-while-revalidate=864000,stale-if-error=3600".as_bytes(),
                ),
                false,
            ),
        )
    } else if bytes_eq(extension, "heic".as_bytes()) {
        Some(
            headers_and_compression(
                Some("image/heic".as_bytes()),
                Some(
                    "public,max-age=86400,immutable,stale-while-revalidate=864000,stale-if-error=3600".as_bytes(),
                ),
                false,
            ),
        )
    } else if bytes_eq(extension, "png".as_bytes()) {
        Some(
            headers_and_compression(
                Some("image/png".as_bytes()),
                Some(
                    "public,max-age=86400,immutable,stale-while-revalidate=864000,stale-if-error=3600".as_bytes(),
                ),
                false,
            ),
        )
    } else if bytes_eq(extension, "jpg".as_bytes()) {
        Some(
            headers_and_compression(
                Some("image/jpeg".as_bytes()),
                Some(
                    "public,max-age=86400,immutable,stale-while-revalidate=864000,stale-if-error=3600".as_bytes(),
                ),
                false,
            ),
        )
    } else if bytes_eq(extension, "mp3".as_bytes()) {
        Some(
            headers_and_compression(
                Some("audio/mp3".as_bytes()),
                Some("public,max-age=3600,must-revalidate,stale-if-error=3600".as_bytes()),
                false,
            ),
        )
    } else if bytes_eq(extension, "mp4".as_bytes()) {
        Some(
            headers_and_compression(
                Some("video/mp4".as_bytes()),
                Some("public,max-age=3600,must-revalidate,stale-if-error=3600".as_bytes()),
                false,
            ),
        )
    } else if bytes_eq(extension, "svg".as_bytes()) {
        Some(
            headers_and_compression(
                Some("image/svg+xml".as_bytes()),
                Some(
                    "public,max-age=86400,immutable,stale-while-revalidate=864000,stale-if-error=3600".as_bytes(),
                ),
                true,
            ),
        )
    } else if bytes_eq(extension, "pdf".as_bytes()) {
        Some(
            headers_and_compression(
                Some("application/pdf".as_bytes()),
                Some("public,max-age=3600,must-revalidate,stale-if-error=3600".as_bytes()),
                true,
            ),
        )
    } else if bytes_eq(extension, "zip".as_bytes()) {
        Some(
            headers_and_compression(
                Some("application/zip".as_bytes()),
                Some("public,max-age=3600,must-revalidate,stale-if-error=3600".as_bytes()),
                false,
            ),
        )
    } else if bytes_eq(extension, "307".as_bytes()) {
        Some(
            headers_and_compression(
                None,
                Some("public,max-age=3600,must-revalidate,stale-if-error=3600".as_bytes()),
                false,
            ),
        )
    } else if bytes_eq(extension, "308".as_bytes()) {
        Some(headers_and_compression(None, None, false))
    } else {
        None
    }
}

/// The policy table the server is started with.
pub struct DefaultHeaderSelector;

impl HeaderSelector for DefaultHeaderSelector {
    open spec fn policy_spec(&self, filename: Seq<u8>, extension: Seq<u8>) -> Option<PolicyModel> {
        spec_default_policy(filename, extension)
    }

    open spec fn error_headers_spec(&self) -> Seq<(Seq<u8>, Seq<u8>)> {
        spec_error_headers()
    }

    fn headers_for_extension(&self, filename: &[u8], extension: &[u8]) -> (r: Option<
        HeadersAndCompression,
    >) {
        headers_for_type(filename, extension)
    }

    fn error_headers(&self) -> (r: Vec<Line>) {
        default_error_headers()
    }
}

} // verus!
