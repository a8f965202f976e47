//! The request resolver: prefix stripping, traversal rejection, candidate
//! generation, redirect sentinels, variant selection and conditional
//! evaluation, against a pluggable header-policy selector.
use crate::bytes::{bytes_eq, concat_bytes, copy_bytes, spec_starts_with, starts_with};
use crate::etag::{compute_etag, spec_dec, spec_etag, usize_to_dec};
use crate::http::{lines_view, Line, ResponseDescription, ResponseModel, StatusCode};
use crate::path::{extension, filename, spec_extension, spec_filename, DOT, SLASH};
use vstd::prelude::*;
use vstd::string::StringSliceAdditionalSpecFns;

verus! {

broadcast use crate::http::lemma_lines_view_push;

/// The mathematical shape of a policy lookup result: the header lines the
/// resource starts from, whether a precompressed sibling is tried, and
/// whether the resource is a redirect sentinel.
pub ghost struct PolicyModel {
    pub headers: Seq<(Seq<u8>, Seq<u8>)>,
    pub compressible: bool,
    pub redirection: bool,
}

/// A policy lookup result: baseline plus type-specific header lines, the
/// compressibility flag, and the redirect-sentinel flag.
pub struct HeadersAndCompression {
    pub headers: Vec<Line>,
    pub compressible: bool,
    pub redirection: bool,
}

impl View for HeadersAndCompression {
    type V = PolicyModel;

    open spec fn view(&self) -> PolicyModel {
        PolicyModel {
            headers: lines_view(self.headers@),
            compressible: self.compressible,
            redirection: self.redirection,
        }
    }
}

/// The view of an optional policy lookup result.
pub open spec fn opt_policy_view(r: Option<HeadersAndCompression>) -> Option<PolicyModel> {
    match r {
        Some(hc) => Some(hc@),
        None => None,
    }
}

/// The view of optional request-header bytes.
pub open spec fn opt_bytes_view(r: Option<&[u8]>) -> Option<Seq<u8>> {
    match r {
        Some(b) => Some(b@),
        None => None,
    }
}

/// Chooses the header policy for a file name and extension, and the error
/// header set. Alternative tables can be swapped in without touching the
/// resolver; each implementation fixes its own `policy_spec`.
pub trait HeaderSelector: Sized {
    /// What the lookup returns, as a function of the file name and extension.
    spec fn policy_spec(&self, filename: Seq<u8>, extension: Seq<u8>) -> Option<PolicyModel>;

    /// The header lines of every error response.
    spec fn error_headers_spec(&self) -> Seq<(Seq<u8>, Seq<u8>)>;

    fn headers_for_extension(&self, filename: &[u8], extension: &[u8]) -> (r: Option<
        HeadersAndCompression,
    >)
        ensures
            opt_policy_view(r) == self.policy_spec(filename@, extension@),
    ;

    fn error_headers(&self) -> (r: Vec<Line>)
        ensures
            lines_view(r@) == self.error_headers_spec(),
    ;
}

/// The policy lookup of a selector, as a single spec-level function.
pub open spec fn selector_policy<T: HeaderSelector>(s: T) -> spec_fn(Seq<u8>, Seq<u8>) -> Option<
    PolicyModel,
> {
    |f: Seq<u8>, e: Seq<u8>| s.policy_spec(f, e)
}

/// An error response: the given status over the error header set, no body.
pub open spec fn spec_error_response(status: u16, err: Seq<(Seq<u8>, Seq<u8>)>) -> ResponseModel {
    ResponseModel { status, headers: err, body: None }
}

/// `p` without a single leading `/`, if it has one.
pub open spec fn spec_strip_leading_slash(p: Seq<u8>) -> Seq<u8> {
    if p.len() > 0 && p[0] == SLASH {
        p.skip(1)
    } else {
        p
    }
}

/// True when `p` holds a `/.` pair: a hidden or `..`-style segment.
pub open spec fn spec_has_dot_segment(p: Seq<u8>) -> bool {
    exists|i: int| 0 <= i && i + 1 < p.len() && #[trigger] p[i] == SLASH && p[i + 1] == DOT
}

/// True when resolution refuses `p` outright: a leading dot or a `/.` pair.
pub open spec fn spec_is_traversal(p: Seq<u8>) -> bool {
    (p.len() > 0 && p[0] == DOT) || spec_has_dot_segment(p)
}

/// The on-disk paths tried for a logical path, in trial order.
pub open spec fn spec_candidates(p: Seq<u8>) -> Seq<Seq<u8>> {
    if p.len() == 0 {
        seq!["index.html".spec_bytes(), "index.307".spec_bytes(), "index.308".spec_bytes()]
    } else {
        seq![
            p,
            p + ".html".spec_bytes(),
            p + ".307".spec_bytes(),
            p + ".308".spec_bytes(),
        ]
    }
}

/// Where a directory-style request is redirected: the prefix and the path
/// without its trailing slash, joined absolute.
pub open spec fn spec_dir_location(prefix: Seq<u8>, p: Seq<u8>) -> Seq<u8> {
    if prefix.len() == 0 {
        seq![SLASH] + p
    } else {
        seq![SLASH] + prefix + seq![SLASH] + p
    }
}

/// The outcome of the checks that need no filesystem: either a finished
/// response, or the candidate list to try on disk.
pub ghost enum PrecheckModel {
    Done(ResponseModel),
    Search { candidates: Seq<Seq<u8>>, is_get: bool },
}

/// What the resolver decides before any file is opened, as a function of
/// the policy table, error headers, prefix, and the request line.
pub open spec fn spec_precheck(
    pol: spec_fn(Seq<u8>, Seq<u8>) -> Option<PolicyModel>,
    err: Seq<(Seq<u8>, Seq<u8>)>,
    prefix: Seq<u8>,
    method: Seq<u8>,
    path: Seq<u8>,
    content_length: Option<Seq<u8>>,
) -> PrecheckModel {
    if match content_length {
        Some(v) => v != "0".spec_bytes(),
        None => false,
    } {
        PrecheckModel::Done(spec_error_response(400, err))
    } else if method != "GET".spec_bytes() && method != "HEAD".spec_bytes() {
        PrecheckModel::Done(spec_error_response(405, err))
    } else {
        let is_get = method == "GET".spec_bytes();
        let p1 = spec_strip_leading_slash(path);
        if !spec_starts_with(p1, prefix) {
            PrecheckModel::Done(spec_error_response(404, err))
        } else {
            let p2 = spec_strip_leading_slash(p1.skip(prefix.len() as int));
            if p2.len() > 0 && p2.last() == SLASH {
                let p3 = p2.take(p2.len() - 1);
                match pol(p3, "308".spec_bytes()) {
                    Some(pm) => PrecheckModel::Done(
                        ResponseModel {
                            status: 308,
                            headers: pm.headers.push(
                                ("location".spec_bytes(), spec_dir_location(prefix, p3)),
                            ),
                            body: None,
                        },
                    ),
                    None => PrecheckModel::Done(spec_error_response(404, err)),
                }
            } else if spec_is_traversal(p2) {
                PrecheckModel::Done(spec_error_response(404, err))
            } else {
                PrecheckModel::Search { candidates: spec_candidates(p2), is_get }
            }
        }
    }
}

/// The outcome of the filesystem-free checks.
pub enum Precheck {
    Done(ResponseDescription),
    Search { candidates: Vec<Vec<u8>>, is_get: bool },
}

impl View for Precheck {
    type V = PrecheckModel;

    open spec fn view(&self) -> PrecheckModel {
        match self {
            Precheck::Done(r) => PrecheckModel::Done(r@),
            Precheck::Search { candidates, is_get } => PrecheckModel::Search {
                candidates: candidates.deep_view(),
                is_get: *is_get,
            },
        }
    }
}

/// The mathematical shape of a candidate's trial plan.
pub ghost struct PlanModel {
    pub policy: PolicyModel,
    pub br_path: Option<Seq<u8>>,
    pub is_permanent: bool,
}

/// What one candidate needs from the filesystem: its policy, the
/// precompressed sibling to try first if any, and whether its extension
/// is the permanent-redirect sentinel.
pub struct CandidatePlan {
    pub policy: HeadersAndCompression,
    pub br_path: Option<Vec<u8>>,
    pub is_permanent: bool,
}

impl View for CandidatePlan {
    type V = PlanModel;

    open spec fn view(&self) -> PlanModel {
        PlanModel {
            policy: self.policy@,
            br_path: match self.br_path {
                Some(p) => Some(p@),
                None => None,
            },
            is_permanent: self.is_permanent,
        }
    }
}

/// The trial plan of a candidate path under a policy table: `None` exactly
/// when the table does not recognize the candidate's extension.
pub open spec fn spec_plan(
    pol: spec_fn(Seq<u8>, Seq<u8>) -> Option<PolicyModel>,
    cand: Seq<u8>,
) -> Option<PlanModel> {
    let f = spec_filename(cand);
    let e = spec_extension(f);
    match pol(f, e) {
        Some(pm) => Some(
            PlanModel {
                policy: pm,
                br_path: if pm.compressible {
                    Some(cand + ".br".spec_bytes())
                } else {
                    None
                },
                is_permanent: e == "308".spec_bytes(),
            },
        ),
        None => None,
    }
}

/// True of the bytes at which a redirect target is truncated.
pub open spec fn spec_is_ws(b: u8) -> bool {
    b == 9 || b == 10 || b == 12 || b == 13 || b == 32
}

/// The index of the first whitespace byte, or the length if none.
pub open spec fn spec_first_ws(s: Seq<u8>) -> int
    decreases s.len(),
{
    if s.len() == 0 {
        0
    } else if spec_is_ws(s[0]) {
        0
    } else {
        1 + spec_first_ws(s.skip(1))
    }
}

/// A sentinel file's bytes up to the first whitespace: the redirect target.
pub open spec fn spec_redirect_target(content: Seq<u8>) -> Seq<u8> {
    content.take(spec_first_ws(content))
}

proof fn lemma_first_ws_at(s: Seq<u8>, i: int)
    requires
        0 <= i <= s.len(),
        forall|j: int| 0 <= j < i ==> !spec_is_ws(s[j]),
        i < s.len() ==> spec_is_ws(s[i]),
    ensures
        spec_first_ws(s) == i,
    decreases i,
{
    if i > 0 {
        lemma_first_ws_at(s.skip(1), i - 1);
    }
}

/// What the negotiation engine answers for content read for a candidate:
/// header construction, entity tag, conditional evaluation, final status.
pub open spec fn spec_finish(
    policy: PolicyModel,
    is_permanent: bool,
    compressed: bool,
    content: Seq<u8>,
    if_none_match: Option<Seq<u8>>,
    if_match: Option<Seq<u8>>,
    is_get: bool,
) -> ResponseModel {
    let etag = spec_etag(content);
    let h1 = if policy.redirection {
        policy.headers.push(("content-length".spec_bytes(), "0".spec_bytes())).push(
            ("location".spec_bytes(), spec_redirect_target(content)),
        )
    } else {
        let h = policy.headers.push(("content-length".spec_bytes(), spec_dec(content.len())));
        if compressed {
            h.push(("content-encoding".spec_bytes(), "br".spec_bytes()))
        } else {
            h
        }
    };
    let has_etag = !is_permanent;
    let headers = if has_etag {
        h1.push(("etag".spec_bytes(), etag))
    } else {
        h1
    };
    if has_etag && if_none_match == Some(etag) {
        ResponseModel { status: 304, headers, body: None }
    } else if has_etag && (match if_match {
        Some(m) => m != etag,
        None => false,
    }) {
        ResponseModel { status: 412, headers, body: None }
    } else if policy.redirection {
        ResponseModel {
            status: if has_etag {
                307
            } else {
                308
            },
            headers,
            body: None,
        }
    } else {
        ResponseModel {
            status: 200,
            headers,
            body: if is_get {
                Some(content)
            } else {
                None
            },
        }
    }
}

fn is_ws(b: u8) -> (r: bool)
    ensures
        r == spec_is_ws(b),
{
    b == 9 || b == 10 || b == 12 || b == 13 || b == 32
}

fn first_ws(s: &[u8]) -> (r: usize)
    ensures
        r == spec_first_ws(s@),
        r <= s@.len(),
{
    let mut i: usize = 0;
    while i < s.len()
        invariant
            0 <= i <= s@.len(),
            forall|j: int| 0 <= j < i ==> !spec_is_ws(s@[j]),
        decreases s@.len() - i,
    {
        if is_ws(s[i]) {
            proof {
                lemma_first_ws_at(s@, i as int);
            }
            return i;
        }
        i = i + 1;
    }
    proof {
        lemma_first_ws_at(s@, i as int);
    }
    i
}

/// The resolver: a URL prefix fixed at startup and a header-policy selector.
pub struct Handler<T: HeaderSelector> {
    pub prefix: &'static [u8],
    pub header_selector: T,
}

impl<T: HeaderSelector> Handler<T> {
    fn error_response(&self, status: StatusCode) -> (r: ResponseDescription)
        ensures
            r@ == spec_error_response(status.spec_u16(), self.header_selector.error_headers_spec()),
    {
        ResponseDescription { status, headers: self.header_selector.error_headers(), body: None }
    }

    /// The exhaustion response: no candidate resolved.
    pub fn not_found(&self) -> (r: ResponseDescription)
        ensures
            r@ == spec_error_response(404, self.header_selector.error_headers_spec()),
    {
        self.error_response(StatusCode::NotFound)
    }

    fn dir_location(&self, p: &[u8]) -> (r: Vec<u8>)
        ensures
            r@ == spec_dir_location(self.prefix@, p@),
    {
        let mut r: Vec<u8> = Vec::new();
        r.push(SLASH);
        if self.prefix.len() > 0 {
            r.extend_from_slice(self.prefix);
            r.push(SLASH);
        }
        r.extend_from_slice(p);
        proof {
            assert(r@ =~= spec_dir_location(self.prefix@, p@));
        }
        r
    }

    /// Everything the resolver decides before any file is opened: body
    /// rejection, the method gate, prefix stripping, the trailing-slash
    /// redirect, the traversal guard, and candidate generation.
    pub fn precheck(&self, method: &[u8], path: &[u8], content_length: Option<&[u8]>) -> (r:
        Precheck)
        ensures
            r@ == spec_precheck(
                selector_policy(self.header_selector),
                self.header_selector.error_headers_spec(),
                self.prefix@,
                method@,
                path@,
                opt_bytes_view(content_length),
            ),
    {
        if let Some(v) = content_length {
            if !bytes_eq(v, "0".as_bytes()) {
                return Precheck::Done(self.error_response(StatusCode::BadRequest));
            }
        }
        let is_get = bytes_eq(method, "GET".as_bytes());
        if !is_get && !bytes_eq(method, "HEAD".as_bytes()) {
            return Precheck::Done(self.error_response(StatusCode::MethodNotAllowed));
        }
        let p1: &[u8] = if path.len() > 0 && path[0] == SLASH {
            vstd::slice::slice_subrange(path, 1, path.len())
        } else {
            path
        };
        assert(p1@ == spec_strip_leading_slash(path@));
        if !starts_with(p1, self.prefix) {
            return Precheck::Done(self.error_response(StatusCode::NotFound));
        }
        let p2pre: &[u8] = vstd::slice::slice_subrange(p1, self.prefix.len(), p1.len());
        let p2: &[u8] = if p2pre.len() > 0 && p2pre[0] == SLASH {
            vstd::slice::slice_subrange(p2pre, 1, p2pre.len())
        } else {
            p2pre
        };
        assert(p2@ == spec_strip_leading_slash(p1@.skip(self.prefix@.len() as int)));
        let n2 = p2.len();
        if n2 > 0 && p2[n2 - 1] == SLASH {
            let p3: &[u8] = vstd::slice::slice_subrange(p2, 0, n2 - 1);
            assert(p3@ == p2@.take(p2@.len() - 1));
            match self.header_selector.headers_for_extension(p3, "308".as_bytes()) {
                Some(hc) => {
                    let HeadersAndCompression { headers: mut headers, compressible: _, redirection: _ } =
                        hc;
                    let loc = self.dir_location(p3);
                    headers.push(Line::with_owned_value("location".as_bytes(), loc));
                    return Precheck::Done(
                        ResponseDescription {
                            status: StatusCode::PermanentRedirect,
                            headers,
                            body: None,
                        },
                    );
                },
                None => {
                    return Precheck::Done(self.error_response(StatusCode::NotFound));
                },
            }
        }
        if p2.len() > 0 && p2[0] == DOT {
            return Precheck::Done(self.error_response(StatusCode::NotFound));
        }
        if has_dot_segment(p2) {
            return Precheck::Done(self.error_response(StatusCode::NotFound));
        }
        let mut candidates: Vec<Vec<u8>> = Vec::new();
        if p2.len() == 0 {
            candidates.push(copy_bytes("index.html".as_bytes()));
            candidates.push(copy_bytes("index.307".as_bytes()));
            candidates.push(copy_bytes("index.308".as_bytes()));
        } else {
            candidates.push(copy_bytes(p2));
            candidates.push(concat_bytes(p2, ".html".as_bytes()));
            candidates.push(concat_bytes(p2, ".307".as_bytes()));
            candidates.push(concat_bytes(p2, ".308".as_bytes()));
        }
        proof {
            assert(candidates.deep_view() =~~= spec_candidates(p2@));
        }
        Precheck::Search { candidates, is_get }
    }

    /// The trial plan for one candidate path, or `None` when the policy
    /// table does not recognize it and the search moves on.
    pub fn candidate_plan(&self, candidate: &Vec<u8>) -> (r: Option<CandidatePlan>)
        ensures
            match r {
                Some(plan) => spec_plan(selector_policy(self.header_selector), candidate@)
                    == Some(plan@),
                None => spec_plan(selector_policy(self.header_selector), candidate@) is None,
            },
    {
        let f = filename(candidate.as_slice());
        let e = extension(f);
        match self.header_selector.headers_for_extension(f, e) {
            Some(policy) => {
                let br_path = if policy.compressible {
                    Some(concat_bytes(candidate.as_slice(), ".br".as_bytes()))
                } else {
                    None
                };
                let is_permanent = bytes_eq(e, "308".as_bytes());
                Some(CandidatePlan { policy, br_path, is_permanent })
            },
            None => None,
        }
    }
}

fn has_dot_segment(p: &[u8]) -> (r: bool)
    ensures
        r == spec_has_dot_segment(p@),
{
    let n = p.len();
    if n < 2 {
        return false;
    }
    let mut i: usize = 0;
    while i < n - 1
        invariant
            n == p@.len(),
            n >= 2,
            0 <= i,
            i + 1 <= p@.len(),
            forall|j: int| 0 <= j && j + 1 < i + 1 ==> !(#[trigger] p@[j] == SLASH && p@[j + 1]
                == DOT),
        decreases p@.len() - i,
    {
        if p[i] == SLASH && p[i + 1] == DOT {
            return true;
        }
        i = i + 1;
    }
    false
}

/// The negotiation engine's last step: given the bytes read for a
/// candidate and whether they came from the precompressed sibling, build
/// the headers, fingerprint the content, evaluate the conditional
/// headers, and settle the status and body.
pub fn finish_candidate(
    plan: CandidatePlan,
    compressed: bool,
    content: Vec<u8>,
    if_none_match: Option<&[u8]>,
    if_match: Option<&[u8]>,
    is_get: bool,
) -> (r: ResponseDescription)
    ensures
        r@ == spec_finish(
            plan.policy@,
            plan.is_permanent,
            compressed,
            content@,
            opt_bytes_view(if_none_match),
            opt_bytes_view(if_match),
            is_get,
        ),
{
    let CandidatePlan { policy, br_path: _, is_permanent } = plan;
    let HeadersAndCompression { headers: mut headers, compressible: _, redirection } = policy;
    let etag = compute_etag(content.as_slice());
    if redirection {
        headers.push(Line::with_slice_value("content-length".as_bytes(), "0".as_bytes()));
        let end = first_ws(content.as_slice());
        let target = copy_bytes(vstd::slice::slice_subrange(content.as_slice(), 0, end));
        assert(target@ == spec_redirect_target(content@));
        headers.push(Line::with_owned_value("location".as_bytes(), target));
    } else {
        headers.push(
            Line::with_owned_value("content-length".as_bytes(), usize_to_dec(content.len())),
        );
        if compressed {
            headers.push(Line::with_slice_value("content-encoding".as_bytes(), "br".as_bytes()));
        }
    }
    if !is_permanent {
        headers.push(Line::with_owned_value("etag".as_bytes(), copy_bytes(etag.as_slice())));
        if let Some(inm) = if_none_match {
            if bytes_eq(inm, etag.as_slice()) {
                return ResponseDescription { status: StatusCode::NotModified, headers, body: None };
            }
        }
        if let Some(im) = if_match {
            if !bytes_eq(im, etag.as_slice()) {
                return ResponseDescription {
                    status: StatusCode::PreconditionFailed,
                    headers,
                    body: None,
                };
            }
        }
    }
    if redirection {
        if !is_permanent {
            ResponseDescription { status: StatusCode::TemporaryRedirect, headers, body: None }
        } else {
            ResponseDescription { status: StatusCode::PermanentRedirect, headers, body: None }
        }
    } else {
        ResponseDescription {
            status: StatusCode::OK,
            headers,
            body: if is_get {
                Some(content)
            } else {
                None
            },
        }
    }
}

/// The proxy-fallback decision: a locally computed response is replaced by
/// the upstream's exactly when it is a client error and an upstream is
/// configured.
pub fn should_forward(status: StatusCode, has_upstream: bool) -> (r: bool)
    ensures
        r == (has_upstream && 400 <= status.spec_u16() < 500),
{
    has_upstream && status.is_client_error()
}

} // verus!
