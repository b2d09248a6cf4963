//! The request pipeline's decision rules: normalising the request into a
//! plan, resolving client and jar, and materialising the response — small
//! bodies inline, large ones behind a streaming handle, none where status
//! or method forbids one. The send itself happens outside this crate.

use vstd::prelude::*;
use crate::body::BodyStreamStore;
use crate::errors::{BridgeError, ErrorKind};
use crate::ephemeral::EphemeralClientCache;
use crate::method::{method_acceptable, normalize_method, normalized_method};
use crate::options::{BuildOutcome, ClientPlan, JarPlan, RedirectMode, RequestOptions};
use crate::sessions::SessionRegistry;
use crate::transports::TransportRegistry;
use crate::util::pair_views;

verus! {

/// Responses whose declared length is at most this many bytes are buffered
/// whole and returned inline; larger or unsized bodies are streamed.
pub const INLINE_BODY_MAX: u64 = 64 * 1024;

/// The HEAD method, compared case-insensitively.
pub open spec fn is_head_method(m: Seq<char>) -> bool {
    m.len() == 4 && (m[0] == 'H' || m[0] == 'h') && (m[1] == 'E' || m[1] == 'e') && (m[2] == 'A'
        || m[2] == 'a') && (m[3] == 'D' || m[3] == 'd')
}

/// Whether a response may carry a body at all: not for HEAD requests and
/// not for statuses 101, 204, 205 and 304.
pub open spec fn spec_allows_body(status: u16, method: Seq<char>) -> bool {
    !is_head_method(method) && status != 101 && status != 204 && status != 205 && status != 304
}

/// Executable test for `spec_allows_body`.
pub fn response_allows_body(status: u16, method: &str) -> (r: bool)
    ensures
        r == spec_allows_body(status, method@),
{
    let is_head = method.unicode_len() == 4 && {
        let c0 = method.get_char(0);
        let c1 = method.get_char(1);
        let c2 = method.get_char(2);
        let c3 = method.get_char(3);
        (c0 == 'H' || c0 == 'h') && (c1 == 'E' || c1 == 'e') && (c2 == 'A' || c2 == 'a') && (c3
            == 'D' || c3 == 'd')
    };
    if is_head {
        return false;
    }
    match status {
        101u16 | 204u16 | 205u16 | 304u16 => false,
        _ => true,
    }
}

/// What happens to a response's body.
#[derive(Clone, Copy, Debug, PartialEq, Eq, Structural)]
pub enum BodyDisposition {
    NoBody,
    Inline,
    Stream,
}

/// The body disposition a response gets from its status, method and
/// declared length.
pub open spec fn spec_disposition(status: u16, method: Seq<char>, content_length: Option<
    u64,
>) -> BodyDisposition {
    if !spec_allows_body(status, method) {
        BodyDisposition::NoBody
    } else {
        match content_length {
            Some(n) => if n <= INLINE_BODY_MAX {
                BodyDisposition::Inline
            } else {
                BodyDisposition::Stream
            },
            None => BodyDisposition::Stream,
        }
    }
}

/// Decide the body disposition.
pub fn body_disposition(status: u16, method: &str, content_length: Option<u64>) -> (r:
    BodyDisposition)
    ensures
        r == spec_disposition(status, method@, content_length),
{
    if !response_allows_body(status, method) {
        BodyDisposition::NoBody
    } else {
        match content_length {
            Some(n) => if n <= INLINE_BODY_MAX {
                BodyDisposition::Inline
            } else {
                BodyDisposition::Stream
            },
            None => BodyDisposition::Stream,
        }
    }
}

/// A response with a small declared body that may carry one is inlined —
/// never streamed. Together with `finish_inline`, whose result holds the
/// drained bytes with `content_length` set to their exact count and no
/// body handle, this pins the inline path down.
pub proof fn lemma_small_bodies_inline(status: u16, method: Seq<char>, n: u64)
    requires
        spec_allows_body(status, method),
        n <= INLINE_BODY_MAX,
    ensures
        spec_disposition(status, method, Some(n)) == BodyDisposition::Inline,
{
}

/// A response whose status is 101, 204, 205 or 304, or whose request was a
/// HEAD, carries no body at all. Together with `finish_without_body`,
/// whose result has neither inline bytes nor a body handle, this pins the
/// bodiless path down.
pub proof fn lemma_no_body_statuses(status: u16, method: Seq<char>, content_length: Option<u64>)
    requires
        status == 101 || status == 204 || status == 205 || status == 304 || is_head_method(method),
    ensures
        spec_disposition(status, method, content_length) == BodyDisposition::NoBody,
{
}

/// One response as delivered to the host.
#[derive(Debug)]
pub struct Response {
    pub status: u16,
    pub headers: Vec<(String, String)>,
    pub body_handle: Option<u64>,
    pub body_bytes: Option<Vec<u8>>,
    pub cookies: Vec<(String, String)>,
    pub url: String,
    pub content_length: Option<u64>,
}

/// A well-formed response: never both inline bytes and a stream handle,
/// and inline bytes always come with their exact length.
pub open spec fn response_wf(r: Response) -> bool {
    &&& !(r.body_bytes is Some && r.body_handle is Some)
    &&& (r.body_bytes matches Some(b) ==> r.content_length == Some(b@.len() as u64))
}

/// What the transport handed back before any body was consumed: status,
/// final URL, headers and Set-Cookie pairs in server order, and the
/// declared length, if any.
#[derive(Debug)]
pub struct RawResponseParts {
    pub status: u16,
    pub url: String,
    pub headers: Vec<(String, String)>,
    pub cookies: Vec<(String, String)>,
    pub content_length: Option<u64>,
}

/// Shape a response that carries no body.
pub fn finish_without_body(parts: RawResponseParts) -> (r: Response)
    ensures
        response_wf(r),
        r.status == parts.status,
        r.url@ == parts.url@,
        r.headers == parts.headers,
        r.cookies == parts.cookies,
        r.content_length == parts.content_length,
        r.body_bytes is None,
        r.body_handle is None,
{
    let RawResponseParts { status, url, headers, cookies, content_length } = parts;
    Response { status, headers, body_handle: None, body_bytes: None, cookies, url, content_length }
}

/// Shape a response whose body was drained whole: the bytes ride inline
/// and `content_length` is overwritten with their observed count.
pub fn finish_inline(parts: RawResponseParts, bytes: Vec<u8>) -> (r: Response)
    requires
        bytes@.len() <= u64::MAX,
    ensures
        response_wf(r),
        r.status == parts.status,
        r.url@ == parts.url@,
        r.headers == parts.headers,
        r.cookies == parts.cookies,
        r.body_bytes matches Some(b) && b@ == bytes@,
        r.content_length == Some(bytes@.len() as u64),
        r.body_handle is None,
{
    let RawResponseParts { status, url, headers, cookies, content_length: _ } = parts;
    let n = bytes.len() as u64;
    Response {
        status,
        headers,
        body_handle: None,
        body_bytes: Some(bytes),
        cookies,
        url,
        content_length: Some(n),
    }
}

/// Register the response's stream in the body store and shape a response
/// that points at the fresh handle.
pub fn finish_streamed(parts: RawResponseParts, store: &mut BodyStreamStore) -> (r: Response)
    requires
        old(store).wf(),
        old(store).spec_next() < u64::MAX,
    ensures
        final(store).wf(),
        response_wf(r),
        r.status == parts.status,
        r.url@ == parts.url@,
        r.headers == parts.headers,
        r.cookies == parts.cookies,
        r.content_length == parts.content_length,
        r.body_bytes is None,
        r.body_handle matches Some(h) && h == old(store).spec_next() && final(store).handles()
            == old(store).handles().insert(h),
{
    let h = store.store_body_stream();
    let RawResponseParts { status, url, headers, cookies, content_length } = parts;
    Response {
        status,
        headers,
        body_handle: Some(h),
        body_bytes: None,
        cookies,
        url,
        content_length,
    }
}

/// The outgoing request, fully decided: method normalised, headers in
/// insertion order, body, timeout, redirect policy and default-header
/// suppression as the caller asked.
#[derive(Debug)]
pub struct RequestPlan {
    pub method: String,
    pub url: String,
    pub headers: Vec<(String, String)>,
    pub body: Option<Vec<u8>>,
    pub timeout_ms: u64,
    pub redirect: RedirectMode,
    pub disable_default_headers: bool,
}

/// Turn the request options into a plan: the method is normalised (empty
/// becomes GET, an invalid token is a `BadMethod` error) and everything
/// else is carried over unchanged, headers in their original order.
pub fn build_request_plan(options: RequestOptions) -> (r: Result<RequestPlan, BridgeError>)
    ensures
        r is Ok <==> method_acceptable(options.method@),
        r matches Ok(p) ==> p.method@ == normalized_method(options.method@) && p.url@
            == options.url@ && p.headers == options.headers && p.body == options.body
            && p.timeout_ms == options.timeout && p.redirect == options.redirect
            && p.disable_default_headers == options.disable_default_headers,
        r matches Err(e) ==> e.kind == ErrorKind::BadMethod,
{
    let RequestOptions { url, headers, method, body, timeout, redirect, disable_default_headers, .. }
        = options;
    let method = match normalize_method(method.as_str()) {
        Ok(m) => m,
        Err(e) => {
            return Err(e);
        },
    };
    Ok(
        RequestPlan {
            method,
            url,
            headers,
            body,
            timeout_ms: timeout,
            redirect,
            disable_default_headers,
        },
    )
}

/// The client a request resolved to: one held by a named transport, one
/// from the ephemeral cache, or a fresh one built for this request alone.
#[derive(Debug)]
pub enum ResolvedClient {
    Registered(u64),
    CachedEphemeral(u64),
    FreshClient,
}

/// Resolve the request's client in the documented priority order: a named
/// transport (failing with `TransportNotFound` if unknown), else the
/// ephemeral cache, else a fresh build. `built` is what the outside
/// builder produced; it is consulted only where a client must be built.
pub fn resolve_client(
    plan: &ClientPlan,
    transports: &TransportRegistry,
    cache: &mut EphemeralClientCache,
    built: &BuildOutcome,
    now_ms: u64,
) -> (r: Result<ResolvedClient, BridgeError>)
    requires
        transports.wf(),
        old(cache).wf(),
        old(cache).spec_next_client() < u64::MAX,
    ensures
        final(cache).wf(),
        plan matches ClientPlan::UseTransport(t) ==> ((r is Ok <==> transports@.contains_key(t@))
            && (r matches Ok(x) ==> (x matches ResolvedClient::Registered(cid) && cid
            == transports@[t@])) && (r matches Err(e) ==> e.kind == ErrorKind::TransportNotFound)
            && final(cache)@ == old(cache)@),
        plan matches ClientPlan::UseEphemeral(c) ==> ((old(cache)@.contains_key(c@) ==> (
        r matches Ok(x) && x matches ResolvedClient::CachedEphemeral(id) && id
            == old(cache)@[c@].client)) && (!old(cache)@.contains_key(c@) && built is Built ==> (
        r matches Ok(x) && x matches ResolvedClient::CachedEphemeral(id) && id
            == old(cache).spec_next_client())) && (built matches BuildOutcome::BuildFailed(m) ==> (
        !old(cache)@.contains_key(c@) ==> (r matches Err(e) && e.kind == ErrorKind::ClientBuild
            && e.detail@ == m@ && final(cache)@ == old(cache)@)))),
        plan is BuildFresh ==> ((built is Built ==> (r matches Ok(x) && x is FreshClient)) && (
        built matches BuildOutcome::BuildFailed(m) ==> (r matches Err(e) && e.kind
            == ErrorKind::ClientBuild && e.detail@ == m@)) && final(cache)@ == old(cache)@),
    {
    match plan {
        ClientPlan::UseTransport(t) => {
            match transports.get_transport(t) {
                Ok(cid) => Ok(ResolvedClient::Registered(cid)),
                Err(e) => Err(e),
            }
        },
        ClientPlan::UseEphemeral(c) => {
            match cache.client_for(c, built, now_ms) {
                Ok(id) => Ok(ResolvedClient::CachedEphemeral(id)),
                Err(e) => Err(e),
            }
        },
        ClientPlan::BuildFresh(_) => {
            match built {
                BuildOutcome::Built => Ok(ResolvedClient::FreshClient),
                BuildOutcome::BuildFailed(m) => Err(
                    BridgeError::new(ErrorKind::ClientBuild, m.clone()),
                ),
            }
        },
    }
}

/// Bind the request's jar. An ephemeral request touches no registry at
/// all — its detached jar lives and dies with the request, so no entry for
/// its session id is ever created. A session request gets its session's
/// jar, created empty on first use.
pub fn resolve_jar(reg: &mut SessionRegistry, plan: &JarPlan, now_ms: u64)
    requires
        old(reg).wf(),
    ensures
        final(reg).wf(),
        plan is Detached ==> final(reg)@ == old(reg)@,
        plan matches JarPlan::Session(sid) ==> (final(reg)@.contains_key(sid@)
            && (old(reg)@.contains_key(sid@) ==> final(reg)@[sid@].jar@ == old(reg)@[sid@].jar@)
            && (!old(reg)@.contains_key(sid@) ==> final(reg)@[sid@].jar@ == Seq::<
            (Seq<char>, Seq<char>),
            >::empty())),
{
    match plan {
        JarPlan::Detached => {},
        JarPlan::Session(sid) => {
            reg.jar_for(sid, now_ms);
        },
    }
}

/// Absorb a response's Set-Cookie pairs. An ephemeral request's cookies go
/// nowhere; a session request's cookies are appended to its session's jar.
pub fn absorb_response_cookies(
    reg: &mut SessionRegistry,
    plan: &JarPlan,
    cookies: &Vec<(String, String)>,
    now_ms: u64,
)
    requires
        old(reg).wf(),
        plan matches JarPlan::Session(sid) ==> old(reg)@.contains_key(sid@),
    ensures
        final(reg).wf(),
        plan is Detached ==> final(reg)@ == old(reg)@,
        plan matches JarPlan::Session(sid) ==> (final(reg)@.contains_key(sid@)
            && final(reg)@[sid@].jar@ == old(reg)@[sid@].jar@ + pair_views(cookies@)),
{
    match plan {
        JarPlan::Detached => {},
        JarPlan::Session(sid) => {
            reg.absorb_cookies(sid, cookies, now_ms);
        },
    }
}

} // verus!
