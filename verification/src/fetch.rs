//! The way of an upload by URL: each target is checked (its host resolved
//! where private addresses are blocked), requested, and either followed to
//! its redirect or read within the limits.
use vstd::prelude::*;
use crate::model::{is_bad_request, WebError};
use crate::net::{
    check_resolved_addresses, parse_upload_url, spec_is_private_upload_ip, spec_port_or_default,
    spec_target_error, spec_target_needs_resolve, spec_upload_url, validate_url_upload_target,
    IpValue, TargetCheck,
};
use crate::settings::RuntimeSettings;
use crate::text::opt_view;
use crate::upload::{
    check_content_length, redirect_target, reject_url_upload_remote_addr, spec_length_too_large,
    spec_redirect_target, spec_remote_addr_refused, spec_response_limit, url_response_limit,
};

verus! {

/// How far a fetch has come.
#[derive(Clone, Copy, Debug, PartialEq, Eq, Structural)]
pub enum FetchStage {
    /// The target's host is being resolved.
    Resolving,
    /// The target was requested.
    Requesting,
    /// The response is read, or the fetch was refused.
    Finished,
}

/// A fetch under way: the current target and the redirects followed so far.
#[derive(Debug)]
pub struct UrlFetch {
    pub stage: FetchStage,
    pub url: String,
    pub redirects: usize,
}

/// A response to a request of the target, as far as the fetch reads it. An
/// error status is refused by the host as the HTTP client reports it.
#[derive(Debug)]
pub struct FetchAnswer {
    /// The address the response came from.
    pub remote_addr: Option<IpValue>,
    /// Whether the status is a redirection.
    pub redirect: bool,
    /// The `Location` header, when it is text.
    pub location: Option<String>,
    /// The announced `Content-Length`.
    pub content_length: Option<u64>,
}

/// What the host brings back to the next step.
#[derive(Debug)]
pub enum FetchEvent {
    /// The addresses the target's host resolved to.
    Resolved(Vec<IpValue>),
    /// The response to the request.
    Answered(FetchAnswer),
}

/// What the host does next.
#[derive(Debug)]
pub enum FetchAction {
    /// Resolve `host`, for `port`.
    Resolve { host: String, port: u16 },
    /// Request `url`, without following redirects.
    Request { url: String },
    /// Read the response body, refusing it past `limit` bytes.
    Read { limit: i64 },
    /// The upload is refused.
    Refuse(WebError),
}

/// `a` refuses with `e`, and the fetch is finished.
pub open spec fn fetch_refused(f: UrlFetch, a: FetchAction, e: WebError) -> bool {
    f.stage == FetchStage::Finished && a == FetchAction::Refuse(e)
}

/// `a` refuses with a bad request saying `msg`, and the fetch is finished.
pub open spec fn fetch_refuses(f: UrlFetch, a: FetchAction, msg: Seq<char>) -> bool {
    &&& f.stage == FetchStage::Finished
    &&& a matches FetchAction::Refuse(e) && is_bad_request(e, msg)
}

/// What checking the target `url` leads to: a refusal of an invalid or
/// forbidden target, the resolution of its host, or its request.
pub open spec fn target_checked(settings: RuntimeSettings, url: Seq<char>, f: UrlFetch, a: FetchAction) -> bool {
    match spec_upload_url(url) {
        Err(m) => fetch_refuses(f, a, m),
        Ok(v) => match spec_target_error(settings.security.url_upload, v) {
            Some(m) => fetch_refuses(f, a, m),
            None => if spec_target_needs_resolve(settings.security.url_upload, v) {
                &&& f.stage == FetchStage::Resolving
                &&& a matches FetchAction::Resolve { host, port } && host@ == v.1.unwrap() && Some(
                    port,
                ) == spec_port_or_default(v)
            } else {
                &&& f.stage == FetchStage::Requesting
                &&& a matches FetchAction::Request { url: u } && u@ == url
            },
        },
    }
}

/// Whether `event` is the answer that `stage` waits for.
pub open spec fn fetch_event_fits(stage: FetchStage, event: FetchEvent) -> bool {
    match stage {
        FetchStage::Resolving => event is Resolved,
        FetchStage::Requesting => event is Answered,
        FetchStage::Finished => false,
    }
}

/// Whether a step follows a redirect: the response is a redirection from an
/// address that is not refused, and its target is taken.
pub open spec fn follows_redirect(settings: RuntimeSettings, f: UrlFetch, event: FetchEvent) -> bool {
    match event {
        FetchEvent::Answered(ans) => {
            &&& !spec_remote_addr_refused(settings.security.url_upload, ans.remote_addr)
            &&& ans.redirect
            &&& spec_redirect_target(
                f.redirects,
                settings.security.url_upload.max_redirects,
                f.url@,
                opt_view(ans.location),
            ) is Ok
        },
        FetchEvent::Resolved(_) => false,
    }
}

fn refuse(f: &mut UrlFetch, e: WebError) -> (a: FetchAction)
    ensures
        fetch_refused(*final(f), a, e),
        final(f).url == old(f).url,
        final(f).redirects == old(f).redirects,
{
    f.stage = FetchStage::Finished;
    FetchAction::Refuse(e)
}

fn check_target(settings: &RuntimeSettings, f: &mut UrlFetch) -> (a: FetchAction)
    ensures
        target_checked(*settings, old(f).url@, *final(f), a),
        final(f).url == old(f).url,
        final(f).redirects == old(f).redirects,
{
    let parts = match parse_upload_url(f.url.as_str()) {
        Ok(p) => p,
        Err(e) => return refuse(f, e),
    };
    match validate_url_upload_target(&settings.security.url_upload, &parts) {
        Err(e) => refuse(f, e),
        Ok(TargetCheck::Resolve { host, port }) => {
            f.stage = FetchStage::Resolving;
            FetchAction::Resolve { host, port }
        },
        Ok(TargetCheck::Allowed) => {
            f.stage = FetchStage::Requesting;
            FetchAction::Request { url: f.url.clone() }
        },
    }
}

/// Starts the fetch of `url`: the target is checked first.
pub fn fetch_begin(settings: &RuntimeSettings, url: &str) -> (r: (UrlFetch, FetchAction))
    ensures
        r.0.url@ == url@,
        r.0.redirects == 0,
        target_checked(*settings, url@, r.0, r.1),
{
    let mut f = UrlFetch { stage: FetchStage::Resolving, url: url.to_owned(), redirects: 0 };
    let a = check_target(settings, &mut f);
    (f, a)
}

/// One step of a fetch. Resolved addresses must all be public. A response
/// from a private address is refused where those are blocked; a redirect is
/// followed (up to the redirect limit) to a target that is checked again; any
/// other response is refused when it announces more bytes than the limits
/// allow, and else read within them.
pub fn fetch_step(settings: &RuntimeSettings, f: &mut UrlFetch, event: FetchEvent) -> (a: FetchAction)
    requires
        fetch_event_fits(old(f).stage, event),
        old(f).redirects <= settings.security.url_upload.max_redirects,
    ensures
        final(f).redirects <= settings.security.url_upload.max_redirects,
        final(f).redirects == if follows_redirect(*settings, *old(f), event) {
            old(f).redirects + 1
        } else {
            old(f).redirects as int
        },
        follows_redirect(*settings, *old(f), event) ==> old(f).redirects
            < settings.security.url_upload.max_redirects,
        !follows_redirect(*settings, *old(f), event) ==> final(f).url == old(f).url,
        match event {
            FetchEvent::Resolved(addrs) => {
                &&& final(f).url == old(f).url
                &&& final(f).redirects == old(f).redirects
                &&& if addrs@.len() > 0 && forall|i: int|
                    0 <= i < addrs@.len() ==> !spec_is_private_upload_ip(#[trigger] addrs@[i]) {
                    &&& final(f).stage == FetchStage::Requesting
                    &&& a matches FetchAction::Request { url: u } && u@ == old(f).url@
                } else if addrs@.len() == 0 {
                    fetch_refuses(*final(f), a, "URL host did not resolve"@)
                } else {
                    fetch_refuses(*final(f), a, "URL resolved to a private or local address"@)
                }
            },
            FetchEvent::Answered(ans) => if spec_remote_addr_refused(
                settings.security.url_upload,
                ans.remote_addr,
            ) {
                fetch_refuses(*final(f), a, "URL resolved to a private or local address"@)
            } else if ans.redirect {
                match spec_redirect_target(
                    old(f).redirects,
                    settings.security.url_upload.max_redirects,
                    old(f).url@,
                    opt_view(ans.location),
                ) {
                    Err(m) => fetch_refuses(*final(f), a, m),
                    Ok(u) => {
                        &&& final(f).url@ == u
                        &&& final(f).redirects == old(f).redirects + 1
                        &&& target_checked(*settings, u, *final(f), a)
                    },
                }
            } else if spec_length_too_large(*settings, ans.content_length) {
                fetch_refused(*final(f), a, WebError::PayloadTooLarge)
            } else if spec_response_limit(*settings) < 0 {
                fetch_refused(*final(f), a, WebError::PayloadTooLarge)
            } else {
                final(f).stage == FetchStage::Finished && a == FetchAction::Read {
                    limit: spec_response_limit(*settings),
                }
            },
        },
{
    match event {
        FetchEvent::Resolved(addrs) => match check_resolved_addresses(&addrs) {
            Err(e) => refuse(f, e),
            Ok(()) => {
                f.stage = FetchStage::Requesting;
                FetchAction::Request { url: f.url.clone() }
            },
        },
        FetchEvent::Answered(ans) => {
            if let Err(e) = reject_url_upload_remote_addr(&settings.security.url_upload, ans.remote_addr) {
                return refuse(f, e);
            }
            if ans.redirect {
                let loc = match &ans.location {
                    Some(l) => Some(l.as_str()),
                    None => None,
                };
                let next = match redirect_target(
                    f.redirects,
                    settings.security.url_upload.max_redirects,
                    f.url.as_str(),
                    loc,
                ) {
                    Ok(u) => u,
                    Err(e) => return refuse(f, e),
                };
                f.url = next;
                f.redirects = f.redirects + 1;
                return check_target(settings, f);
            }
            if let Err(e) = check_content_length(settings, ans.content_length) {
                return refuse(f, e);
            }
            match url_response_limit(settings) {
                Err(e) => refuse(f, e),
                Ok(limit) => {
                    f.stage = FetchStage::Finished;
                    FetchAction::Read { limit }
                },
            }
        },
    }
}

} // verus!
