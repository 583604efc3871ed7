//! The way of an upload from its arrival to its storage. Each step takes what
//! the host brought back from the last action (the sniffed type, a rewritten
//! temporary file, a hash, the scanners' verdict, the stored item) and says
//! what to do next, until the upload is accepted or refused.
use vstd::prelude::*;
use crate::crypto::{hex_lower, sha256};
use crate::model::{is_bad_request, WebError};
use crate::settings::{RuntimeSettings, ScanDecision};
use crate::text::{opt_str_view, opt_view};
use crate::upload::{
    check_blocked_upload, check_upload_policy, declared_type, finish_upload, memory_stripped,
    name_guess, resolved_content_type, scan_file_state, spec_blocked_upload_error,
    spec_choose_content_type, spec_upload_policy_error, TempFileRewrite, UploadedFile,
    UploadedFileSource,
};

verus! {

/// How far an upload has come.
#[derive(Clone, Copy, Debug, PartialEq, Eq, Structural)]
pub enum UploadStage {
    /// Waiting for the type sniffed from its first bytes.
    Arrived,
    /// Its temporary file is being rewritten without metadata.
    Rewriting,
    /// Its temporary file is being hashed.
    Hashing,
    /// The scanners are looking at it.
    Scanning,
    /// It is being stored.
    Storing,
    /// It was accepted or refused.
    Finished,
}

/// What is settled about an upload so far.
#[derive(Debug)]
pub struct UploadFlow {
    pub stage: UploadStage,
    pub content_type: String,
    pub hash: String,
    pub file_state: String,
}

/// What the host brings back to the next step.
#[derive(Debug)]
pub enum UploadEvent {
    /// The type that sniffing the upload's first bytes found, if any.
    Sniffed(Option<String>),
    /// The rewritten temporary file, or none where the image could not be
    /// rewritten and stays as it is.
    Rewritten(Option<TempFileRewrite>),
    /// The lower case hexadecimal SHA-256 of the temporary file.
    Hashed(String),
    /// The scanners' verdict.
    Scanned(ScanDecision),
    /// The upload was stored in the state it was given.
    Stored,
}

/// What the host does next.
#[derive(Debug)]
pub enum UploadAction {
    /// Rewrite the temporary file at `path` without the metadata of its type.
    RewriteTemp { path: String, content_type: String },
    /// Remove the temporary file `discard` (the one replaced by a rewrite),
    /// if any, and hash the one at `path`.
    HashTemp { path: String, discard: Option<String> },
    /// Run the scanners on the upload.
    Scan { content_type: String, hash: String },
    /// Store the upload with this type and hash, in `file_state`.
    Store { content_type: String, hash: String, file_state: String },
    /// The upload is accepted.
    Accept,
    /// The upload is refused.
    Refuse(WebError),
}

/// Whether `event` is the answer that `stage` waits for.
pub open spec fn event_fits(stage: UploadStage, event: UploadEvent) -> bool {
    match stage {
        UploadStage::Arrived => event is Sniffed,
        UploadStage::Rewriting => event is Rewritten,
        UploadStage::Hashing => event is Hashed,
        UploadStage::Scanning => event is Scanned,
        UploadStage::Storing => event is Stored,
        UploadStage::Finished => false,
    }
}

/// `a` refuses the upload with `msg`, and the flow is finished.
pub open spec fn refuses(flow: UploadFlow, a: UploadAction, msg: Seq<char>) -> bool {
    &&& flow.stage == UploadStage::Finished
    &&& a matches UploadAction::Refuse(e) && is_bad_request(e, msg)
}

/// What follows a hash: the block lists refuse it, or the scanners look at it.
pub open spec fn screened(
    settings: RuntimeSettings,
    content_type: Seq<char>,
    hash: Seq<char>,
    flow: UploadFlow,
    a: UploadAction,
) -> bool {
    match spec_blocked_upload_error(settings, hash, content_type) {
        Some(m) => refuses(flow, a, m),
        None => {
            &&& flow.stage == UploadStage::Scanning
            &&& flow.hash@ == hash
            &&& a matches UploadAction::Scan { content_type: c, hash: h } && c@ == content_type
                && h@ == hash
        },
    }
}

/// What follows the stripping: an upload in memory is hashed and screened at
/// once; one in a temporary file is hashed by the host, which first removes
/// `discard`.
pub open spec fn after_strip(
    settings: RuntimeSettings,
    content_type: Seq<char>,
    uploaded: UploadedFile,
    discard: Option<Seq<char>>,
    flow: UploadFlow,
    a: UploadAction,
) -> bool {
    match uploaded.source {
        UploadedFileSource::Memory(b) => screened(
            settings,
            content_type,
            hex_lower(sha256(b@)),
            flow,
            a,
        ),
        UploadedFileSource::TempPath(p) => {
            &&& flow.stage == UploadStage::Hashing
            &&& a matches UploadAction::HashTemp { path: q, discard: d } && q@ == p@ && opt_view(d)
                == discard
        },
    }
}

impl UploadFlow {
    /// A flow for an upload that just arrived.
    pub fn new() -> (r: Self)
        ensures
            r.stage == UploadStage::Arrived,
            r.content_type@ == Seq::<char>::empty(),
            r.hash@ == Seq::<char>::empty(),
            r.file_state@ == Seq::<char>::empty(),
    {
        UploadFlow {
            stage: UploadStage::Arrived,
            content_type: String::new(),
            hash: String::new(),
            file_state: String::new(),
        }
    }
}

fn finish_refused(flow: &mut UploadFlow, e: WebError) -> (a: UploadAction)
    ensures
        final(flow).stage == UploadStage::Finished,
        final(flow).content_type == old(flow).content_type,
        final(flow).hash == old(flow).hash,
        final(flow).file_state == old(flow).file_state,
        a == UploadAction::Refuse(e),
{
    flow.stage = UploadStage::Finished;
    UploadAction::Refuse(e)
}

fn screen(settings: &RuntimeSettings, flow: &mut UploadFlow, hash: String) -> (a: UploadAction)
    ensures
        screened(*settings, old(flow).content_type@, hash@, *final(flow), a),
        final(flow).content_type == old(flow).content_type,
{
    match check_blocked_upload(settings, hash.as_str(), flow.content_type.as_str()) {
        Err(e) => finish_refused(flow, e),
        Ok(()) => {
            flow.stage = UploadStage::Scanning;
            let scan_hash = hash.clone();
            flow.hash = hash;
            UploadAction::Scan { content_type: flow.content_type.clone(), hash: scan_hash }
        },
    }
}

fn hash_next(
    settings: &RuntimeSettings,
    flow: &mut UploadFlow,
    uploaded: &UploadedFile,
    discard: Option<String>,
) -> (a: UploadAction)
    ensures
        after_strip(
            *settings,
            old(flow).content_type@,
            *uploaded,
            opt_view(discard),
            *final(flow),
            a,
        ),
        final(flow).content_type == old(flow).content_type,
{
    match uploaded.sha256_hex() {
        Some(h) => screen(settings, flow, h),
        None => {
            let path = match uploaded.source_path() {
                Some(p) => p.to_owned(),
                None => String::new(),
            };
            flow.stage = UploadStage::Hashing;
            UploadAction::HashTemp { path, discard }
        },
    }
}

/// One step of an upload's way in. On arrival the upload gets its content
/// type and meets the content policy; where metadata stripping is on, an
/// upload in memory is stripped at once and one in a temporary file is
/// rewritten by the host. Then it is hashed, checked against the block lists,
/// scanned (a rejected upload is refused), stored, and finally refused if the
/// scanners quarantined it, else accepted.
pub fn upload_step(
    settings: &RuntimeSettings,
    flow: &mut UploadFlow,
    uploaded: &mut UploadedFile,
    event: UploadEvent,
) -> (a: UploadAction)
    requires
        event_fits(old(flow).stage, event),
    ensures
        match event {
            UploadEvent::Sniffed(sniffed) => match spec_choose_content_type(
                settings.security.reject_mime_mismatch,
                declared_type(old(uploaded)),
                name_guess(old(uploaded)),
                opt_view(sniffed),
            ) {
                Err(m) => refuses(*final(flow), a, m) && *final(uploaded) == *old(uploaded),
                Ok(ct) => match spec_upload_policy_error(
                    *settings,
                    opt_view(old(uploaded).filename),
                    ct,
                ) {
                    Some(m) => refuses(*final(flow), a, m) && *final(uploaded) == *old(uploaded),
                    None => {
                        &&& final(flow).content_type@ == ct
                        &&& if settings.processing.metadata_stripping
                            && old(uploaded).source is TempPath {
                            &&& *final(uploaded) == *old(uploaded)
                            &&& final(flow).stage == UploadStage::Rewriting
                            &&& a matches UploadAction::RewriteTemp { path: p, content_type: c }
                                && c@ == ct && (old(uploaded).source matches UploadedFileSource::TempPath(q)
                                && p@ == q@)
                        } else {
                            &&& if settings.processing.metadata_stripping {
                                memory_stripped(*old(uploaded), ct, *final(uploaded))
                            } else {
                                *final(uploaded) == *old(uploaded)
                            }
                            &&& after_strip(*settings, ct, *final(uploaded), None, *final(flow), a)
                        }
                    },
                },
            },
            UploadEvent::Rewritten(rewrite) => {
                &&& final(flow).content_type == old(flow).content_type
                &&& match rewrite {
                    Some(rw) => {
                        &&& final(uploaded).source matches UploadedFileSource::TempPath(p) && p@
                            == rw.path@
                        &&& final(uploaded).size_bytes == rw.size_bytes
                        &&& final(uploaded).preview@ == rw.preview@
                        &&& final(uploaded).filename == old(uploaded).filename
                        &&& final(uploaded).content_type == old(uploaded).content_type
                        &&& after_strip(
                            *settings,
                            old(flow).content_type@,
                            *final(uploaded),
                            match old(uploaded).source {
                                UploadedFileSource::TempPath(q) => Some(q@),
                                UploadedFileSource::Memory(_) => None,
                            },
                            *final(flow),
                            a,
                        )
                    },
                    None => {
                        &&& *final(uploaded) == *old(uploaded)
                        &&& after_strip(
                            *settings,
                            old(flow).content_type@,
                            *old(uploaded),
                            None,
                            *final(flow),
                            a,
                        )
                    },
                }
            },
            UploadEvent::Hashed(h) => {
                &&& *final(uploaded) == *old(uploaded)
                &&& final(flow).content_type == old(flow).content_type
                &&& screened(*settings, old(flow).content_type@, h@, *final(flow), a)
            },
            UploadEvent::Scanned(decision) => {
                &&& *final(uploaded) == *old(uploaded)
                &&& final(flow).content_type == old(flow).content_type
                &&& final(flow).hash == old(flow).hash
                &&& match decision {
                    ScanDecision::Reject => refuses(*final(flow), a, "upload rejected by scanner"@),
                    _ => {
                        let s = if decision == ScanDecision::Quarantine {
                            "quarantined"@
                        } else {
                            "active"@
                        };
                        &&& final(flow).stage == UploadStage::Storing
                        &&& final(flow).file_state@ == s
                        &&& a matches UploadAction::Store { content_type: c, hash: h, file_state: f }
                            && c@ == old(flow).content_type@ && h@ == old(flow).hash@ && f@ == s
                    },
                }
            },
            UploadEvent::Stored => {
                &&& *final(uploaded) == *old(uploaded)
                &&& if old(flow).file_state@ == "quarantined"@ {
                    refuses(*final(flow), a, "upload quarantined by scanner"@)
                } else {
                    final(flow).stage == UploadStage::Finished && a is Accept
                }
            },
        },
{
    match event {
        UploadEvent::Sniffed(sniffed) => {
            let sn = match &sniffed {
                Some(s) => Some(s.as_str()),
                None => None,
            };
            assert(opt_str_view(sn) == opt_view(sniffed));
            let ct = match resolved_content_type(settings, uploaded, sn) {
                Ok(c) => c,
                Err(e) => return finish_refused(flow, e),
            };
            if let Err(e) = check_upload_policy(settings, uploaded, ct.as_str()) {
                return finish_refused(flow, e);
            }
            flow.content_type = ct;
            if settings.processing.metadata_stripping {
                if let Some(p) = uploaded.source_path() {
                    flow.stage = UploadStage::Rewriting;
                    return UploadAction::RewriteTemp {
                        path: p.to_owned(),
                        content_type: flow.content_type.clone(),
                    };
                }
                uploaded.strip_metadata(flow.content_type.as_str());
            }
            hash_next(settings, flow, uploaded, None)
        },
        UploadEvent::Rewritten(rewrite) => {
            match rewrite {
                Some(rw) => {
                    let discard = uploaded.replace_with_temp_rewrite(rw);
                    hash_next(settings, flow, uploaded, discard)
                },
                None => hash_next(settings, flow, uploaded, None),
            }
        },
        UploadEvent::Hashed(h) => screen(settings, flow, h),
        UploadEvent::Scanned(decision) => {
            match scan_file_state(decision) {
                Err(e) => finish_refused(flow, e),
                Ok(s) => {
                    flow.stage = UploadStage::Storing;
                    flow.file_state = s.to_owned();
                    UploadAction::Store {
                        content_type: flow.content_type.clone(),
                        hash: flow.hash.clone(),
                        file_state: s.to_owned(),
                    }
                },
            }
        },
        UploadEvent::Stored => {
            match finish_upload(flow.file_state.as_str()) {
                Err(e) => finish_refused(flow, e),
                Ok(()) => {
                    flow.stage = UploadStage::Finished;
                    UploadAction::Accept
                },
            }
        },
    }
}

} // verus!
