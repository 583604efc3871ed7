//! Moderation: what a report action or an item action does, and the scanner
//! block list it may extend.
use vstd::prelude::*;
use crate::access::spec_requested_visibility;
use crate::form_fields::refused_with;
use crate::model::{bad_request, WebError};
use crate::settings::{RuntimeSettings, ScannerAdapterConfig};
use crate::settings_form::{adapters_view, or_blank, ov, spec_adapters, AdapterView, AdminSettingsForm};
use crate::text::{
    append_str, nonempty, nonempty_pieces, opt_str_view, opt_view, spec_nonempty, split_ws,
    str_eq, strings_view,
};
use crate::upload::{contains_ignore_case, has_ignore_case};

verus! {

/// What a report action does: the state the reported item is put in (for
/// `quarantine`, `takedown` and `legal_hold`), and the state and audit detail
/// the report gets.
#[derive(Debug)]
pub struct ReportPlan {
    pub item_state: Option<&'static str>,
    pub report_state: &'static str,
    pub detail: String,
}

pub open spec fn is_item_moderation(action: Seq<char>) -> bool {
    action == "quarantine"@ || action == "takedown"@ || action == "legal_hold"@
}

pub fn report_action_plan(action: &str) -> (r: Result<ReportPlan, WebError>)
    ensures
        action@ == "resolve"@ ==> (r matches Ok(p) && p.item_state is None && p.report_state@
            == "resolved"@ && p.detail@ == "moderator resolved"@),
        action@ == "dismiss"@ ==> (r matches Ok(p) && p.item_state is None && p.report_state@
            == "dismissed"@ && p.detail@ == "moderator dismissed"@),
        is_item_moderation(action@) ==> (r matches Ok(p) && p.item_state matches Some(s) && s@
            == action@ && p.report_state@ == "resolved"@ && p.detail@
            == "moderator set item state "@ + action@),
        !(action@ == "resolve"@ || action@ == "dismiss"@ || is_item_moderation(action@))
            ==> refused_with(r, "unknown report action"@),
{
    proof {
        reveal_strlit("resolve");
        reveal_strlit("dismiss");
        reveal_strlit("quarantine");
        reveal_strlit("takedown");
        reveal_strlit("legal_hold");
        assert("resolve"@[0] != "dismiss"@[0]);
        assert("resolve"@ != "dismiss"@);
        assert("resolve"@.len() != "quarantine"@.len());
        assert("resolve"@.len() != "takedown"@.len());
        assert("resolve"@.len() != "legal_hold"@.len());
        assert("dismiss"@.len() != "quarantine"@.len());
        assert("dismiss"@.len() != "takedown"@.len());
        assert("dismiss"@.len() != "legal_hold"@.len());
    }
    if str_eq(action, "resolve") {
        Ok(ReportPlan {
            item_state: None,
            report_state: "resolved",
            detail: "moderator resolved".to_owned(),
        })
    } else if str_eq(action, "dismiss") {
        Ok(ReportPlan {
            item_state: None,
            report_state: "dismissed",
            detail: "moderator dismissed".to_owned(),
        })
    } else {
        let state: &'static str = if str_eq(action, "quarantine") {
            "quarantine"
        } else if str_eq(action, "takedown") {
            "takedown"
        } else if str_eq(action, "legal_hold") {
            "legal_hold"
        } else {
            return Err(bad_request("unknown report action"));
        };
        let mut detail = "moderator set item state ".to_owned();
        append_str(&mut detail, action);
        Ok(ReportPlan { item_state: Some(state), report_state: "resolved", detail })
    }
}

/// The note a moderator attached, trimmed; none when blank.
pub fn moderation_note(note: Option<&str>) -> (r: Option<String>)
    ensures
        opt_view(r) == spec_nonempty(opt_str_view(note)),
{
    nonempty(note)
}

/// A bulk report update needs at least one report.
pub fn check_report_selection(report_ids: &Vec<String>) -> (r: Result<(), WebError>)
    ensures
        report_ids@.len() == 0 ==> refused_with(r, "select at least one report"@),
        report_ids@.len() > 0 ==> r is Ok,
{
    if report_ids.len() == 0 {
        Err(bad_request("select at least one report"))
    } else {
        Ok(())
    }
}

/// The kinds of items that moderation acts on.
#[derive(Clone, Copy, Debug, PartialEq, Eq)]
pub enum ItemKind {
    File,
    Paste,
}

pub open spec fn spec_item_kind(kind: Seq<char>) -> Option<ItemKind> {
    if kind == "file"@ {
        Some(ItemKind::File)
    } else if kind == "paste"@ {
        Some(ItemKind::Paste)
    } else {
        None
    }
}

pub fn item_kind(kind: &str) -> (r: Option<ItemKind>)
    ensures
        r == spec_item_kind(kind@),
{
    if str_eq(kind, "file") {
        Some(ItemKind::File)
    } else if str_eq(kind, "paste") {
        Some(ItemKind::Paste)
    } else {
        None
    }
}

/// The item a report names must be a file or a paste.
pub fn reported_item_kind(kind: &str) -> (r: Result<ItemKind, WebError>)
    ensures
        match spec_item_kind(kind@) {
            Some(k) => r == Ok::<ItemKind, WebError>(k),
            None => refused_with(r, "unknown report item kind"@),
        },
{
    match item_kind(kind) {
        Some(k) => Ok(k),
        None => Err(bad_request("unknown report item kind")),
    }
}

/// The audit detail of a state change made for a report.
pub fn report_detail(report_id: &str) -> (r: String)
    ensures
        r@ == "report "@ + report_id@,
{
    let mut s = "report ".to_owned();
    append_str(&mut s, report_id);
    s
}

/// A moderation update that matched no item answers not found.
pub fn updated_or_not_found(updated: bool) -> (r: Result<(), WebError>)
    ensures
        updated ==> r is Ok,
        !updated ==> r matches Err(WebError::NotFound),
{
    if updated {
        Ok(())
    } else {
        Err(WebError::NotFound)
    }
}

/// The audit action of a visibility change.
pub fn visibility_audit_action(kind: ItemKind) -> (r: &'static str)
    ensures
        kind == ItemKind::File ==> r@ == "file.visibility_updated"@,
        kind == ItemKind::Paste ==> r@ == "paste.visibility_updated"@,
{
    proof {
        reveal_strlit("file.visibility_updated");
        reveal_strlit("paste.visibility_updated");
    }
    match kind {
        ItemKind::File => "file.visibility_updated",
        ItemKind::Paste => "paste.visibility_updated",
    }
}

/// The states a moderator may put an item in.
pub open spec fn is_item_state(s: Seq<char>) -> bool {
    s == "active"@ || s == "quarantined"@ || s == "takedown"@ || s == "legal_hold"@ || s
        == "deleted"@
}

/// What an item action does.
#[derive(Debug)]
pub enum ItemAction {
    SetState(String),
    SetVisibility(&'static str),
    AddNote(String),
    BlockHash,
}

/// The item action a moderator asked for, checked.
pub open spec fn spec_item_action_error(
    public_browse: bool,
    kind: Seq<char>,
    action: Seq<char>,
    state: Option<Seq<char>>,
    visibility: Option<Seq<char>>,
    note: Option<Seq<char>>,
) -> Option<Seq<char>> {
    if action == "set_state"@ {
        if state matches Some(s) && is_item_state(s) {
            None
        } else {
            Some("invalid item state"@)
        }
    } else if action == "set_visibility"@ {
        match spec_requested_visibility(public_browse, visibility) {
            Ok(_) => None,
            Err(m) => Some(m),
        }
    } else if action == "add_note"@ {
        if spec_nonempty(note) is Some {
            None
        } else {
            Some("note is required"@)
        }
    } else if action == "block_hash"@ {
        if kind == "file"@ {
            None
        } else {
            Some("blocked hashes can only be created from files"@)
        }
    } else {
        Some("unknown item action"@)
    }
}

/// Setting an item's state accepts exactly the states `active`,
/// `quarantined`, `takedown`, `legal_hold` and `deleted`; any other state, or
/// none, is refused as an invalid item state.
pub proof fn law_set_state_accepts_the_five_states(
    public_browse: bool,
    kind: Seq<char>,
    state: Option<Seq<char>>,
    visibility: Option<Seq<char>>,
    note: Option<Seq<char>>,
)
    ensures
        spec_item_action_error(public_browse, kind, "set_state"@, state, visibility, note) is None
            <==> (state == Some("active"@) || state == Some("quarantined"@) || state == Some(
            "takedown"@,
        ) || state == Some("legal_hold"@) || state == Some("deleted"@)),
        spec_item_action_error(public_browse, kind, "set_state"@, state, visibility, note) is None
            || spec_item_action_error(public_browse, kind, "set_state"@, state, visibility, note)
            == Some("invalid item state"@),
{
}

pub fn item_action(
    settings: &RuntimeSettings,
    kind: &str,
    action: &str,
    state: Option<&str>,
    visibility: Option<&str>,
    note: Option<&str>,
) -> (r: Result<ItemAction, WebError>)
    ensures
        match spec_item_action_error(
            settings.features.public_browse,
            kind@,
            action@,
            opt_str_view(state),
            opt_str_view(visibility),
            opt_str_view(note),
        ) {
            Some(m) => refused_with(r, m),
            None => match r {
                Ok(ItemAction::SetState(s)) => action@ == "set_state"@ && opt_str_view(state)
                    == Some(s@),
                Ok(ItemAction::SetVisibility(v)) => action@ == "set_visibility"@
                    && spec_requested_visibility(
                    settings.features.public_browse,
                    opt_str_view(visibility),
                ) == Ok::<Seq<char>, Seq<char>>(v@),
                Ok(ItemAction::AddNote(n)) => action@ == "add_note"@ && spec_nonempty(
                    opt_str_view(note),
                ) == Some(n@),
                Ok(ItemAction::BlockHash) => action@ == "block_hash"@,
                Err(_) => false,
            },
        },
        action@ == "set_state"@ && (state matches Some(s) && is_item_state(s@)) ==> (r matches Ok(
            ItemAction::SetState(t),
        ) && opt_str_view(state) == Some(t@)),
{
    if str_eq(action, "set_state") {
        match state {
            Some(s) => if str_eq(s, "active") || str_eq(s, "quarantined") || str_eq(s, "takedown")
                || str_eq(s, "legal_hold") || str_eq(s, "deleted") {
                Ok(ItemAction::SetState(s.to_owned()))
            } else {
                Err(bad_request("invalid item state"))
            },
            None => Err(bad_request("invalid item state")),
        }
    } else if str_eq(action, "set_visibility") {
        match crate::access::requested_visibility(settings, visibility) {
            Ok(v) => Ok(ItemAction::SetVisibility(v)),
            Err(e) => Err(e),
        }
    } else if str_eq(action, "add_note") {
        match nonempty(note) {
            Some(n) => Ok(ItemAction::AddNote(n)),
            None => Err(bad_request("note is required")),
        }
    } else if str_eq(action, "block_hash") {
        if str_eq(kind, "file") {
            Ok(ItemAction::BlockHash)
        } else {
            Err(bad_request("blocked hashes can only be created from files"))
        }
    } else {
        Err(bad_request("unknown item action"))
    }
}

/// Adds a hash to the block list unless it is there already (up to case);
/// tells whether it was added.
pub fn add_blocked_hash(blocked: &mut Vec<String>, hash: &str) -> (added: bool)
    ensures
        added == !has_ignore_case(strings_view(old(blocked)@), hash@),
        added ==> strings_view(final(blocked)@) == strings_view(old(blocked)@).push(hash@),
        !added ==> final(blocked)@ == old(blocked)@,
{
    if contains_ignore_case(blocked, hash) {
        return false;
    }
    let ghost before = blocked@;
    blocked.push(hash.to_owned());
    assert(strings_view(blocked@) =~= strings_view(before).push(hash@));
    true
}

/// Blocking a hash twice blocks it once: after it was added, adding it again
/// changes nothing.
pub proof fn law_blocking_a_hash_is_idempotent(blocked: Seq<Seq<char>>, hash: Seq<char>)
    ensures
        has_ignore_case(blocked.push(hash), hash),
{
    let l = blocked.push(hash);
    assert(l[blocked.len() as int] == hash);
    assert(crate::text::eq_ignore_case(l[blocked.len() as int], hash));
}

/// The scanner fields of the settings form as the current adapters fill them:
/// for each kind the last adapter of that kind counts; command arguments are
/// joined by spaces.
#[derive(Debug)]
pub struct ScannerFormDefaults {
    pub command_program: String,
    pub command_args: String,
    pub webhook_url: String,
    pub webhook_secret: String,
    pub clamav_socket: String,
}

/// `parts` joined by single spaces.
pub open spec fn join_spaces(parts: Seq<Seq<char>>) -> Seq<char>
    decreases parts.len(),
{
    if parts.len() == 0 {
        Seq::empty()
    } else if parts.len() == 1 {
        parts[0]
    } else {
        join_spaces(parts.drop_last()) + " "@ + parts.last()
    }
}

fn join_with_spaces(parts: &Vec<String>) -> (r: String)
    ensures
        r@ == join_spaces(strings_view(parts@)),
{
    let ghost ps = strings_view(parts@);
    let mut out = String::new();
    let mut i: usize = 0;
    while i < parts.len()
        invariant
            i <= parts.len(),
            ps == strings_view(parts@),
            out@ == join_spaces(ps.take(i as int)),
        decreases parts.len() - i,
    {
        if i > 0 {
            append_str(&mut out, " ");
        }
        append_str(&mut out, parts[i].as_str());
        proof {
            let t = ps.take(i + 1);
            assert(t.drop_last() =~= ps.take(i as int));
            assert(t.last() == parts@[i as int]@);
            if i == 0 {
                assert(t.len() == 1);
            }
        }
        i += 1;
    }
    assert(ps.take(parts.len() as int) =~= ps);
    out
}

/// The view of the scanner fields: program, arguments, webhook URL, webhook
/// secret, socket.
pub type ScannerFields = (Seq<char>, Seq<char>, Seq<char>, Seq<char>, Seq<char>);

/// The scanner fields after the given adapters, in order.
pub open spec fn spec_scanner_fields(adapters: Seq<AdapterView>) -> ScannerFields
    decreases adapters.len(),
{
    if adapters.len() == 0 {
        (Seq::empty(), Seq::empty(), Seq::empty(), Seq::empty(), Seq::empty())
    } else {
        let f = spec_scanner_fields(adapters.drop_last());
        match adapters.last() {
            AdapterView::Command(program, args) => (program, join_spaces(args), f.2, f.3, f.4),
            AdapterView::Webhook(url, secret) => (f.0, f.1, url, or_blank(secret), f.4),
            AdapterView::ClamAv(socket) => (f.0, f.1, f.2, f.3, socket),
        }
    }
}

/// Saving the scanner fields and showing the form again gives back what was
/// entered, trimmed: the program, its arguments separated by single spaces,
/// the webhook URL and secret, and the socket; fields of a scanner that was
/// not configured come back blank.
pub proof fn law_scanner_fields_round_trip(form: AdminSettingsForm)
    ensures
        ({
            let program = spec_nonempty(ov(form.command_scanner_program));
            let url = spec_nonempty(ov(form.webhook_scanner_url));
            spec_scanner_fields(spec_adapters(form)) == (
                or_blank(program),
                if program is Some {
                    join_spaces(nonempty_pieces(split_ws(or_blank(ov(form.command_scanner_args)))))
                } else {
                    Seq::empty()
                },
                or_blank(url),
                if url is Some {
                    or_blank(spec_nonempty(ov(form.webhook_scanner_secret)))
                } else {
                    Seq::empty()
                },
                or_blank(spec_nonempty(ov(form.clamav_socket))),
            )
        }),
{
    let a = match spec_nonempty(ov(form.command_scanner_program)) {
        Some(p) => seq![AdapterView::Command(p, nonempty_pieces(split_ws(or_blank(ov(form.command_scanner_args)))))],
        None => Seq::<AdapterView>::empty(),
    };
    let b = match spec_nonempty(ov(form.webhook_scanner_url)) {
        Some(u) => seq![AdapterView::Webhook(u, spec_nonempty(ov(form.webhook_scanner_secret)))],
        None => Seq::<AdapterView>::empty(),
    };
    let c = match spec_nonempty(ov(form.clamav_socket)) {
        Some(s) => seq![AdapterView::ClamAv(s)],
        None => Seq::<AdapterView>::empty(),
    };
    let all = a + b + c;
    reveal_with_fuel(spec_scanner_fields, 4);
    assert(spec_adapters(form) == all);
    assert((a + b).len() == a.len() + b.len());
    if c.len() == 1 {
        assert(all.drop_last() =~= a + b);
    } else {
        assert(all =~= a + b);
    }
    if b.len() == 1 {
        assert((a + b).drop_last() =~= a);
    } else {
        assert(a + b =~= a);
    }
    if a.len() == 1 {
        assert(a.drop_last() =~= Seq::<AdapterView>::empty());
    }
}

pub fn scanner_form_defaults(settings: &RuntimeSettings) -> (r: ScannerFormDefaults)
    ensures
        (r.command_program@, r.command_args@, r.webhook_url@, r.webhook_secret@, r.clamav_socket@)
            == spec_scanner_fields(adapters_view(settings.scanning.adapters@)),
{
    let adapters = &settings.scanning.adapters;
    let mut d = ScannerFormDefaults {
        command_program: String::new(),
        command_args: String::new(),
        webhook_url: String::new(),
        webhook_secret: String::new(),
        clamav_socket: String::new(),
    };
    let mut i: usize = 0;
    while i < adapters.len()
        invariant
            i <= adapters.len(),
            adapters == &settings.scanning.adapters,
            (d.command_program@, d.command_args@, d.webhook_url@, d.webhook_secret@, d.clamav_socket@)
                == spec_scanner_fields(adapters_view(adapters@.take(i as int))),
        decreases adapters.len() - i,
    {
        assert(adapters@.take(i + 1).drop_last() =~= adapters@.take(i as int));
        assert(adapters_view(adapters@.take(i + 1)).drop_last() =~= adapters_view(adapters@.take(i as int)));
        assert(adapters_view(adapters@.take(i + 1)).last() == adapters@[i as int]@);
        match &adapters[i] {
            ScannerAdapterConfig::Command { program, args } => {
                d.command_program = program.clone();
                d.command_args = join_with_spaces(args);
            },
            ScannerAdapterConfig::Webhook { url, secret } => {
                d.webhook_url = url.clone();
                d.webhook_secret = match secret {
                    Some(s) => s.clone(),
                    None => String::new(),
                };
            },
            ScannerAdapterConfig::ClamAv { socket } => {
                d.clamav_socket = socket.clone();
            },
        }
        i += 1;
    }
    assert(adapters@.take(adapters.len() as int) =~= adapters@);
    d
}

/// Where reports are announced: the webhook URL when it is not empty, with
/// the shared secret header value when that is not empty.
pub fn moderation_webhook_target(settings: &RuntimeSettings) -> (r: Option<(String, Option<String>)>)
    ensures
        match opt_view(settings.moderation.notify_webhook_url) {
            Some(u) => if u.len() > 0 {
                r matches Some(t) && t.0@ == u && opt_view(t.1) == match opt_view(
                    settings.moderation.notify_webhook_secret,
                ) {
                    Some(s) => if s.len() > 0 {
                        Some(s)
                    } else {
                        None
                    },
                    None => None,
                }
            } else {
                r is None
            },
            None => r is None,
        },
{
    let url = match &settings.moderation.notify_webhook_url {
        Some(u) => u,
        None => return None,
    };
    if url.as_str().is_empty() {
        return None;
    }
    let secret = match &settings.moderation.notify_webhook_secret {
        Some(s) => if s.as_str().is_empty() {
            None
        } else {
            Some(s.clone())
        },
        None => None,
    };
    Some((url.clone(), secret))
}

} // verus!
