//! Applying the operator settings form: every field is read, checked in form
//! order, and the first problem refuses the whole update.
use vstd::prelude::*;
use crate::form_fields::{
    apply_rate_limit_form, dark_mode_ok, field, lines, parse_action_rule, parse_content_disposition,
    parse_delete_policy, parse_metrics_access, parse_optional_i64, parse_optional_u32,
    parse_optional_u64, parse_optional_u8, parse_optional_usize, parse_rate_limit_backend,
    parse_required_i64, parse_risky_mime_mode, parse_scan_decision, parse_signup_mode,
    parse_u16_lines, quota_is_empty, refused_with, spec_action_rule, spec_content_disposition,
    spec_dark_mode_ok, spec_delete_policy, spec_lines, spec_metrics_access, spec_optional,
    spec_ports, spec_quota_is_empty, spec_rate_limit_backend, spec_rate_limit_row,
    spec_required_i64, spec_risky_mime_mode, spec_scan_decision, spec_signup_mode,
};
use crate::expiry::spec_max_expiry_input;
use crate::homepage::{blocks_view, parse_homepage_blocks, spec_blocks};
use crate::model::{WebError, bad_request};
use crate::numbers::{
    spec_parse_i64, spec_parse_u32, spec_parse_u64, spec_parse_u8, spec_parse_usize,
};
use crate::settings::{
    BrandingConfig, ContentPolicy, DeliveryConfig, DiscoveryConfig, ExpiryConfig,
    FeatureConfig, JobsConfig, Keyed, LimitsConfig, MetricsAccessMode, MetricsConfig,
    ModerationConfig, PolicyConfig, ProcessingConfig, QuotaConfig, RateLimitConfig,
    RuntimeSettings, ScannerAdapterConfig, ScanningConfig, SecurityConfig, TokensConfig,
    UploadsConfig, UrlUploadConfig,
};
use crate::text::{
    nonempty, nonempty_pieces, opt_view, spec_nonempty, split_whitespace, split_ws,
    strings_view, trim, trimmed,
};

verus! {

/// The fields of the operator settings form; a checkbox is `Some` when ticked.
#[derive(Debug)]
pub struct AdminSettingsForm {
    pub feature_files: Option<String>,
    pub feature_pastes: Option<String>,
    pub feature_accounts: Option<String>,
    pub feature_api: Option<String>,
    pub feature_reports: Option<String>,
    pub feature_upload_by_url: Option<String>,
    pub feature_preview_pages: Option<String>,
    pub feature_public_browse: Option<String>,
    pub feature_oidc_login: Option<String>,
    pub feature_local_login: Option<String>,
    pub feature_paste_content_search: Option<String>,
    pub feature_paste_editing: Option<String>,
    pub max_upload_bytes: Option<String>,
    pub max_paste_bytes: Option<String>,
    pub default_file_expiry: Option<String>,
    pub default_paste_expiry: Option<String>,
    pub anonymous_storage_bytes: Option<String>,
    pub anonymous_daily_upload_bytes: Option<String>,
    pub anonymous_monthly_upload_bytes: Option<String>,
    pub anonymous_item_count: Option<String>,
    pub user_storage_bytes: Option<String>,
    pub user_daily_upload_bytes: Option<String>,
    pub user_monthly_upload_bytes: Option<String>,
    pub user_item_count: Option<String>,
    pub signup: String,
    pub policy_upload_file: String,
    pub policy_create_paste: String,
    pub policy_use_api: String,
    pub policy_view_item: String,
    pub policy_delete_own_item: String,
    pub policy_claim_anonymous_item: String,
    pub policy_create_account: String,
    pub delete_policy: String,
    pub instance_name: String,
    pub tagline: String,
    pub logo_url: Option<String>,
    pub favicon_url: Option<String>,
    pub accent_color: String,
    pub dark_mode: String,
    pub opengraph_description: String,
    pub opengraph_files: Option<String>,
    pub opengraph_pastes: Option<String>,
    pub takedown_page_text: String,
    pub homepage_blocks: Option<String>,
    pub abuse_email: Option<String>,
    pub contact_url: Option<String>,
    pub secure_cookies: Option<String>,
    pub content_disposition: String,
    pub reject_mime_mismatch: Option<String>,
    pub delivery_public_cache_seconds: Option<String>,
    pub delivery_static_cache_seconds: Option<String>,
    pub delivery_public_file_base_url: Option<String>,
    pub delivery_isolated_file_origin: Option<String>,
    pub delivery_signed_internal_urls: Option<String>,
    pub delivery_internal_url_secret: Option<String>,
    pub delivery_internal_url_ttl_seconds: Option<String>,
    pub processing_metadata_extraction: Option<String>,
    pub processing_metadata_stripping: Option<String>,
    pub processing_thumbnails: Option<String>,
    pub discovery_robots_index: Option<String>,
    pub discovery_page_size: Option<String>,
    pub jobs_enabled: Option<String>,
    pub jobs_interval_seconds: Option<String>,
    pub jobs_metadata_limit: Option<String>,
    pub jobs_scanner_retry_limit: Option<String>,
    pub jobs_storage_verify_interval_seconds: Option<String>,
    pub upload_temp_dir: Option<String>,
    pub metrics_enabled: Option<String>,
    pub metrics_access: String,
    pub metrics_bearer_token: Option<String>,
    pub rate_limit_backend: String,
    pub forced_attachment_mime_types: Option<String>,
    pub risky_mime_mode: String,
    pub allowed_mime_types: Option<String>,
    pub max_filename_bytes: Option<String>,
    pub expiry_allow_never: Option<String>,
    pub anonymous_max_file_expiry: Option<String>,
    pub user_max_file_expiry: Option<String>,
    pub anonymous_max_paste_expiry: Option<String>,
    pub user_max_paste_expiry: Option<String>,
    pub expiry_allowed_presets: Option<String>,
    pub token_default_ttl_seconds: Option<String>,
    pub token_max_ttl_seconds: Option<String>,
    pub thumbnail_max_dimension: Option<String>,
    pub thumbnail_jpeg_quality: Option<String>,
    pub moderation_notify_webhook_url: Option<String>,
    pub moderation_notify_webhook_secret: Option<String>,
    pub url_block_private_ips: Option<String>,
    pub url_max_redirects: Option<String>,
    pub url_connect_timeout_seconds: Option<String>,
    pub url_request_timeout_seconds: Option<String>,
    pub url_max_response_bytes: Option<String>,
    pub url_allowed_ports: Option<String>,
    pub url_blocked_ports: Option<String>,
    pub url_user_agent: Option<String>,
    pub url_allowed_hosts: Option<String>,
    pub url_blocked_hosts: Option<String>,
    pub rl_upload_file_enabled: Option<String>,
    pub rl_upload_file_requests: Option<String>,
    pub rl_upload_file_window: Option<String>,
    pub rl_upload_by_url_enabled: Option<String>,
    pub rl_upload_by_url_requests: Option<String>,
    pub rl_upload_by_url_window: Option<String>,
    pub rl_login_enabled: Option<String>,
    pub rl_login_requests: Option<String>,
    pub rl_login_window: Option<String>,
    pub rl_password_reset_enabled: Option<String>,
    pub rl_password_reset_requests: Option<String>,
    pub rl_password_reset_window: Option<String>,
    pub rl_report_enabled: Option<String>,
    pub rl_report_requests: Option<String>,
    pub rl_report_window: Option<String>,
    pub scanning_enabled: Option<String>,
    pub blocked_hashes: Option<String>,
    pub blocked_mime_types: Option<String>,
    pub default_on_error: String,
    pub command_scanner_program: Option<String>,
    pub command_scanner_args: Option<String>,
    pub webhook_scanner_url: Option<String>,
    pub webhook_scanner_secret: Option<String>,
    pub clamav_socket: Option<String>,
    pub csrf_token: Option<String>,
}

/// The first of two possible problems.
pub open spec fn then_err(a: Option<Seq<char>>, b: Option<Seq<char>>) -> Option<Seq<char>> {
    if a is Some {
        a
    } else {
        b
    }
}

pub open spec fn err_of<T>(r: Result<T, Seq<char>>) -> Option<Seq<char>> {
    match r {
        Err(m) => Some(m),
        Ok(_) => None,
    }
}

pub open spec fn val_of(r: Result<Option<int>, Seq<char>>) -> Option<int> {
    match r {
        Ok(o) => o,
        Err(_) => None,
    }
}

pub open spec fn req_of(r: Result<int, Seq<char>>) -> int {
    match r {
        Ok(v) => v,
        Err(_) => 0,
    }
}

pub open spec fn unknown<T>(o: Option<T>, msg: Seq<char>) -> Option<Seq<char>> {
    if o is Some {
        None
    } else {
        Some(msg)
    }
}

pub open spec fn ov(o: Option<String>) -> Option<Seq<char>> {
    opt_view(o)
}

pub open spec fn as_i64(o: Option<int>) -> Option<i64> {
    match o {
        Some(v) => Some(v as i64),
        None => None,
    }
}

pub open spec fn or_int(o: Option<int>, d: int) -> int {
    match o {
        Some(v) => v,
        None => d,
    }
}

pub open spec fn max_int(a: int, b: int) -> int {
    if a >= b {
        a
    } else {
        b
    }
}

pub open spec fn clamp_int(v: int, lo: int, hi: int) -> int {
    if v < lo {
        lo
    } else if v > hi {
        hi
    } else {
        v
    }
}

pub open spec fn opt_i64(value: Option<Seq<char>>) -> Result<Option<int>, Seq<char>> {
    spec_optional(value, |t| spec_parse_i64(t))
}

pub open spec fn opt_u64(value: Option<Seq<char>>) -> Result<Option<int>, Seq<char>> {
    spec_optional(value, |t| spec_parse_u64(t))
}

pub open spec fn opt_u32(value: Option<Seq<char>>) -> Result<Option<int>, Seq<char>> {
    spec_optional(value, |t| spec_parse_u32(t))
}

pub open spec fn opt_u8(value: Option<Seq<char>>) -> Result<Option<int>, Seq<char>> {
    spec_optional(value, |t| spec_parse_u8(t))
}

pub open spec fn opt_usize(value: Option<Seq<char>>) -> Result<Option<int>, Seq<char>> {
    spec_optional(value, |t| spec_parse_usize(t))
}

// ---------------------------------------------------------------- features

pub open spec fn spec_features(form: AdminSettingsForm) -> FeatureConfig {
    FeatureConfig {
        files: form.feature_files is Some,
        pastes: form.feature_pastes is Some,
        accounts: form.feature_accounts is Some,
        api: form.feature_api is Some,
        reports: form.feature_reports is Some,
        upload_by_url: form.feature_upload_by_url is Some,
        preview_pages: form.feature_preview_pages is Some,
        public_browse: form.feature_public_browse is Some,
        oidc_login: form.feature_oidc_login is Some,
        local_login: form.feature_local_login is Some,
        paste_content_search: form.feature_paste_content_search is Some,
        paste_editing: form.feature_paste_editing is Some,
    }
}

pub fn features_from_form(form: &AdminSettingsForm) -> (r: FeatureConfig)
    ensures
        r == spec_features(*form),
{
    FeatureConfig {
        files: form.feature_files.is_some(),
        pastes: form.feature_pastes.is_some(),
        accounts: form.feature_accounts.is_some(),
        api: form.feature_api.is_some(),
        reports: form.feature_reports.is_some(),
        upload_by_url: form.feature_upload_by_url.is_some(),
        preview_pages: form.feature_preview_pages.is_some(),
        public_browse: form.feature_public_browse.is_some(),
        oidc_login: form.feature_oidc_login.is_some(),
        local_login: form.feature_local_login.is_some(),
        paste_content_search: form.feature_paste_content_search.is_some(),
        paste_editing: form.feature_paste_editing.is_some(),
    }
}

/// Some way to sign in stays: local login, or OIDC login where OIDC is configured.
pub open spec fn err_sign_in(form: AdminSettingsForm, oidc_configured: bool) -> Option<Seq<char>> {
    let f = spec_features(form);
    if !f.local_login && !(f.oidc_login && oidc_configured) {
        Some("at least one sign-in method must remain enabled"@)
    } else {
        None
    }
}


// ---------------------------------------------------------------- limits

pub open spec fn err_limits(form: AdminSettingsForm) -> Option<Seq<char>> {
    then_err(
        err_of(spec_required_i64("max_upload_bytes"@, ov(form.max_upload_bytes))),
        then_err(
            err_of(spec_required_i64("max_paste_bytes"@, ov(form.max_paste_bytes))),
            then_err(
                err_of(opt_i64(ov(form.anonymous_storage_bytes))),
                then_err(
                    err_of(opt_i64(ov(form.anonymous_daily_upload_bytes))),
                    then_err(
                        err_of(opt_i64(ov(form.anonymous_monthly_upload_bytes))),
                        then_err(
                            err_of(opt_i64(ov(form.anonymous_item_count))),
                            then_err(
                                err_of(opt_i64(ov(form.user_storage_bytes))),
                                then_err(
                                    err_of(opt_i64(ov(form.user_daily_upload_bytes))),
                                    then_err(
                                        err_of(opt_i64(ov(form.user_monthly_upload_bytes))),
                                        err_of(opt_i64(ov(form.user_item_count))),
                                    ),
                                ),
                            ),
                        ),
                    ),
                ),
            ),
        ),
    )
}

pub open spec fn spec_anonymous_quota(form: AdminSettingsForm) -> QuotaConfig {
    QuotaConfig {
        storage_bytes: as_i64(val_of(opt_i64(ov(form.anonymous_storage_bytes)))),
        daily_upload_bytes: as_i64(val_of(opt_i64(ov(form.anonymous_daily_upload_bytes)))),
        monthly_upload_bytes: as_i64(val_of(opt_i64(ov(form.anonymous_monthly_upload_bytes)))),
        item_count: as_i64(val_of(opt_i64(ov(form.anonymous_item_count)))),
    }
}

pub open spec fn spec_user_quota(form: AdminSettingsForm) -> QuotaConfig {
    QuotaConfig {
        storage_bytes: as_i64(val_of(opt_i64(ov(form.user_storage_bytes)))),
        daily_upload_bytes: as_i64(val_of(opt_i64(ov(form.user_daily_upload_bytes)))),
        monthly_upload_bytes: as_i64(val_of(opt_i64(ov(form.user_monthly_upload_bytes)))),
        item_count: as_i64(val_of(opt_i64(ov(form.user_item_count)))),
    }
}

/// The limits the form sets, beside those it keeps from `old`.
pub open spec fn limits_ok(old: LimitsConfig, form: AdminSettingsForm, new: LimitsConfig) -> bool {
    let uq = spec_user_quota(form);
    let presets = spec_lines(ov(form.expiry_allowed_presets));
    &&& new.max_upload_bytes == req_of(spec_required_i64("max_upload_bytes"@, ov(form.max_upload_bytes)))
    &&& new.max_paste_bytes == req_of(spec_required_i64("max_paste_bytes"@, ov(form.max_paste_bytes)))
    &&& new.max_tus_upload_bytes == old.max_tus_upload_bytes
    &&& opt_view(new.default_file_expiry) == spec_nonempty(ov(form.default_file_expiry))
    &&& opt_view(new.default_paste_expiry) == spec_nonempty(ov(form.default_paste_expiry))
    &&& new.anonymous_quota == spec_anonymous_quota(form)
    &&& forall|k: Seq<char>| #[trigger]
        new.role_quotas.spec_get(k) == if k == "user"@ {
            if spec_quota_is_empty(uq) {
                None
            } else {
                Some(uq)
            }
        } else {
            old.role_quotas.spec_get(k)
        }
    &&& new.expiry.allow_never == form.expiry_allow_never is Some
    &&& opt_view(new.expiry.anonymous_max_file_expiry) == spec_nonempty(ov(form.anonymous_max_file_expiry))
    &&& opt_view(new.expiry.user_max_file_expiry) == spec_nonempty(ov(form.user_max_file_expiry))
    &&& opt_view(new.expiry.anonymous_max_paste_expiry) == spec_nonempty(ov(form.anonymous_max_paste_expiry))
    &&& opt_view(new.expiry.user_max_paste_expiry) == spec_nonempty(ov(form.user_max_paste_expiry))
    &&& strings_view(new.expiry.allowed_presets@) == presets
}

/// Each saved expiry limit is the trimmed, non-blank form field of the same
/// name, whatever the other fields hold; so after a save a signed-in uploader
/// is held to the user maximum and anyone else to the anonymous one, for files
/// and for pastes.
pub proof fn law_saved_expiry_limits_follow_their_fields(
    old: RuntimeSettings,
    form: AdminSettingsForm,
    new: RuntimeSettings,
)
    requires
        settings_form_ok(old, form, new),
    ensures
        opt_view(new.limits.expiry.anonymous_max_file_expiry) == spec_nonempty(
            ov(form.anonymous_max_file_expiry),
        ),
        opt_view(new.limits.expiry.user_max_file_expiry) == spec_nonempty(
            ov(form.user_max_file_expiry),
        ),
        opt_view(new.limits.expiry.anonymous_max_paste_expiry) == spec_nonempty(
            ov(form.anonymous_max_paste_expiry),
        ),
        opt_view(new.limits.expiry.user_max_paste_expiry) == spec_nonempty(
            ov(form.user_max_paste_expiry),
        ),
        spec_max_expiry_input(new, "file"@, true) == spec_nonempty(ov(form.user_max_file_expiry)),
        spec_max_expiry_input(new, "file"@, false) == spec_nonempty(
            ov(form.anonymous_max_file_expiry),
        ),
        spec_max_expiry_input(new, "paste"@, true) == spec_nonempty(
            ov(form.user_max_paste_expiry),
        ),
        spec_max_expiry_input(new, "paste"@, false) == spec_nonempty(
            ov(form.anonymous_max_paste_expiry),
        ),
{
    crate::expiry::law_expiry_limit_follows_uploader(new, "file"@);
}

/// The limits section of the form, including the expiry limits.
pub fn limits_from_form(old: &LimitsConfig, form: &AdminSettingsForm) -> (r: Result<LimitsConfig, WebError>)
    ensures
        match err_limits(*form) {
            Some(m) => refused_with(r, m),
            None => r matches Ok(new) && limits_ok(*old, *form, new),
        },
{
    let max_upload_bytes = match parse_required_i64("max_upload_bytes", field(&form.max_upload_bytes)) {
        Ok(v) => v,
        Err(e) => return Err(e),
    };
    let max_paste_bytes = match parse_required_i64("max_paste_bytes", field(&form.max_paste_bytes)) {
        Ok(v) => v,
        Err(e) => return Err(e),
    };
    let a_storage = match parse_optional_i64(field(&form.anonymous_storage_bytes)) {
        Ok(v) => v,
        Err(e) => return Err(e),
    };
    let a_daily = match parse_optional_i64(field(&form.anonymous_daily_upload_bytes)) {
        Ok(v) => v,
        Err(e) => return Err(e),
    };
    let a_monthly = match parse_optional_i64(field(&form.anonymous_monthly_upload_bytes)) {
        Ok(v) => v,
        Err(e) => return Err(e),
    };
    let a_count = match parse_optional_i64(field(&form.anonymous_item_count)) {
        Ok(v) => v,
        Err(e) => return Err(e),
    };
    let u_storage = match parse_optional_i64(field(&form.user_storage_bytes)) {
        Ok(v) => v,
        Err(e) => return Err(e),
    };
    let u_daily = match parse_optional_i64(field(&form.user_daily_upload_bytes)) {
        Ok(v) => v,
        Err(e) => return Err(e),
    };
    let u_monthly = match parse_optional_i64(field(&form.user_monthly_upload_bytes)) {
        Ok(v) => v,
        Err(e) => return Err(e),
    };
    let u_count = match parse_optional_i64(field(&form.user_item_count)) {
        Ok(v) => v,
        Err(e) => return Err(e),
    };
    let anonymous_quota = QuotaConfig {
        storage_bytes: a_storage,
        daily_upload_bytes: a_daily,
        monthly_upload_bytes: a_monthly,
        item_count: a_count,
    };
    let user_quota = QuotaConfig {
        storage_bytes: u_storage,
        daily_upload_bytes: u_daily,
        monthly_upload_bytes: u_monthly,
        item_count: u_count,
    };
    assert(user_quota == spec_user_quota(*form));
    assert(anonymous_quota == spec_anonymous_quota(*form));
    let mut role_quotas = old.role_quotas.copy();
    if quota_is_empty(&user_quota) {
        role_quotas.remove("user");
    } else {
        role_quotas.insert("user", user_quota);
    }
    let presets = lines(field(&form.expiry_allowed_presets));
    let allowed_presets = presets;
    let expiry = ExpiryConfig {
        allow_never: form.expiry_allow_never.is_some(),
        anonymous_max_file_expiry: nonempty(field(&form.anonymous_max_file_expiry)),
        user_max_file_expiry: nonempty(field(&form.user_max_file_expiry)),
        anonymous_max_paste_expiry: nonempty(field(&form.anonymous_max_paste_expiry)),
        user_max_paste_expiry: nonempty(field(&form.user_max_paste_expiry)),
        allowed_presets,
    };
    Ok(LimitsConfig {
        max_upload_bytes,
        max_paste_bytes,
        max_tus_upload_bytes: old.max_tus_upload_bytes,
        default_file_expiry: nonempty(field(&form.default_file_expiry)),
        default_paste_expiry: nonempty(field(&form.default_paste_expiry)),
        anonymous_quota,
        role_quotas,
        expiry,
    })
}


// ---------------------------------------------------------------- policy

pub open spec fn err_policy(form: AdminSettingsForm) -> Option<Seq<char>> {
    let rule = "invalid action rule"@;
    then_err(
        unknown(spec_signup_mode(form.signup@), "invalid signup mode"@),
        then_err(
            unknown(spec_action_rule(form.policy_upload_file@), rule),
            then_err(
                unknown(spec_action_rule(form.policy_create_paste@), rule),
                then_err(
                    unknown(spec_action_rule(form.policy_use_api@), rule),
                    then_err(
                        unknown(spec_action_rule(form.policy_view_item@), rule),
                        then_err(
                            unknown(spec_action_rule(form.policy_delete_own_item@), rule),
                            then_err(
                                unknown(spec_delete_policy(form.delete_policy@), "invalid delete policy"@),
                                then_err(
                                    unknown(spec_action_rule(form.policy_claim_anonymous_item@), rule),
                                    unknown(spec_action_rule(form.policy_create_account@), rule),
                                ),
                            ),
                        ),
                    ),
                ),
            ),
        ),
    )
}

pub open spec fn spec_policy(form: AdminSettingsForm) -> PolicyConfig {
    PolicyConfig {
        signup: spec_signup_mode(form.signup@).unwrap(),
        upload_file: spec_action_rule(form.policy_upload_file@).unwrap(),
        create_paste: spec_action_rule(form.policy_create_paste@).unwrap(),
        use_api: spec_action_rule(form.policy_use_api@).unwrap(),
        view_item: spec_action_rule(form.policy_view_item@).unwrap(),
        delete_own_item: spec_action_rule(form.policy_delete_own_item@).unwrap(),
        delete_policy: spec_delete_policy(form.delete_policy@).unwrap(),
        claim_anonymous_item: spec_action_rule(form.policy_claim_anonymous_item@).unwrap(),
        create_account: spec_action_rule(form.policy_create_account@).unwrap(),
    }
}

pub fn policy_from_form(form: &AdminSettingsForm) -> (r: Result<PolicyConfig, WebError>)
    ensures
        match err_policy(*form) {
            Some(m) => refused_with(r, m),
            None => r matches Ok(p) && p == spec_policy(*form),
        },
{
    let signup = match parse_signup_mode(form.signup.as_str()) {
        Ok(v) => v,
        Err(e) => return Err(e),
    };
    let upload_file = match parse_action_rule(form.policy_upload_file.as_str()) {
        Ok(v) => v,
        Err(e) => return Err(e),
    };
    let create_paste = match parse_action_rule(form.policy_create_paste.as_str()) {
        Ok(v) => v,
        Err(e) => return Err(e),
    };
    let use_api = match parse_action_rule(form.policy_use_api.as_str()) {
        Ok(v) => v,
        Err(e) => return Err(e),
    };
    let view_item = match parse_action_rule(form.policy_view_item.as_str()) {
        Ok(v) => v,
        Err(e) => return Err(e),
    };
    let delete_own_item = match parse_action_rule(form.policy_delete_own_item.as_str()) {
        Ok(v) => v,
        Err(e) => return Err(e),
    };
    let delete_policy = match parse_delete_policy(form.delete_policy.as_str()) {
        Ok(v) => v,
        Err(e) => return Err(e),
    };
    let claim_anonymous_item = match parse_action_rule(form.policy_claim_anonymous_item.as_str()) {
        Ok(v) => v,
        Err(e) => return Err(e),
    };
    let create_account = match parse_action_rule(form.policy_create_account.as_str()) {
        Ok(v) => v,
        Err(e) => return Err(e),
    };
    Ok(
        PolicyConfig {
            signup,
            upload_file,
            create_paste,
            use_api,
            view_item,
            delete_own_item,
            delete_policy,
            claim_anonymous_item,
            create_account,
        },
    )
}

// ---------------------------------------------------------------- security

pub open spec fn err_rate_limits(form: AdminSettingsForm) -> Option<Seq<char>> {
    then_err(
        err_of(spec_rate_limit_row(form.rl_upload_file_enabled is Some, ov(form.rl_upload_file_requests), ov(form.rl_upload_file_window))),
        then_err(
            err_of(spec_rate_limit_row(form.rl_upload_by_url_enabled is Some, ov(form.rl_upload_by_url_requests), ov(form.rl_upload_by_url_window))),
            then_err(
                err_of(spec_rate_limit_row(form.rl_login_enabled is Some, ov(form.rl_login_requests), ov(form.rl_login_window))),
                then_err(
                    err_of(spec_rate_limit_row(form.rl_password_reset_enabled is Some, ov(form.rl_password_reset_requests), ov(form.rl_password_reset_window))),
                    err_of(spec_rate_limit_row(form.rl_report_enabled is Some, ov(form.rl_report_requests), ov(form.rl_report_window))),
                ),
            ),
        ),
    )
}

pub open spec fn err_security(form: AdminSettingsForm) -> Option<Seq<char>> {
    then_err(
        unknown(spec_content_disposition(form.content_disposition@), "invalid content disposition"@),
        then_err(
            unknown(spec_rate_limit_backend(form.rate_limit_backend@), "invalid rate limit backend"@),
            then_err(
                unknown(spec_risky_mime_mode(form.risky_mime_mode@), "invalid risky MIME mode"@),
                then_err(
                    err_of(opt_usize(ov(form.max_filename_bytes))),
                    then_err(
                        err_of(opt_usize(ov(form.url_max_redirects))),
                        then_err(
                            err_of(opt_u64(ov(form.url_connect_timeout_seconds))),
                            then_err(
                                err_of(opt_u64(ov(form.url_request_timeout_seconds))),
                                then_err(
                                    err_of(opt_i64(ov(form.url_max_response_bytes))),
                                    then_err(
                                        err_of(spec_ports(spec_lines(ov(form.url_allowed_ports)))),
                                        then_err(
                                            err_of(spec_ports(spec_lines(ov(form.url_blocked_ports)))),
                                            err_rate_limits(form),
                                        ),
                                    ),
                                ),
                            ),
                        ),
                    ),
                ),
            ),
        ),
    )
}

pub open spec fn row_of(r: Result<Option<RateLimitConfig>, Seq<char>>) -> Option<RateLimitConfig> {
    match r {
        Ok(o) => o,
        Err(_) => None,
    }
}

/// The rate limit an action has after the form: the five actions the form
/// lists take their row, every other action keeps its limit.
pub open spec fn spec_rate_limit_after(old: Keyed<RateLimitConfig>, form: AdminSettingsForm, k: Seq<char>) -> Option<RateLimitConfig> {
    if k == "report"@ {
        row_of(spec_rate_limit_row(form.rl_report_enabled is Some, ov(form.rl_report_requests), ov(form.rl_report_window)))
    } else if k == "password_reset"@ {
        row_of(spec_rate_limit_row(form.rl_password_reset_enabled is Some, ov(form.rl_password_reset_requests), ov(form.rl_password_reset_window)))
    } else if k == "login"@ {
        row_of(spec_rate_limit_row(form.rl_login_enabled is Some, ov(form.rl_login_requests), ov(form.rl_login_window)))
    } else if k == "upload_by_url"@ {
        row_of(spec_rate_limit_row(form.rl_upload_by_url_enabled is Some, ov(form.rl_upload_by_url_requests), ov(form.rl_upload_by_url_window)))
    } else if k == "upload_file"@ {
        row_of(spec_rate_limit_row(form.rl_upload_file_enabled is Some, ov(form.rl_upload_file_requests), ov(form.rl_upload_file_window)))
    } else {
        old.spec_get(k)
    }
}

pub open spec fn security_ok(old: SecurityConfig, form: AdminSettingsForm, new: SecurityConfig) -> bool {
    let cp = new.content_policy;
    let uu = new.url_upload;
    &&& new.secure_cookies == form.secure_cookies is Some
    &&& new.content_disposition == spec_content_disposition(form.content_disposition@).unwrap()
    &&& new.reject_mime_mismatch == form.reject_mime_mismatch is Some
    &&& new.rate_limit_backend == spec_rate_limit_backend(form.rate_limit_backend@).unwrap()
    &&& strings_view(cp.allowed_mime_types@) == spec_lines(ov(form.allowed_mime_types))
    &&& strings_view(cp.forced_attachment_mime_types@) == spec_lines(ov(form.forced_attachment_mime_types))
    &&& cp.risky_mime_mode == spec_risky_mime_mode(form.risky_mime_mode@).unwrap()
    &&& cp.max_filename_bytes == max_int(or_int(val_of(opt_usize(ov(form.max_filename_bytes))), old.content_policy.max_filename_bytes as int), 1)
    &&& uu.block_private_ips == form.url_block_private_ips is Some
    &&& uu.max_redirects == or_int(val_of(opt_usize(ov(form.url_max_redirects))), 3)
    &&& uu.connect_timeout_seconds == max_int(or_int(val_of(opt_u64(ov(form.url_connect_timeout_seconds))), old.url_upload.connect_timeout_seconds as int), 1)
    &&& uu.request_timeout_seconds == max_int(or_int(val_of(opt_u64(ov(form.url_request_timeout_seconds))), old.url_upload.request_timeout_seconds as int), 1)
    &&& uu.max_response_bytes == as_i64(val_of(opt_i64(ov(form.url_max_response_bytes))))
    &&& Ok::<Seq<u16>, Seq<char>>(uu.allowed_ports@) == spec_ports(spec_lines(ov(form.url_allowed_ports)))
    &&& Ok::<Seq<u16>, Seq<char>>(uu.blocked_ports@) == spec_ports(spec_lines(ov(form.url_blocked_ports)))
    &&& opt_view(uu.user_agent) == spec_nonempty(ov(form.url_user_agent))
    &&& strings_view(uu.allowed_hosts@) == spec_lines(ov(form.url_allowed_hosts))
    &&& strings_view(uu.blocked_hosts@) == spec_lines(ov(form.url_blocked_hosts))
    &&& forall|k: Seq<char>| #[trigger] new.rate_limits.spec_get(k) == spec_rate_limit_after(old.rate_limits, form, k)
}

fn max_usize(a: usize, b: usize) -> (r: usize)
    ensures
        r == max_int(a as int, b as int),
{
    if a >= b {
        a
    } else {
        b
    }
}

fn max_u64(a: u64, b: u64) -> (r: u64)
    ensures
        r == max_int(a as int, b as int),
{
    if a >= b {
        a
    } else {
        b
    }
}

fn max_u32(a: u32, b: u32) -> (r: u32)
    ensures
        r == max_int(a as int, b as int),
{
    if a >= b {
        a
    } else {
        b
    }
}

fn max_i64(a: i64, b: i64) -> (r: i64)
    ensures
        r == max_int(a as int, b as int),
{
    if a >= b {
        a
    } else {
        b
    }
}

fn rate_limits_from_form(old: &Keyed<RateLimitConfig>, form: &AdminSettingsForm) -> (r: Result<Keyed<RateLimitConfig>, WebError>)
    ensures
        match err_rate_limits(*form) {
            Some(m) => refused_with(r, m),
            None => r matches Ok(new) && forall|k: Seq<char>| #[trigger] new.spec_get(k) == spec_rate_limit_after(*old, *form, k),
        },
{
    proof {
        reveal_strlit("upload_file");
        reveal_strlit("upload_by_url");
        reveal_strlit("login");
        reveal_strlit("password_reset");
        reveal_strlit("report");
    }
    let mut rl = old.copy();
    match apply_rate_limit_form(&mut rl, "upload_file", form.rl_upload_file_enabled.is_some(), field(&form.rl_upload_file_requests), field(&form.rl_upload_file_window)) {
        Ok(()) => {},
        Err(e) => return Err(e),
    }
    match apply_rate_limit_form(&mut rl, "upload_by_url", form.rl_upload_by_url_enabled.is_some(), field(&form.rl_upload_by_url_requests), field(&form.rl_upload_by_url_window)) {
        Ok(()) => {},
        Err(e) => return Err(e),
    }
    match apply_rate_limit_form(&mut rl, "login", form.rl_login_enabled.is_some(), field(&form.rl_login_requests), field(&form.rl_login_window)) {
        Ok(()) => {},
        Err(e) => return Err(e),
    }
    match apply_rate_limit_form(&mut rl, "password_reset", form.rl_password_reset_enabled.is_some(), field(&form.rl_password_reset_requests), field(&form.rl_password_reset_window)) {
        Ok(()) => {},
        Err(e) => return Err(e),
    }
    match apply_rate_limit_form(&mut rl, "report", form.rl_report_enabled.is_some(), field(&form.rl_report_requests), field(&form.rl_report_window)) {
        Ok(()) => {},
        Err(e) => return Err(e),
    }
    Ok(rl)
}

/// The security section of the form.
pub fn security_from_form(old: &SecurityConfig, form: &AdminSettingsForm) -> (r: Result<SecurityConfig, WebError>)
    ensures
        match err_security(*form) {
            Some(m) => refused_with(r, m),
            None => r matches Ok(new) && security_ok(*old, *form, new),
        },
{
    let content_disposition = match parse_content_disposition(form.content_disposition.as_str()) {
        Ok(v) => v,
        Err(e) => return Err(e),
    };
    let rate_limit_backend = match parse_rate_limit_backend(form.rate_limit_backend.as_str()) {
        Ok(v) => v,
        Err(e) => return Err(e),
    };
    let risky_mime_mode = match parse_risky_mime_mode(form.risky_mime_mode.as_str()) {
        Ok(v) => v,
        Err(e) => return Err(e),
    };
    let max_filename = match parse_optional_usize(field(&form.max_filename_bytes)) {
        Ok(v) => v,
        Err(e) => return Err(e),
    };
    let max_redirects = match parse_optional_usize(field(&form.url_max_redirects)) {
        Ok(v) => v,
        Err(e) => return Err(e),
    };
    let connect = match parse_optional_u64(field(&form.url_connect_timeout_seconds)) {
        Ok(v) => v,
        Err(e) => return Err(e),
    };
    let request = match parse_optional_u64(field(&form.url_request_timeout_seconds)) {
        Ok(v) => v,
        Err(e) => return Err(e),
    };
    let max_response_bytes = match parse_optional_i64(field(&form.url_max_response_bytes)) {
        Ok(v) => v,
        Err(e) => return Err(e),
    };
    let allowed_ports = match parse_u16_lines(field(&form.url_allowed_ports)) {
        Ok(v) => v,
        Err(e) => return Err(e),
    };
    let blocked_ports = match parse_u16_lines(field(&form.url_blocked_ports)) {
        Ok(v) => v,
        Err(e) => return Err(e),
    };
    let rate_limits = match rate_limits_from_form(&old.rate_limits, form) {
        Ok(v) => v,
        Err(e) => return Err(e),
    };
    let content_policy = ContentPolicy {
        allowed_mime_types: lines(field(&form.allowed_mime_types)),
        forced_attachment_mime_types: lines(field(&form.forced_attachment_mime_types)),
        risky_mime_mode,
        max_filename_bytes: max_usize(
            match max_filename {
                Some(v) => v,
                None => old.content_policy.max_filename_bytes,
            },
            1,
        ),
    };
    let url_upload = UrlUploadConfig {
        block_private_ips: form.url_block_private_ips.is_some(),
        max_redirects: match max_redirects {
            Some(v) => v,
            None => 3,
        },
        connect_timeout_seconds: max_u64(
            match connect {
                Some(v) => v,
                None => old.url_upload.connect_timeout_seconds,
            },
            1,
        ),
        request_timeout_seconds: max_u64(
            match request {
                Some(v) => v,
                None => old.url_upload.request_timeout_seconds,
            },
            1,
        ),
        max_response_bytes,
        allowed_ports,
        blocked_ports,
        user_agent: nonempty(field(&form.url_user_agent)),
        allowed_hosts: lines(field(&form.url_allowed_hosts)),
        blocked_hosts: lines(field(&form.url_blocked_hosts)),
    };
    Ok(
        SecurityConfig {
            secure_cookies: form.secure_cookies.is_some(),
            content_disposition,
            reject_mime_mismatch: form.reject_mime_mismatch.is_some(),
            rate_limit_backend,
            content_policy,
            url_upload,
            rate_limits,
        },
    )
}


// ---------------------------------------------------------------- delivery

pub open spec fn err_delivery(form: AdminSettingsForm) -> Option<Seq<char>> {
    then_err(
        err_of(opt_u64(ov(form.delivery_public_cache_seconds))),
        then_err(
            err_of(opt_u64(ov(form.delivery_static_cache_seconds))),
            then_err(
                err_of(opt_i64(ov(form.delivery_internal_url_ttl_seconds))),
                then_err(
                    if form.delivery_isolated_file_origin is Some && spec_nonempty(ov(form.delivery_public_file_base_url)) is None {
                        Some("isolated file origin requires a public file base URL"@)
                    } else {
                        None
                    },
                    if form.delivery_signed_internal_urls is Some && spec_nonempty(ov(form.delivery_internal_url_secret)) is None {
                        Some("signed internal URLs require a secret"@)
                    } else {
                        None
                    },
                ),
            ),
        ),
    )
}

pub open spec fn delivery_ok(old: DeliveryConfig, form: AdminSettingsForm, new: DeliveryConfig) -> bool {
    &&& new.public_cache_seconds == or_int(val_of(opt_u64(ov(form.delivery_public_cache_seconds))), old.public_cache_seconds as int)
    &&& new.static_cache_seconds == or_int(val_of(opt_u64(ov(form.delivery_static_cache_seconds))), old.static_cache_seconds as int)
    &&& opt_view(new.public_file_base_url) == spec_nonempty(ov(form.delivery_public_file_base_url))
    &&& new.isolated_file_origin == form.delivery_isolated_file_origin is Some
    &&& new.signed_internal_urls == form.delivery_signed_internal_urls is Some
    &&& opt_view(new.internal_url_secret) == spec_nonempty(ov(form.delivery_internal_url_secret))
    &&& new.internal_url_ttl_seconds == max_int(or_int(val_of(opt_i64(ov(form.delivery_internal_url_ttl_seconds))), old.internal_url_ttl_seconds as int), 1)
}

pub fn delivery_from_form(old: &DeliveryConfig, form: &AdminSettingsForm) -> (r: Result<DeliveryConfig, WebError>)
    ensures
        match err_delivery(*form) {
            Some(m) => refused_with(r, m),
            None => r matches Ok(new) && delivery_ok(*old, *form, new),
        },
{
    let public_cache = match parse_optional_u64(field(&form.delivery_public_cache_seconds)) {
        Ok(v) => v,
        Err(e) => return Err(e),
    };
    let static_cache = match parse_optional_u64(field(&form.delivery_static_cache_seconds)) {
        Ok(v) => v,
        Err(e) => return Err(e),
    };
    let ttl = match parse_optional_i64(field(&form.delivery_internal_url_ttl_seconds)) {
        Ok(v) => v,
        Err(e) => return Err(e),
    };
    let public_file_base_url = nonempty(field(&form.delivery_public_file_base_url));
    let internal_url_secret = nonempty(field(&form.delivery_internal_url_secret));
    let isolated_file_origin = form.delivery_isolated_file_origin.is_some();
    let signed_internal_urls = form.delivery_signed_internal_urls.is_some();
    if isolated_file_origin && public_file_base_url.is_none() {
        return Err(bad_request("isolated file origin requires a public file base URL"));
    }
    if signed_internal_urls && internal_url_secret.is_none() {
        return Err(bad_request("signed internal URLs require a secret"));
    }
    Ok(
        DeliveryConfig {
            public_cache_seconds: match public_cache {
                Some(v) => v,
                None => old.public_cache_seconds,
            },
            static_cache_seconds: match static_cache {
                Some(v) => v,
                None => old.static_cache_seconds,
            },
            public_file_base_url,
            isolated_file_origin,
            signed_internal_urls,
            internal_url_secret,
            internal_url_ttl_seconds: max_i64(
                match ttl {
                    Some(v) => v,
                    None => old.internal_url_ttl_seconds,
                },
                1,
            ),
        },
    )
}

// ---------------------------------------------------------------- processing, discovery, jobs

pub open spec fn err_processing(form: AdminSettingsForm) -> Option<Seq<char>> {
    then_err(
        err_of(opt_u32(ov(form.thumbnail_max_dimension))),
        err_of(opt_u8(ov(form.thumbnail_jpeg_quality))),
    )
}

pub open spec fn spec_processing(old: ProcessingConfig, form: AdminSettingsForm) -> ProcessingConfig {
    ProcessingConfig {
        metadata_extraction: form.processing_metadata_extraction is Some,
        metadata_stripping: form.processing_metadata_stripping is Some,
        thumbnails: form.processing_thumbnails is Some,
        thumbnail_max_dimension: max_int(or_int(val_of(opt_u32(ov(form.thumbnail_max_dimension))), old.thumbnail_max_dimension as int), 1) as u32,
        thumbnail_jpeg_quality: clamp_int(or_int(val_of(opt_u8(ov(form.thumbnail_jpeg_quality))), old.thumbnail_jpeg_quality as int), 1, 100) as u8,
    }
}

pub fn processing_from_form(old: &ProcessingConfig, form: &AdminSettingsForm) -> (r: Result<ProcessingConfig, WebError>)
    ensures
        match err_processing(*form) {
            Some(m) => refused_with(r, m),
            None => r matches Ok(new) && new == spec_processing(*old, *form),
        },
{
    let dim = match parse_optional_u32(field(&form.thumbnail_max_dimension)) {
        Ok(v) => v,
        Err(e) => return Err(e),
    };
    let quality = match parse_optional_u8(field(&form.thumbnail_jpeg_quality)) {
        Ok(v) => v,
        Err(e) => return Err(e),
    };
    let q: u8 = match quality {
        Some(v) => v,
        None => old.thumbnail_jpeg_quality,
    };
    let q = if q < 1 {
        1
    } else if q > 100 {
        100
    } else {
        q
    };
    Ok(
        ProcessingConfig {
            metadata_extraction: form.processing_metadata_extraction.is_some(),
            metadata_stripping: form.processing_metadata_stripping.is_some(),
            thumbnails: form.processing_thumbnails.is_some(),
            thumbnail_max_dimension: max_u32(
                match dim {
                    Some(v) => v,
                    None => old.thumbnail_max_dimension,
                },
                1,
            ),
            thumbnail_jpeg_quality: q,
        },
    )
}

pub open spec fn err_discovery(form: AdminSettingsForm) -> Option<Seq<char>> {
    err_of(opt_u32(ov(form.discovery_page_size)))
}

pub open spec fn spec_discovery(old: DiscoveryConfig, form: AdminSettingsForm) -> DiscoveryConfig {
    DiscoveryConfig {
        robots_index: form.discovery_robots_index is Some,
        page_size: clamp_int(or_int(val_of(opt_u32(ov(form.discovery_page_size))), old.page_size as int), 1, 1000) as u32,
    }
}

pub fn discovery_from_form(old: &DiscoveryConfig, form: &AdminSettingsForm) -> (r: Result<DiscoveryConfig, WebError>)
    ensures
        match err_discovery(*form) {
            Some(m) => refused_with(r, m),
            None => r matches Ok(new) && new == spec_discovery(*old, *form),
        },
{
    let size = match parse_optional_u32(field(&form.discovery_page_size)) {
        Ok(v) => v,
        Err(e) => return Err(e),
    };
    let p: u32 = match size {
        Some(v) => v,
        None => old.page_size,
    };
    let p = if p < 1 {
        1
    } else if p > 1000 {
        1000
    } else {
        p
    };
    Ok(DiscoveryConfig { robots_index: form.discovery_robots_index.is_some(), page_size: p })
}

pub open spec fn err_jobs(form: AdminSettingsForm) -> Option<Seq<char>> {
    then_err(
        err_of(opt_u64(ov(form.jobs_interval_seconds))),
        then_err(
            err_of(opt_u32(ov(form.jobs_metadata_limit))),
            then_err(
                err_of(opt_u32(ov(form.jobs_scanner_retry_limit))),
                err_of(opt_u64(ov(form.jobs_storage_verify_interval_seconds))),
            ),
        ),
    )
}

pub open spec fn spec_jobs(old: JobsConfig, form: AdminSettingsForm) -> JobsConfig {
    JobsConfig {
        enabled: form.jobs_enabled is Some,
        interval_seconds: max_int(or_int(val_of(opt_u64(ov(form.jobs_interval_seconds))), old.interval_seconds as int), 30) as u64,
        metadata_limit: max_int(or_int(val_of(opt_u32(ov(form.jobs_metadata_limit))), old.metadata_limit as int), 1) as u32,
        scanner_retry_limit: max_int(or_int(val_of(opt_u32(ov(form.jobs_scanner_retry_limit))), old.scanner_retry_limit as int), 1) as u32,
        storage_verify_interval_seconds: max_int(or_int(val_of(opt_u64(ov(form.jobs_storage_verify_interval_seconds))), old.storage_verify_interval_seconds as int), 60) as u64,
    }
}

pub fn jobs_from_form(old: &JobsConfig, form: &AdminSettingsForm) -> (r: Result<JobsConfig, WebError>)
    ensures
        match err_jobs(*form) {
            Some(m) => refused_with(r, m),
            None => r matches Ok(new) && new == spec_jobs(*old, *form),
        },
{
    let interval = match parse_optional_u64(field(&form.jobs_interval_seconds)) {
        Ok(v) => v,
        Err(e) => return Err(e),
    };
    let metadata = match parse_optional_u32(field(&form.jobs_metadata_limit)) {
        Ok(v) => v,
        Err(e) => return Err(e),
    };
    let retry = match parse_optional_u32(field(&form.jobs_scanner_retry_limit)) {
        Ok(v) => v,
        Err(e) => return Err(e),
    };
    let verify = match parse_optional_u64(field(&form.jobs_storage_verify_interval_seconds)) {
        Ok(v) => v,
        Err(e) => return Err(e),
    };
    Ok(
        JobsConfig {
            enabled: form.jobs_enabled.is_some(),
            interval_seconds: max_u64(
                match interval {
                    Some(v) => v,
                    None => old.interval_seconds,
                },
                30,
            ),
            metadata_limit: max_u32(
                match metadata {
                    Some(v) => v,
                    None => old.metadata_limit,
                },
                1,
            ),
            scanner_retry_limit: max_u32(
                match retry {
                    Some(v) => v,
                    None => old.scanner_retry_limit,
                },
                1,
            ),
            storage_verify_interval_seconds: max_u64(
                match verify {
                    Some(v) => v,
                    None => old.storage_verify_interval_seconds,
                },
                60,
            ),
        },
    )
}

// ---------------------------------------------------------------- metrics, tokens, moderation, uploads

pub open spec fn err_metrics(form: AdminSettingsForm) -> Option<Seq<char>> {
    then_err(
        unknown(spec_metrics_access(form.metrics_access@), "invalid metrics access"@),
        if spec_metrics_access(form.metrics_access@) == Some(MetricsAccessMode::Token) && spec_nonempty(ov(form.metrics_bearer_token)) is None {
            Some("token-protected metrics require a bearer token"@)
        } else {
            None
        },
    )
}

pub open spec fn metrics_ok(form: AdminSettingsForm, new: MetricsConfig) -> bool {
    &&& new.enabled == form.metrics_enabled is Some
    &&& new.access == spec_metrics_access(form.metrics_access@).unwrap()
    &&& opt_view(new.bearer_token) == spec_nonempty(ov(form.metrics_bearer_token))
}

pub fn metrics_from_form(form: &AdminSettingsForm) -> (r: Result<MetricsConfig, WebError>)
    ensures
        match err_metrics(*form) {
            Some(m) => refused_with(r, m),
            None => r matches Ok(new) && metrics_ok(*form, new),
        },
{
    let access = match parse_metrics_access(form.metrics_access.as_str()) {
        Ok(v) => v,
        Err(e) => return Err(e),
    };
    let bearer_token = nonempty(field(&form.metrics_bearer_token));
    if access == MetricsAccessMode::Token && bearer_token.is_none() {
        return Err(bad_request("token-protected metrics require a bearer token"));
    }
    Ok(MetricsConfig { enabled: form.metrics_enabled.is_some(), access, bearer_token })
}

pub open spec fn err_tokens(form: AdminSettingsForm) -> Option<Seq<char>> {
    then_err(
        err_of(opt_i64(ov(form.token_default_ttl_seconds))),
        then_err(
            err_of(opt_i64(ov(form.token_max_ttl_seconds))),
            match (val_of(opt_i64(ov(form.token_default_ttl_seconds))), val_of(opt_i64(ov(form.token_max_ttl_seconds)))) {
                (Some(d), Some(m)) => if d > m {
                    Some("default token TTL cannot exceed max token TTL"@)
                } else {
                    None
                },
                _ => None,
            },
        ),
    )
}

pub open spec fn spec_tokens(form: AdminSettingsForm) -> TokensConfig {
    TokensConfig {
        default_ttl_seconds: as_i64(val_of(opt_i64(ov(form.token_default_ttl_seconds)))),
        max_ttl_seconds: as_i64(val_of(opt_i64(ov(form.token_max_ttl_seconds)))),
    }
}

pub fn tokens_from_form(form: &AdminSettingsForm) -> (r: Result<TokensConfig, WebError>)
    ensures
        match err_tokens(*form) {
            Some(m) => refused_with(r, m),
            None => r matches Ok(new) && new == spec_tokens(*form),
        },
{
    let default_ttl_seconds = match parse_optional_i64(field(&form.token_default_ttl_seconds)) {
        Ok(v) => v,
        Err(e) => return Err(e),
    };
    let max_ttl_seconds = match parse_optional_i64(field(&form.token_max_ttl_seconds)) {
        Ok(v) => v,
        Err(e) => return Err(e),
    };
    match (default_ttl_seconds, max_ttl_seconds) {
        (Some(d), Some(m)) => {
            if d > m {
                return Err(bad_request("default token TTL cannot exceed max token TTL"));
            }
        },
        _ => {},
    }
    Ok(TokensConfig { default_ttl_seconds, max_ttl_seconds })
}

pub open spec fn moderation_ok(form: AdminSettingsForm, new: ModerationConfig) -> bool {
    &&& opt_view(new.notify_webhook_url) == spec_nonempty(ov(form.moderation_notify_webhook_url))
    &&& opt_view(new.notify_webhook_secret) == spec_nonempty(ov(form.moderation_notify_webhook_secret))
}

pub fn moderation_from_form(form: &AdminSettingsForm) -> (r: ModerationConfig)
    ensures
        moderation_ok(*form, r),
{
    ModerationConfig {
        notify_webhook_url: nonempty(field(&form.moderation_notify_webhook_url)),
        notify_webhook_secret: nonempty(field(&form.moderation_notify_webhook_secret)),
    }
}

pub fn uploads_from_form(form: &AdminSettingsForm) -> (r: UploadsConfig)
    ensures
        opt_view(r.temp_dir) == spec_nonempty(ov(form.upload_temp_dir)),
{
    UploadsConfig { temp_dir: nonempty(field(&form.upload_temp_dir)) }
}


// ---------------------------------------------------------------- branding

pub open spec fn err_branding(form: AdminSettingsForm) -> Option<Seq<char>> {
    then_err(
        if spec_dark_mode_ok(form.dark_mode@) {
            None
        } else {
            Some("invalid dark mode behavior"@)
        },
        if spec_blocks(spec_lines(ov(form.homepage_blocks))) is Some {
            None
        } else {
            Some("homepage blocks require title and body"@)
        },
    )
}

pub open spec fn branding_ok(form: AdminSettingsForm, new: BrandingConfig) -> bool {
    &&& new.instance_name@ == trim(form.instance_name@)
    &&& new.tagline@ == trim(form.tagline@)
    &&& opt_view(new.logo_url) == spec_nonempty(ov(form.logo_url))
    &&& opt_view(new.favicon_url) == spec_nonempty(ov(form.favicon_url))
    &&& new.accent_color@ == trim(form.accent_color@)
    &&& new.dark_mode@ == form.dark_mode@
    &&& new.opengraph_description@ == trim(form.opengraph_description@)
    &&& new.opengraph_files == form.opengraph_files is Some
    &&& new.opengraph_pastes == form.opengraph_pastes is Some
    &&& new.takedown_page_text@ == trim(form.takedown_page_text@)
    &&& Some(blocks_view(new.homepage_blocks@)) == spec_blocks(spec_lines(ov(form.homepage_blocks)))
    &&& opt_view(new.abuse_email) == spec_nonempty(ov(form.abuse_email))
    &&& opt_view(new.contact_url) == spec_nonempty(ov(form.contact_url))
}

pub fn branding_from_form(form: &AdminSettingsForm) -> (r: Result<BrandingConfig, WebError>)
    ensures
        match err_branding(*form) {
            Some(m) => refused_with(r, m),
            None => r matches Ok(new) && branding_ok(*form, new),
        },
{
    if !dark_mode_ok(form.dark_mode.as_str()) {
        return Err(bad_request("invalid dark mode behavior"));
    }
    let homepage_blocks = match parse_homepage_blocks(field(&form.homepage_blocks)) {
        Ok(v) => v,
        Err(e) => return Err(e),
    };
    Ok(
        BrandingConfig {
            instance_name: trimmed(form.instance_name.as_str()),
            tagline: trimmed(form.tagline.as_str()),
            logo_url: nonempty(field(&form.logo_url)),
            favicon_url: nonempty(field(&form.favicon_url)),
            accent_color: trimmed(form.accent_color.as_str()),
            dark_mode: form.dark_mode.clone(),
            opengraph_description: trimmed(form.opengraph_description.as_str()),
            opengraph_files: form.opengraph_files.is_some(),
            opengraph_pastes: form.opengraph_pastes.is_some(),
            takedown_page_text: trimmed(form.takedown_page_text.as_str()),
            homepage_blocks,
            abuse_email: nonempty(field(&form.abuse_email)),
            contact_url: nonempty(field(&form.contact_url)),
        },
    )
}

// ---------------------------------------------------------------- scanning

/// A scanner adapter by its plain values.
pub enum AdapterView {
    Command(Seq<char>, Seq<Seq<char>>),
    Webhook(Seq<char>, Option<Seq<char>>),
    ClamAv(Seq<char>),
}

impl View for ScannerAdapterConfig {
    type V = AdapterView;

    open spec fn view(&self) -> AdapterView {
        match self {
            ScannerAdapterConfig::Command { program, args } => AdapterView::Command(program@, strings_view(args@)),
            ScannerAdapterConfig::Webhook { url, secret } => AdapterView::Webhook(url@, opt_view(*secret)),
            ScannerAdapterConfig::ClamAv { socket } => AdapterView::ClamAv(socket@),
        }
    }
}

pub open spec fn adapters_view(v: Seq<ScannerAdapterConfig>) -> Seq<AdapterView> {
    v.map_values(|a: ScannerAdapterConfig| a@)
}

pub open spec fn or_blank(o: Option<Seq<char>>) -> Seq<char> {
    match o {
        Some(s) => s,
        None => Seq::empty(),
    }
}

/// The scanners the form configures, in the order command, webhook, ClamAV;
/// each is present when its main field is not blank.
pub open spec fn spec_adapters(form: AdminSettingsForm) -> Seq<AdapterView> {
    let a = match spec_nonempty(ov(form.command_scanner_program)) {
        Some(p) => seq![AdapterView::Command(p, nonempty_pieces(split_ws(or_blank(ov(form.command_scanner_args)))))],
        None => Seq::empty(),
    };
    let b = match spec_nonempty(ov(form.webhook_scanner_url)) {
        Some(u) => seq![AdapterView::Webhook(u, spec_nonempty(ov(form.webhook_scanner_secret)))],
        None => Seq::empty(),
    };
    let c = match spec_nonempty(ov(form.clamav_socket)) {
        Some(s) => seq![AdapterView::ClamAv(s)],
        None => Seq::empty(),
    };
    a + b + c
}

pub fn scanner_adapters_from_form(form: &AdminSettingsForm) -> (r: Vec<ScannerAdapterConfig>)
    ensures
        adapters_view(r@) == spec_adapters(*form),
{
    let mut adapters: Vec<ScannerAdapterConfig> = Vec::new();
    if let Some(program) = nonempty(field(&form.command_scanner_program)) {
        let args = match &form.command_scanner_args {
            Some(a) => split_whitespace(a.as_str()),
            None => {
                proof {
                    reveal_strlit("");
                }
                split_whitespace("")
            },
        };
        adapters.push(ScannerAdapterConfig::Command { program, args });
    }
    let ghost after_a = adapters@;
    if let Some(url) = nonempty(field(&form.webhook_scanner_url)) {
        adapters.push(
            ScannerAdapterConfig::Webhook { url, secret: nonempty(field(&form.webhook_scanner_secret)) },
        );
    }
    let ghost after_b = adapters@;
    if let Some(socket) = nonempty(field(&form.clamav_socket)) {
        adapters.push(ScannerAdapterConfig::ClamAv { socket });
    }
    proof {
        let sa = match spec_nonempty(ov(form.command_scanner_program)) {
            Some(p) => seq![AdapterView::Command(p, nonempty_pieces(split_ws(or_blank(ov(form.command_scanner_args)))))],
            None => Seq::<AdapterView>::empty(),
        };
        let sb = match spec_nonempty(ov(form.webhook_scanner_url)) {
            Some(u) => seq![AdapterView::Webhook(u, spec_nonempty(ov(form.webhook_scanner_secret)))],
            None => Seq::<AdapterView>::empty(),
        };
        let sc = match spec_nonempty(ov(form.clamav_socket)) {
            Some(s) => seq![AdapterView::ClamAv(s)],
            None => Seq::<AdapterView>::empty(),
        };
        assert(adapters_view(after_a) =~= sa);
        assert(adapters_view(after_b) =~= sa + sb);
        assert(adapters_view(adapters@) =~= sa + sb + sc);
    }
    adapters
}

pub open spec fn err_scanning(form: AdminSettingsForm) -> Option<Seq<char>> {
    unknown(spec_scan_decision(form.default_on_error@), "invalid scanner failure behavior"@)
}

pub open spec fn scanning_ok(form: AdminSettingsForm, new: ScanningConfig) -> bool {
    &&& new.enabled == form.scanning_enabled is Some
    &&& strings_view(new.blocked_hashes@) == spec_lines(ov(form.blocked_hashes))
    &&& strings_view(new.blocked_mime_types@) == spec_lines(ov(form.blocked_mime_types))
    &&& new.default_on_error == spec_scan_decision(form.default_on_error@).unwrap()
    &&& adapters_view(new.adapters@) == spec_adapters(form)
}

pub fn scanning_from_form(form: &AdminSettingsForm) -> (r: Result<ScanningConfig, WebError>)
    ensures
        match err_scanning(*form) {
            Some(m) => refused_with(r, m),
            None => r matches Ok(new) && scanning_ok(*form, new),
        },
{
    let blocked_hashes = lines(field(&form.blocked_hashes));
    let blocked_mime_types = lines(field(&form.blocked_mime_types));
    let default_on_error = match parse_scan_decision(form.default_on_error.as_str()) {
        Ok(v) => v,
        Err(e) => return Err(e),
    };
    Ok(
        ScanningConfig {
            enabled: form.scanning_enabled.is_some(),
            blocked_hashes,
            blocked_mime_types,
            default_on_error,
            adapters: scanner_adapters_from_form(form),
        },
    )
}

// ---------------------------------------------------------------- the whole form

/// The first problem of the form, in the order the form is read.
pub open spec fn settings_form_error(form: AdminSettingsForm, oidc_configured: bool) -> Option<Seq<char>> {
    then_err(
        err_sign_in(form, oidc_configured),
        then_err(
            err_limits(form),
            then_err(
                err_policy(form),
                then_err(
                    err_security(form),
                    then_err(
                        err_delivery(form),
                        then_err(
                            err_processing(form),
                            then_err(
                                err_discovery(form),
                                then_err(
                                    err_jobs(form),
                                    then_err(
                                        err_metrics(form),
                                        then_err(
                                            err_tokens(form),
                                            then_err(err_branding(form), err_scanning(form)),
                                        ),
                                    ),
                                ),
                            ),
                        ),
                    ),
                ),
            ),
        ),
    )
}

/// `new` holds what the form sets, and what it keeps from `old` where the form
/// leaves a value unchanged.
pub open spec fn settings_form_ok(old: RuntimeSettings, form: AdminSettingsForm, new: RuntimeSettings) -> bool {
    &&& new.features == spec_features(form)
    &&& limits_ok(old.limits, form, new.limits)
    &&& new.policy == spec_policy(form)
    &&& security_ok(old.security, form, new.security)
    &&& delivery_ok(old.delivery, form, new.delivery)
    &&& branding_ok(form, new.branding)
    &&& scanning_ok(form, new.scanning)
    &&& new.processing == spec_processing(old.processing, form)
    &&& new.discovery == spec_discovery(old.discovery, form)
    &&& new.jobs == spec_jobs(old.jobs, form)
    &&& opt_view(new.uploads.temp_dir) == spec_nonempty(ov(form.upload_temp_dir))
    &&& metrics_ok(form, new.metrics)
    &&& new.tokens == spec_tokens(form)
    &&& moderation_ok(form, new.moderation)
}

/// The settings form never locks everyone out: settings it is accepted into
/// keep local login, or OIDC login where OIDC is configured.
pub proof fn law_accepted_settings_keep_a_sign_in_path(
    old: RuntimeSettings,
    form: AdminSettingsForm,
    oidc_configured: bool,
    new: RuntimeSettings,
)
    requires
        settings_form_error(form, oidc_configured) is None,
        settings_form_ok(old, form, new),
    ensures
        new.features.local_login || (new.features.oidc_login && oidc_configured),
{
}

/// Applies the operator settings form to `old`. `oidc_configured` tells
/// whether the server configuration provides OIDC (enabled, with an issuer and
/// a client id); the form may then switch local login off.
pub fn apply_settings_form(old: &RuntimeSettings, form: &AdminSettingsForm, oidc_configured: bool) -> (r: Result<RuntimeSettings, WebError>)
    ensures
        match settings_form_error(*form, oidc_configured) {
            Some(m) => refused_with(r, m),
            None => r matches Ok(new) && settings_form_ok(*old, *form, new),
        },
{
    let features = features_from_form(form);
    if !features.local_login && !(features.oidc_login && oidc_configured) {
        return Err(bad_request("at least one sign-in method must remain enabled"));
    }
    let limits = match limits_from_form(&old.limits, form) {
        Ok(v) => v,
        Err(e) => return Err(e),
    };
    let policy = match policy_from_form(form) {
        Ok(v) => v,
        Err(e) => return Err(e),
    };
    let security = match security_from_form(&old.security, form) {
        Ok(v) => v,
        Err(e) => return Err(e),
    };
    let delivery = match delivery_from_form(&old.delivery, form) {
        Ok(v) => v,
        Err(e) => return Err(e),
    };
    let processing = match processing_from_form(&old.processing, form) {
        Ok(v) => v,
        Err(e) => return Err(e),
    };
    let discovery = match discovery_from_form(&old.discovery, form) {
        Ok(v) => v,
        Err(e) => return Err(e),
    };
    let jobs = match jobs_from_form(&old.jobs, form) {
        Ok(v) => v,
        Err(e) => return Err(e),
    };
    let uploads = uploads_from_form(form);
    let metrics = match metrics_from_form(form) {
        Ok(v) => v,
        Err(e) => return Err(e),
    };
    let tokens = match tokens_from_form(form) {
        Ok(v) => v,
        Err(e) => return Err(e),
    };
    let moderation = moderation_from_form(form);
    let branding = match branding_from_form(form) {
        Ok(v) => v,
        Err(e) => return Err(e),
    };
    let scanning = match scanning_from_form(form) {
        Ok(v) => v,
        Err(e) => return Err(e),
    };
    Ok(
        RuntimeSettings {
            features,
            limits,
            policy,
            security,
            delivery,
            branding,
            scanning,
            processing,
            discovery,
            jobs,
            uploads,
            metrics,
            tokens,
            moderation,
        },
    )
}

} // verus!
