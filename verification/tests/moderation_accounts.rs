use midden::access::{api_caller, check_claim_allowed, ensure_reports_enabled, session_lookup_key, ApiCaller};
use midden::accounts::{
    bulk_action_kind, check_self_disable, disable_audit_action, email_verification_check,
    email_verification_mail_body, email_verification_url, ensure_api_enabled, invite_expires_at,
    login_outcome, normalize_two_factor_code, parse_token_ttl, password_reset_mail_body,
    password_reset_url, session_cookie, signup_allowed, signup_invite_token,
    signup_requires_email_verification, transient_cookie, two_factor_challenge_check,
    two_factor_enable_check, two_factor_mail_body, verify_current_password, BulkActionKind,
    LoginStep,
};
use midden::crypto::{hash_token, to_hex_lower};
use midden::delivery::{
    check_file_origin, delete_url, preview_kind, preview_text_wanted, sign_internal_file_url,
    signed_internal_raw_url, verify_internal_file_request, wants_json,
};
use midden::expiry::{check_expiry_limits, invalid_expiry, max_expiry_input, selected_expiry_input};
use midden::imagestrip::{strip_jpeg_metadata, strip_png_metadata};
use midden::model::{ActionRule, Role, User, WebError};
use midden::moderation::{
    add_blocked_hash, check_report_selection, item_action, item_kind, moderation_note,
    moderation_webhook_target, report_action_plan, report_detail, reported_item_kind,
    scanner_form_defaults, updated_or_not_found, visibility_audit_action, ItemAction, ItemKind,
};
use midden::net::rate_limit_identity;
use midden::numbers::{i64_to_text, parse_i64, parse_u64, u64_to_text};
use midden::samples::hex_fixture;
use midden::settings::{
    BrandingConfig, ContentDispositionMode, ContentPolicy, DeletePolicy, DeliveryConfig,
    DiscoveryConfig, ExpiryConfig, FeatureConfig, JobsConfig, Keyed, LimitsConfig, MetricsAccessMode,
    MetricsConfig, ModerationConfig, PolicyConfig, ProcessingConfig, QuotaConfig, RateLimitBackend,
    RiskyMimeMode, RuntimeSettings, ScanDecision, ScannerAdapterConfig, ScanningConfig,
    SecurityConfig, SignupMode, TokensConfig, UploadsConfig, UrlUploadConfig,
};

fn quota() -> QuotaConfig {
    QuotaConfig {
        storage_bytes: None,
        daily_upload_bytes: None,
        monthly_upload_bytes: None,
        item_count: None,
    }
}

fn settings() -> RuntimeSettings {
    RuntimeSettings {
        features: FeatureConfig {
            files: true,
            pastes: true,
            accounts: true,
            api: true,
            reports: true,
            upload_by_url: true,
            preview_pages: true,
            public_browse: false,
            oidc_login: false,
            local_login: true,
            paste_content_search: false,
            paste_editing: true,
        },
        limits: LimitsConfig {
            max_upload_bytes: 1024,
            max_paste_bytes: 64,
            max_tus_upload_bytes: 4096,
            default_file_expiry: None,
            default_paste_expiry: None,
            anonymous_quota: quota(),
            role_quotas: Keyed { entries: Vec::new() },
            expiry: ExpiryConfig {
                allow_never: true,
                anonymous_max_file_expiry: None,
                user_max_file_expiry: None,
                anonymous_max_paste_expiry: None,
                user_max_paste_expiry: None,
                allowed_presets: Vec::new(),
            },
        },
        policy: PolicyConfig {
            signup: SignupMode::Open,
            upload_file: ActionRule::Anonymous,
            create_paste: ActionRule::Anonymous,
            use_api: ActionRule::Anonymous,
            view_item: ActionRule::Anonymous,
            delete_own_item: ActionRule::Authenticated,
            delete_policy: DeletePolicy::DeleteTokens,
            claim_anonymous_item: ActionRule::Authenticated,
            create_account: ActionRule::Anonymous,
        },
        security: SecurityConfig {
            secure_cookies: false,
            content_disposition: ContentDispositionMode::Attachment,
            reject_mime_mismatch: true,
            rate_limit_backend: RateLimitBackend::Memory,
            content_policy: ContentPolicy {
                allowed_mime_types: Vec::new(),
                forced_attachment_mime_types: Vec::new(),
                risky_mime_mode: RiskyMimeMode::Attachment,
                max_filename_bytes: 16,
            },
            url_upload: UrlUploadConfig {
                block_private_ips: true,
                max_redirects: 3,
                connect_timeout_seconds: 5,
                request_timeout_seconds: 30,
                max_response_bytes: None,
                allowed_ports: Vec::new(),
                blocked_ports: Vec::new(),
                user_agent: None,
                allowed_hosts: Vec::new(),
                blocked_hosts: Vec::new(),
            },
            rate_limits: Keyed { entries: Vec::new() },
        },
        delivery: DeliveryConfig {
            public_cache_seconds: 0,
            static_cache_seconds: 3600,
            public_file_base_url: None,
            isolated_file_origin: false,
            signed_internal_urls: false,
            internal_url_secret: None,
            internal_url_ttl_seconds: 60,
        },
        branding: BrandingConfig {
            instance_name: "Midden".to_string(),
            tagline: String::new(),
            logo_url: None,
            favicon_url: None,
            accent_color: "#4f46e5".to_string(),
            dark_mode: "auto".to_string(),
            opengraph_description: String::new(),
            opengraph_files: false,
            opengraph_pastes: false,
            takedown_page_text: String::new(),
            homepage_blocks: Vec::new(),
            abuse_email: None,
            contact_url: None,
        },
        scanning: ScanningConfig {
            enabled: false,
            blocked_hashes: vec!["ABCDEF".to_string()],
            blocked_mime_types: vec!["application/x-msdownload".to_string()],
            default_on_error: ScanDecision::Allow,
            adapters: Vec::new(),
        },
        processing: ProcessingConfig {
            metadata_extraction: true,
            metadata_stripping: true,
            thumbnails: false,
            thumbnail_max_dimension: 256,
            thumbnail_jpeg_quality: 80,
        },
        discovery: DiscoveryConfig {
            robots_index: false,
            page_size: 20,
        },
        jobs: JobsConfig {
            enabled: false,
            interval_seconds: 60,
            metadata_limit: 10,
            scanner_retry_limit: 3,
            storage_verify_interval_seconds: 3600,
        },
        uploads: UploadsConfig { temp_dir: None },
        metrics: MetricsConfig {
            enabled: true,
            access: MetricsAccessMode::Public,
            bearer_token: None,
        },
        tokens: TokensConfig {
            default_ttl_seconds: None,
            max_ttl_seconds: None,
        },
        moderation: ModerationConfig {
            notify_webhook_url: None,
            notify_webhook_secret: None,
        },
    }
}

fn message(e: WebError) -> String {
    match e {
        WebError::BadRequest(m) => m,
        other => panic!("expected a bad request, got {:?}", other),
    }
}

#[test]
fn password_sign_in_steps() {
    let unknown = login_outcome(false, false, false, false, false).unwrap_err();
    assert!(matches!(unknown.error, WebError::Unauthorized));
    assert_eq!(unknown.audit_reason, "unknown email");
    assert_eq!(login_outcome(true, false, false, true, false).unwrap_err().audit_reason, "local password unavailable");
    assert_eq!(login_outcome(true, true, false, true, false).unwrap_err().audit_reason, "bad password");
    let unverified = login_outcome(true, true, true, false, false).unwrap_err();
    assert_eq!(unverified.audit_reason, "email unverified");
    assert_eq!(message(unverified.error), "email verification is required before login");
    assert_eq!(login_outcome(true, true, true, true, true).unwrap(), LoginStep::TwoFactor);
    assert_eq!(login_outcome(true, true, true, true, false).unwrap(), LoginStep::Session);
    let no_mail = two_factor_challenge_check(false).unwrap_err();
    assert_eq!(no_mail.audit_reason, "two-factor email unavailable");
    assert!(two_factor_challenge_check(true).is_ok());
    assert_eq!(normalize_two_factor_code("  ab12cd "), "AB12CD");
    assert_eq!(
        two_factor_mail_body("XYZ"),
        "Use this code to finish signing in:\n\nXYZ\n\nThe code expires in 10 minutes."
    );
}

#[test]
fn mails_carry_links_under_the_base_url() {
    let reset = password_reset_url("https://example.com/", "tok");
    assert_eq!(reset, "https://example.com/auth/password-reset/tok");
    assert_eq!(
        password_reset_mail_body(&reset),
        "Use this link to reset your password:\n\nhttps://example.com/auth/password-reset/tok\n\nThe link expires in one hour."
    );
    let verify = email_verification_url("https://example.com", "v");
    assert_eq!(verify, "https://example.com/auth/verify-email/v");
    assert!(email_verification_mail_body(&verify).ends_with("The link expires in 24 hours."));
    assert_eq!(message(email_verification_check(false).unwrap_err()), "email verification requires SMTP");
}

#[test]
fn sign_up_follows_the_signup_mode() {
    assert_eq!(signup_allowed(SignupMode::Open).unwrap(), false);
    assert_eq!(signup_allowed(SignupMode::InviteOnly).unwrap(), true);
    assert!(matches!(signup_allowed(SignupMode::Disabled), Err(WebError::Forbidden)));
    assert!(matches!(signup_allowed(SignupMode::AdminCreated), Err(WebError::Forbidden)));
    assert!(signup_requires_email_verification(SignupMode::Open, true));
    assert!(!signup_requires_email_verification(SignupMode::InviteOnly, true));
    assert_eq!(message(signup_invite_token(SignupMode::InviteOnly, None).unwrap_err()), "invite token is required");
    assert_eq!(signup_invite_token(SignupMode::InviteOnly, Some("t")).unwrap(), Some("t"));
    assert_eq!(signup_invite_token(SignupMode::Open, Some("t")).unwrap(), None);
}

#[test]
fn account_page_checks() {
    assert_eq!(
        message(verify_current_password(false, true).unwrap_err()),
        "OIDC-only accounts do not have a local password"
    );
    assert!(matches!(verify_current_password(true, false), Err(WebError::Unauthorized)));
    assert!(verify_current_password(true, true).is_ok());
    assert_eq!(message(two_factor_enable_check(false, true).unwrap_err()), "two-factor authentication requires SMTP");
    assert_eq!(
        message(two_factor_enable_check(true, false).unwrap_err()),
        "verify your email before enabling two-factor authentication"
    );
    assert!(matches!(ensure_api_enabled(false), Err(WebError::Forbidden)));
    assert_eq!(parse_token_ttl(Some(" 3600 ")).unwrap(), Some(3600));
    assert_eq!(parse_token_ttl(Some("  ")).unwrap(), None);
    assert_eq!(
        message(parse_token_ttl(Some("soon")).unwrap_err()),
        "invalid token TTL seconds: invalid digit found in string"
    );
    assert_eq!(bulk_action_kind("set_expiry").unwrap(), BulkActionKind::SetExpiry);
    assert_eq!(message(bulk_action_kind("explode").unwrap_err()), "unknown bulk action");
}

#[test]
fn user_administration_checks() {
    assert_eq!(
        message(check_self_disable(Some("a"), "a", true).unwrap_err()),
        "admins cannot disable themselves"
    );
    assert!(check_self_disable(Some("a"), "a", false).is_ok());
    assert!(check_self_disable(Some("a"), "b", true).is_ok());
    assert_eq!(invite_expires_at(Some(2), 100), Some(100 + 7200));
    assert_eq!(invite_expires_at(Some(0), 100), None);
    assert_eq!(disable_audit_action(true), "user.disabled");
    assert_eq!(disable_audit_action(false), "user.enabled");
}

#[test]
fn cookies_are_site_wide_and_http_only() {
    let c = session_cookie("midden_session", "tok".to_string(), Some(60), true);
    assert_eq!(c.path, "/");
    assert!(c.http_only && c.same_site_lax && c.secure);
    assert_eq!(c.max_age_seconds, Some(60));
    let t = transient_cookie("midden_oidc_state", "s".to_string(), false);
    assert_eq!(t.max_age_seconds, Some(600));
    assert!(!t.secure);
}

#[test]
fn api_callers_are_resolved() {
    assert!(matches!(api_caller(false, true, true, true), Err(WebError::Forbidden)));
    assert!(matches!(api_caller(true, true, false, true), Err(WebError::Unauthorized)));
    assert_eq!(api_caller(true, true, true, true).unwrap(), ApiCaller::TokenUser);
    assert!(matches!(api_caller(true, true, true, false), Err(WebError::Forbidden)));
    assert_eq!(api_caller(true, false, false, true).unwrap(), ApiCaller::Anonymous);
    assert!(matches!(api_caller(true, false, false, false), Err(WebError::Unauthorized)));
    assert_eq!(session_lookup_key(Some("abc")).unwrap(), hash_token("abc"));
    assert_eq!(session_lookup_key(None), None);
}

#[test]
fn reports_and_claims_are_gated() {
    let mut s = settings();
    assert!(ensure_reports_enabled(&s).is_ok());
    s.features.reports = false;
    assert!(matches!(ensure_reports_enabled(&s), Err(WebError::NotFound)));
    let u = User { id: "u".to_string(), role: Role::User, is_disabled: false };
    assert!(matches!(check_claim_allowed(&s, None), Err(WebError::Unauthorized)));
    assert!(check_claim_allowed(&s, Some(&u)).is_ok());
    s.policy.claim_anonymous_item = ActionRule::Admin;
    assert!(matches!(check_claim_allowed(&s, Some(&u)), Err(WebError::Forbidden)));
}

#[test]
fn report_actions_plan_their_effects() {
    let p = report_action_plan("resolve").unwrap();
    assert_eq!(p.report_state, "resolved");
    assert_eq!(p.detail, "moderator resolved");
    assert!(p.item_state.is_none());
    let d = report_action_plan("dismiss").unwrap();
    assert_eq!(d.report_state, "dismissed");
    let t = report_action_plan("takedown").unwrap();
    assert_eq!(t.item_state, Some("takedown"));
    assert_eq!(t.detail, "moderator set item state takedown");
    assert_eq!(message(report_action_plan("shrug").unwrap_err()), "unknown report action");
    assert_eq!(moderation_note(Some("  note ")).as_deref(), Some("note"));
    assert_eq!(moderation_note(Some("  ")), None);
    assert_eq!(message(check_report_selection(&vec![]).unwrap_err()), "select at least one report");
    assert_eq!(reported_item_kind("paste").unwrap(), ItemKind::Paste);
    assert_eq!(message(reported_item_kind("user").unwrap_err()), "unknown report item kind");
    assert_eq!(item_kind("x"), None);
    assert_eq!(report_detail("r1"), "report r1");
    assert!(matches!(updated_or_not_found(false), Err(WebError::NotFound)));
    assert_eq!(visibility_audit_action(ItemKind::File), "file.visibility_updated");
}

#[test]
fn item_actions_are_checked() {
    let s = settings();
    assert!(matches!(
        item_action(&s, "file", "set_state", Some("takedown"), None, None).unwrap(),
        ItemAction::SetState(state) if state == "takedown"
    ));
    assert_eq!(
        message(item_action(&s, "file", "set_state", Some("gone"), None, None).unwrap_err()),
        "invalid item state"
    );
    assert!(matches!(
        item_action(&s, "file", "set_visibility", None, Some("private"), None).unwrap(),
        ItemAction::SetVisibility("private")
    ));
    assert_eq!(
        message(item_action(&s, "file", "add_note", None, None, Some(" ")).unwrap_err()),
        "note is required"
    );
    assert!(matches!(item_action(&s, "file", "block_hash", None, None, None).unwrap(), ItemAction::BlockHash));
    assert_eq!(
        message(item_action(&s, "paste", "block_hash", None, None, None).unwrap_err()),
        "blocked hashes can only be created from files"
    );
    assert_eq!(
        message(item_action(&s, "file", "explode", None, None, None).unwrap_err()),
        "unknown item action"
    );
}

#[test]
fn blocking_a_hash_twice_blocks_it_once() {
    let mut blocked = vec!["AA".to_string()];
    assert!(add_blocked_hash(&mut blocked, "bb"));
    assert!(!add_blocked_hash(&mut blocked, "BB"));
    assert!(!add_blocked_hash(&mut blocked, "aa"));
    assert_eq!(blocked, vec!["AA".to_string(), "bb".to_string()]);
}

#[test]
fn scanner_fields_round_trip_through_the_settings() {
    let mut s = settings();
    s.scanning.adapters = vec![
        ScannerAdapterConfig::ClamAv { socket: "/old.sock".to_string() },
        ScannerAdapterConfig::Command {
            program: "scan".to_string(),
            args: vec!["-q".to_string(), "--all".to_string()],
        },
        ScannerAdapterConfig::Webhook { url: "https://hook".to_string(), secret: None },
        ScannerAdapterConfig::ClamAv { socket: "/run/clamd.sock".to_string() },
    ];
    let d = scanner_form_defaults(&s);
    assert_eq!(d.command_program, "scan");
    assert_eq!(d.command_args, "-q --all");
    assert_eq!(d.webhook_url, "https://hook");
    assert_eq!(d.webhook_secret, "");
    assert_eq!(d.clamav_socket, "/run/clamd.sock");
}

#[test]
fn moderation_webhooks_need_a_url() {
    let mut s = settings();
    assert!(moderation_webhook_target(&s).is_none());
    s.moderation.notify_webhook_url = Some(String::new());
    assert!(moderation_webhook_target(&s).is_none());
    s.moderation.notify_webhook_url = Some("https://hook".to_string());
    s.moderation.notify_webhook_secret = Some(String::new());
    assert_eq!(moderation_webhook_target(&s), Some(("https://hook".to_string(), None)));
    s.moderation.notify_webhook_secret = Some("k".to_string());
    assert_eq!(moderation_webhook_target(&s), Some(("https://hook".to_string(), Some("k".to_string()))));
}

#[test]
fn signed_links_verify_until_they_expire() {
    let mut s = settings();
    assert!(matches!(verify_internal_file_request(&s.delivery, "abc", 10, "x", 0), Err(WebError::NotFound)));
    s.delivery.signed_internal_urls = true;
    s.delivery.internal_url_secret = Some("test-secret".to_string());
    let url = signed_internal_raw_url(&s.delivery, "https://example.com", "abc", 1000).unwrap();
    let signature = url.split("signature=").nth(1).unwrap();
    assert_eq!(signature, sign_internal_file_url("test-secret", "abc", 1060));
    assert!(verify_internal_file_request(&s.delivery, "abc", 1060, signature, 1000).is_ok());
    assert!(verify_internal_file_request(&s.delivery, "abc", 1060, signature, 1060).is_ok());
    assert!(matches!(
        verify_internal_file_request(&s.delivery, "abc", 1060, signature, 1061),
        Err(WebError::Forbidden)
    ));
    assert!(matches!(
        verify_internal_file_request(&s.delivery, "abd", 1060, signature, 1000),
        Err(WebError::Forbidden)
    ));
    assert!(matches!(
        verify_internal_file_request(&s.delivery, "abc", 1061, signature, 1000),
        Err(WebError::Forbidden)
    ));
}

#[test]
fn file_routes_stay_on_the_file_origin() {
    let mut s = settings();
    assert!(check_file_origin(&s.delivery, Some("example.com")).is_ok());
    s.delivery.isolated_file_origin = true;
    s.delivery.public_file_base_url = Some("https://files.example.com".to_string());
    assert!(matches!(check_file_origin(&s.delivery, Some("example.com")), Err(WebError::NotFound)));
    assert!(check_file_origin(&s.delivery, Some("FILES.example.com")).is_ok());
    assert!(wants_json(Some("text/html, application/json;q=0.9")));
    assert!(!wants_json(Some("text/html")));
    assert!(!wants_json(None));
    assert_eq!(delete_url("abc"), "/delete/file/abc");
    assert_eq!(preview_kind(Some("image/png")), (true, false));
    assert_eq!(preview_kind(Some("text/markdown")), (false, true));
    assert_eq!(preview_kind(Some("application/json")), (false, true));
    assert_eq!(preview_kind(None), (false, false));
    assert!(preview_text_wanted(true, 131072));
    assert!(!preview_text_wanted(true, 131073));
}

#[test]
fn expiry_choices_and_limits() {
    let mut s = settings();
    assert_eq!(selected_expiry_input(Some(" 1h "), Some("1d")).as_deref(), Some("1h"));
    assert_eq!(selected_expiry_input(Some(" "), Some(" 1d ")).as_deref(), Some("1d"));
    assert_eq!(selected_expiry_input(None, None), None);
    s.limits.expiry.user_max_file_expiry = Some("30d".to_string());
    assert_eq!(max_expiry_input(&s, "file", true), Some("30d"));
    assert_eq!(max_expiry_input(&s, "file", false), None);
    assert_eq!(max_expiry_input(&s, "user", true), None);
    assert_eq!(check_expiry_limits(&s, None, None, 0).unwrap(), None);
    s.limits.expiry.allow_never = false;
    assert_eq!(
        message(check_expiry_limits(&s, None, None, 0).unwrap_err()),
        "never-expiring items are disabled"
    );
    assert_eq!(check_expiry_limits(&s, Some(50), Some(Some(100)), 10).unwrap(), Some(50));
    assert_eq!(
        message(check_expiry_limits(&s, Some(150), Some(Some(100)), 10).unwrap_err()),
        "expiry exceeds configured maximum"
    );
    assert_eq!(
        message(check_expiry_limits(&s, Some(50), Some(None), 10).unwrap_err()),
        "max expiry cannot be never"
    );
    assert_eq!(message(invalid_expiry("bad unit")), "invalid expiry: bad unit");
}

#[test]
fn decimal_text_parses_back() {
    for v in [i64::MIN, -1_000_000_007, -1, 0, 7, 42, i64::MAX] {
        assert_eq!(parse_i64(&i64_to_text(v)).unwrap(), v);
    }
    for v in [0u64, 9, 10, u64::MAX] {
        assert_eq!(parse_u64(&u64_to_text(v)).unwrap(), v);
    }
}

#[test]
fn hex_text_reads_back() {
    let data = vec![0x00, 0x0f, 0xa5, 0xff, 0x10];
    assert_eq!(hex_fixture(&to_hex_lower(&data)), data);
}

#[test]
fn stripped_images_strip_to_themselves() {
    let png = [
        b"\x89PNG\r\n\x1a\n".as_slice(),
        &[0, 0, 0, 0, b'I', b'H', b'D', b'R', 0, 0, 0, 0],
        &[0, 0, 0, 1, b'z', b'T', b'X', b't', 9, 0, 0, 0, 0],
        &[0, 0, 0, 0, b'I', b'E', b'N', b'D', 0, 0, 0, 0],
    ]
    .concat();
    let once = strip_png_metadata(&png).unwrap();
    assert_eq!(once.len(), png.len() - 13);
    assert_eq!(strip_png_metadata(&once).unwrap(), once);
    let jpeg = vec![0xff, 0xd8, 0xff, 0xff, 0xfe, 0, 3, b'c', 0xff, 0xdb, 0, 2, 0xff, 0xda, 0, 2, 1, 2, 3];
    let once = strip_jpeg_metadata(&jpeg).unwrap();
    assert_eq!(once, vec![0xff, 0xd8, 0xff, 0xdb, 0, 2, 0xff, 0xda, 0, 2, 1, 2, 3]);
    assert_eq!(strip_jpeg_metadata(&once).unwrap(), once);
}

#[test]
fn accounts_are_counted_apart() {
    assert_ne!(
        rate_limit_identity(Some("u1"), true, Some("1.1.1.1"), None),
        rate_limit_identity(Some("u2"), true, Some("1.1.1.1"), None)
    );
}
