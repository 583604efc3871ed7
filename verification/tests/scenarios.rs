use midden::access::{
    api_caller, authorize_item_view, ensure_accounts_enabled, ensure_reports_enabled, ensure_local_accounts_enabled, ensure_owner_account_mutation_allowed,
    requested_scopes_allowed, role_requires_owner_actor,
};
use midden::accounts::{
    ensure_api_enabled, session_cookie, signup_account, signup_invite_token, transient_cookie,
};
use midden::moderation::moderation_webhook_target;
use midden::delivery::{
    cache_control_value, check_file_origin, file_response_plan, raw_file_url,
    signed_internal_raw_url, verify_internal_file_request, CacheScope,
};
use midden::expiry::{check_expiry_limits, max_expiry_input};
use midden::model::{ActionRule, Role, User, WebError};
use midden::net::{client_ip_for_access_check, rate_limit_identity};
use midden::settings::{
    BrandingConfig, ContentDispositionMode, ContentPolicy, DeletePolicy, DeliveryConfig,
    DiscoveryConfig, ExpiryConfig, FeatureConfig, JobsConfig, Keyed, LimitsConfig, MetricsAccessMode,
    MetricsConfig, ModerationConfig, PolicyConfig, ProcessingConfig, QuotaConfig, RateLimitBackend,
    RiskyMimeMode, RuntimeSettings, ScanDecision, ScanningConfig, SecurityConfig, SignupMode,
    TokensConfig, UploadsConfig, UrlUploadConfig,
};
use midden::system::metrics_access;
use midden::upload::UploadMeter;

fn quota() -> QuotaConfig {
    QuotaConfig {
        storage_bytes: None,
        daily_upload_bytes: None,
        monthly_upload_bytes: None,
        item_count: None,
    }
}

fn settings() -> RuntimeSettings {
    RuntimeSettings {
        features: FeatureConfig {
            files: true,
            pastes: true,
            accounts: true,
            api: true,
            reports: true,
            upload_by_url: true,
            preview_pages: true,
            public_browse: false,
            oidc_login: false,
            local_login: true,
            paste_content_search: false,
            paste_editing: true,
        },
        limits: LimitsConfig {
            max_upload_bytes: 1024,
            max_paste_bytes: 64,
            max_tus_upload_bytes: 4096,
            default_file_expiry: None,
            default_paste_expiry: None,
            anonymous_quota: quota(),
            role_quotas: Keyed { entries: Vec::new() },
            expiry: ExpiryConfig {
                allow_never: true,
                anonymous_max_file_expiry: None,
                user_max_file_expiry: None,
                anonymous_max_paste_expiry: None,
                user_max_paste_expiry: None,
                allowed_presets: Vec::new(),
            },
        },
        policy: PolicyConfig {
            signup: SignupMode::Open,
            upload_file: ActionRule::Anonymous,
            create_paste: ActionRule::Anonymous,
            use_api: ActionRule::Anonymous,
            view_item: ActionRule::Anonymous,
            delete_own_item: ActionRule::Authenticated,
            delete_policy: DeletePolicy::DeleteTokens,
            claim_anonymous_item: ActionRule::Authenticated,
            create_account: ActionRule::Anonymous,
        },
        security: SecurityConfig {
            secure_cookies: false,
            content_disposition: ContentDispositionMode::Attachment,
            reject_mime_mismatch: true,
            rate_limit_backend: RateLimitBackend::Memory,
            content_policy: ContentPolicy {
                allowed_mime_types: Vec::new(),
                forced_attachment_mime_types: Vec::new(),
                risky_mime_mode: RiskyMimeMode::Attachment,
                max_filename_bytes: 16,
            },
            url_upload: UrlUploadConfig {
                block_private_ips: true,
                max_redirects: 3,
                connect_timeout_seconds: 5,
                request_timeout_seconds: 30,
                max_response_bytes: None,
                allowed_ports: Vec::new(),
                blocked_ports: Vec::new(),
                user_agent: None,
                allowed_hosts: Vec::new(),
                blocked_hosts: Vec::new(),
            },
            rate_limits: Keyed { entries: Vec::new() },
        },
        delivery: DeliveryConfig {
            public_cache_seconds: 0,
            static_cache_seconds: 3600,
            public_file_base_url: None,
            isolated_file_origin: false,
            signed_internal_urls: false,
            internal_url_secret: None,
            internal_url_ttl_seconds: 60,
        },
        branding: BrandingConfig {
            instance_name: "Midden".to_string(),
            tagline: String::new(),
            logo_url: None,
            favicon_url: None,
            accent_color: "#4f46e5".to_string(),
            dark_mode: "auto".to_string(),
            opengraph_description: String::new(),
            opengraph_files: false,
            opengraph_pastes: false,
            takedown_page_text: String::new(),
            homepage_blocks: Vec::new(),
            abuse_email: None,
            contact_url: None,
        },
        scanning: ScanningConfig {
            enabled: false,
            blocked_hashes: vec!["ABCDEF".to_string()],
            blocked_mime_types: vec!["application/x-msdownload".to_string()],
            default_on_error: ScanDecision::Allow,
            adapters: Vec::new(),
        },
        processing: ProcessingConfig {
            metadata_extraction: true,
            metadata_stripping: true,
            thumbnails: false,
            thumbnail_max_dimension: 256,
            thumbnail_jpeg_quality: 80,
        },
        discovery: DiscoveryConfig {
            robots_index: false,
            page_size: 20,
        },
        jobs: JobsConfig {
            enabled: false,
            interval_seconds: 60,
            metadata_limit: 10,
            scanner_retry_limit: 3,
            storage_verify_interval_seconds: 3600,
        },
        uploads: UploadsConfig { temp_dir: None },
        metrics: MetricsConfig {
            enabled: true,
            access: MetricsAccessMode::Public,
            bearer_token: None,
        },
        tokens: TokensConfig {
            default_ttl_seconds: None,
            max_ttl_seconds: None,
        },
        moderation: ModerationConfig {
            notify_webhook_url: None,
            notify_webhook_secret: None,
        },
    }
}

fn file_delivery_settings() -> RuntimeSettings {
    let mut s = settings();
    s.delivery.public_file_base_url = Some("https://files.midden.example".to_string());
    s.delivery.isolated_file_origin = true;
    s.security.content_disposition = ContentDispositionMode::Inline;
    s.security.content_policy.forced_attachment_mime_types = vec!["text/html".to_string()];
    s
}

#[test]
fn scoped_api_token_cannot_mint_broader_token() {
    let caller = vec!["tokens:write".to_string()];
    assert!(!requested_scopes_allowed(&caller, &["*".to_string()]));
}

#[test]
fn admins_cannot_mutate_owner_accounts() {
    let owner = User { id: "owner".to_string(), role: Role::Owner, is_disabled: false };
    let admin = User { id: "actor".to_string(), role: Role::Admin, is_disabled: false };
    assert!(!role_requires_owner_actor(Role::Admin, Some(&admin)));
    assert!(matches!(
        ensure_owner_account_mutation_allowed(Some(&admin), &owner, Some(Role::Admin), false, 1),
        Err(WebError::Forbidden)
    ));
    assert!(matches!(
        ensure_owner_account_mutation_allowed(Some(&admin), &owner, None, true, 1),
        Err(WebError::Forbidden)
    ));
}

#[test]
fn api_disabled_blocks_admin_api_routes() {
    assert!(matches!(api_caller(false, true, true, true), Err(WebError::Forbidden)));
}

#[test]
fn loopback_metrics_requires_real_loopback_client() {
    let mut s = settings();
    s.metrics.enabled = true;
    s.metrics.access = MetricsAccessMode::Loopback;
    let ip = client_ip_for_access_check(false, None, None);
    assert!(matches!(metrics_access(&s, false, None, ip), Err(WebError::Forbidden)));
}

#[test]
fn rate_limits_ignore_spoofed_real_ip_without_proxy_mode() {
    let first = rate_limit_identity(None, false, None, Some("198.51.100.10"));
    let second = rate_limit_identity(None, false, None, Some("198.51.100.11"));
    assert_eq!(first, "anonymous");
    assert_eq!(first, second);
}

#[test]
fn secure_cookie_runtime_setting_applies_to_all_auth_cookies() {
    let mut s = settings();
    s.security.secure_cookies = true;
    let cookie = session_cookie("midden_session", "token".to_string(), Some(3600), s.security.secure_cookies);
    assert!(cookie.secure);
    assert_eq!(cookie.name, "midden_session");
}

#[test]
fn file_delivery_uses_isolated_origin_for_generated_urls() {
    let s = file_delivery_settings();
    assert!(raw_file_url(&s.delivery, "https://midden.example", "abc")
        .starts_with("https://files.midden.example/files/"));
}

#[test]
fn file_delivery_restricts_routes_to_the_configured_host() {
    let s = file_delivery_settings();
    assert!(matches!(check_file_origin(&s.delivery, Some("midden.example")), Err(WebError::NotFound)));
    assert!(check_file_origin(&s.delivery, Some("files.midden.example")).is_ok());
    let plan = file_response_plan(
        &s.security,
        &s.delivery,
        Some("video/mp4"),
        18,
        Some("movie.mp4"),
        "filehost1",
        "unlisted",
        true,
        None,
    );
    assert_eq!(plan.content_disposition, "inline; filename=\"movie.mp4\"");
}

#[test]
fn file_delivery_keeps_risky_types_attachment_by_default() {
    let s = file_delivery_settings();
    let plan = file_response_plan(&s.security, &s.delivery, Some("text/html"), 25, Some("index.html"), "riskdef1", "unlisted", true, None);
    assert_eq!(plan.content_disposition, "attachment; filename=\"index.html\"");
}

#[test]
fn file_delivery_can_inline_risky_types_only_on_isolated_origin() {
    let mut s = file_delivery_settings();
    s.security.content_policy.risky_mime_mode = RiskyMimeMode::InlineOnIsolatedOrigin;
    let plan = file_response_plan(&s.security, &s.delivery, Some("text/html"), 15, Some("index.html"), "riskiso1", "unlisted", true, None);
    assert_eq!(plan.content_disposition, "inline; filename=\"index.html\"");
    assert!(plan.security_headers.contains(&("x-content-type-options", "nosniff")));
    assert!(plan
        .security_headers
        .iter()
        .any(|(name, value)| *name == "content-security-policy" && value.contains("sandbox")));
}

#[test]
fn file_delivery_can_serve_risky_types_as_plaintext() {
    let mut s = file_delivery_settings();
    s.security.content_policy.risky_mime_mode = RiskyMimeMode::Plaintext;
    let plan = file_response_plan(&s.security, &s.delivery, Some("text/html"), 25, Some("index.html"), "risktext1", "unlisted", true, None);
    assert_eq!(plan.content_type, "text/plain; charset=utf-8");
    assert_eq!(plan.content_disposition, "inline; filename=\"index.html\"");
    assert!(plan.security_headers.contains(&("x-content-type-options", "nosniff")));
}

#[test]
fn url_upload_stops_streaming_after_response_byte_limit() {
    let mut meter = UploadMeter::new(8);
    assert!(meter.feed(b"12345").is_ok());
    assert!(matches!(meter.feed(b"6789"), Err(WebError::PayloadTooLarge)));
}

#[test]
fn oidc_login_uses_secure_runtime_setting_for_transient_cookies() {
    let mut s = settings();
    s.security.secure_cookies = true;
    for name in ["midden_oidc_state", "midden_oidc_nonce", "midden_oidc_purpose"] {
        let cookie = transient_cookie(name, "value".to_string(), s.security.secure_cookies);
        assert_eq!(cookie.name, name);
        assert!(cookie.secure, "{name} cookie should be Secure");
        assert_eq!(cookie.max_age_seconds, Some(600));
    }
}

#[test]
fn test_local_login_disabled_blocks_endpoints() {
    let mut s = settings();
    s.features.local_login = false;
    // Login, registration and password reset all pass this guard first.
    assert!(matches!(ensure_local_accounts_enabled(&s), Err(WebError::Forbidden)));
    s.features.local_login = true;
    assert!(ensure_local_accounts_enabled(&s).is_ok());
}

#[test]
fn moderation_webhook_notifies_external_service() {
    let mut s = settings();
    assert!(moderation_webhook_target(&s).is_none());
    s.moderation.notify_webhook_url = Some("http://127.0.0.1:9/hook".to_string());
    s.moderation.notify_webhook_secret = Some("my-secret".to_string());
    let (url, secret) = moderation_webhook_target(&s).unwrap();
    assert_eq!(url, "http://127.0.0.1:9/hook");
    assert_eq!(secret.as_deref(), Some("my-secret"));
    s.moderation.notify_webhook_secret = Some(String::new());
    assert_eq!(moderation_webhook_target(&s).unwrap().1, None);
}

#[test]
fn item_view_policy_and_retention_guardrails() {
    let mut s = settings();
    s.policy.view_item = ActionRule::Authenticated;
    assert!(matches!(authorize_item_view(&s, None, None, "unlisted"), Err(WebError::Forbidden)));
    let viewer = User { id: "viewer".to_string(), role: Role::User, is_disabled: false };
    assert!(authorize_item_view(&s, Some(&viewer), None, "unlisted").is_ok());

    s.limits.expiry.allow_never = false;
    s.limits.expiry.anonymous_max_file_expiry = Some("1h".to_string());
    assert_eq!(max_expiry_input(&s, "file", false), Some("1h"));
    let now = 1_700_000_000;
    // An upload asking for two hours while anonymous files may live one hour.
    let refused = check_expiry_limits(&s, Some(now + 7200), Some(Some(now + 3600)), now).unwrap_err();
    match refused {
        WebError::BadRequest(m) => assert_eq!(m, "expiry exceeds configured maximum"),
        other => panic!("expected a bad request, got {:?}", other),
    }
    assert_eq!(check_expiry_limits(&s, Some(now + 1800), Some(Some(now + 3600)), now).unwrap(), Some(now + 1800));
}

#[test]
fn accounts_feature_disabled_hides_and_blocks_account_flows() {
    let mut s = settings();
    s.features.accounts = false;
    assert!(matches!(ensure_accounts_enabled(&s), Err(WebError::Forbidden)));
    assert!(matches!(ensure_local_accounts_enabled(&s), Err(WebError::Forbidden)));
}

#[test]
fn api_feature_disabled_hides_docs_and_account_tokens() {
    let mut s = settings();
    s.features.api = false;
    assert!(matches!(ensure_api_enabled(s.features.api), Err(WebError::Forbidden)));
    s.features.api = true;
    assert!(ensure_api_enabled(s.features.api).is_ok());
}

#[test]
fn reports_feature_disabled_hides_and_blocks_moderation_queue() {
    let mut s = settings();
    s.features.reports = false;
    assert!(matches!(ensure_reports_enabled(&s), Err(WebError::NotFound)));
}

#[test]
fn signed_internal_urls_and_cache_headers_are_served_when_enabled() {
    let mut s = settings();
    s.delivery.public_cache_seconds = 42;
    s.delivery.static_cache_seconds = 84;
    s.delivery.signed_internal_urls = true;
    s.delivery.internal_url_secret = Some("test-secret".to_string());
    s.delivery.internal_url_ttl_seconds = 60;
    let now = 1_700_000_000;
    let internal = signed_internal_raw_url(&s.delivery, "http://127.0.0.1:3000/", "file-1", now).unwrap();
    let (path, query) = internal.split_once('?').unwrap();
    assert_eq!(path, "http://127.0.0.1:3000/internal/files/file-1/raw");
    let (expires, signature) = query.strip_prefix("expires=").unwrap().split_once("&signature=").unwrap();
    let expires: i64 = expires.parse().unwrap();
    assert_eq!(expires, now + 60);
    assert!(verify_internal_file_request(&s.delivery, "file-1", expires, signature, now + 30).is_ok());
    assert_eq!(cache_control_value(s.delivery.public_cache_seconds, CacheScope::Public), "public, max-age=42");
    assert_eq!(cache_control_value(s.delivery.static_cache_seconds, CacheScope::Public), "public, max-age=84");
}

#[test]
fn operational_controls_cover_upload_mime_metrics_and_rate_limits() {
    let mut s = settings();
    s.metrics.enabled = true;
    s.metrics.access = MetricsAccessMode::Admin;
    s.security.content_policy.forced_attachment_mime_types = vec!["text/plain".to_string()];
    s.security.rate_limit_backend = RateLimitBackend::Database;
    assert!(matches!(metrics_access(&s, false, None, None), Err(WebError::Forbidden)));
    assert!(metrics_access(&s, true, None, None).is_ok());
    let plan = file_response_plan(
        &s.security,
        &s.delivery,
        Some("text/plain"),
        11,
        Some("download.txt"),
        "dl1",
        "unlisted",
        false,
        None,
    );
    assert!(plan.content_disposition.starts_with("attachment"));
}

#[test]
fn file_delivery_handles_range_requests() {
    let s = file_delivery_settings();
    let body = b"0123456789abcdef";
    let serve = |range: Option<&str>| {
        file_response_plan(
            &s.security,
            &s.delivery,
            Some("video/mp4"),
            body.len() as i64,
            Some("video.mp4"),
            "rangetest",
            "unlisted",
            true,
            range,
        )
    };
    let slice = |offset: u64, len: u64| -> &[u8] { &body[offset as usize..(offset + len) as usize] };

    let full = serve(None);
    assert_eq!(full.status, 200);
    assert_eq!(full.accept_ranges, "bytes");
    assert_eq!(full.content_length, 16);
    assert_eq!(slice(full.body_offset, full.content_length), b"0123456789abcdef");

    let head = serve(Some("bytes=0-4"));
    assert_eq!(head.status, 206);
    assert_eq!(head.accept_ranges, "bytes");
    assert_eq!(head.content_range.as_deref(), Some("bytes 0-4/16"));
    assert_eq!(head.content_length, 5);
    assert_eq!(slice(head.body_offset, head.content_length), b"01234");

    let tail = serve(Some("bytes=10-"));
    assert_eq!(tail.status, 206);
    assert_eq!(tail.content_range.as_deref(), Some("bytes 10-15/16"));
    assert_eq!(tail.content_length, 6);
    assert_eq!(slice(tail.body_offset, tail.content_length), b"abcdef");

    let outside = serve(Some("bytes=20-30"));
    assert_eq!(outside.status, 416);
    assert_eq!(outside.content_range.as_deref(), Some("bytes */16"));
}

#[test]
fn range_headers_are_read_as_single_byte_ranges() {
    let s = file_delivery_settings();
    let plan = |range: &str| {
        file_response_plan(&s.security, &s.delivery, None, 16, None, "r", "unlisted", true, Some(range))
    };
    let suffix = plan("bytes=-4");
    assert_eq!((suffix.status, suffix.body_offset, suffix.content_length), (206, 12, 4));
    let long = plan("bytes=3-99");
    assert_eq!(long.content_range.as_deref(), Some("bytes 3-15/16"));
    assert_eq!(plan("bytes=0-1,4-5").status, 200);
    assert_eq!(plan("items=0-4").status, 200);
    assert_eq!(plan("bytes=5-2").status, 200);
    assert_eq!(plan("bytes=-0").status, 416);
}

#[test]
fn invite_only_registration_with_invalid_token_does_not_create_user() {
    let mut s = settings();
    s.policy.signup = SignupMode::InviteOnly;
    let token = signup_invite_token(s.policy.signup, Some("bad-token")).unwrap();
    assert_eq!(token, Some("bad-token"));
    // No unused invitation carries that token, so no account is created.
    match signup_account(s.policy.signup, None, true) {
        Err(WebError::BadRequest(m)) => assert_eq!(m, "invalid invite token"),
        other => panic!("expected a bad request, got {:?}", other),
    }
    assert_eq!(signup_account(s.policy.signup, Some(Role::Moderator), true).unwrap(), (Role::Moderator, false));
    s.policy.signup = SignupMode::Open;
    assert_eq!(signup_account(s.policy.signup, None, true).unwrap(), (Role::User, true));
    s.policy.signup = SignupMode::Disabled;
    assert!(matches!(signup_account(s.policy.signup, None, true), Err(WebError::Forbidden)));
}
