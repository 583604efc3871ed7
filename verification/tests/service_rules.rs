use midden::api::{
    api_paste_item, check_report_kind, report_query, report_table_query, report_window_start,
    ApiErrorDetail, ApiErrorResponse,
};
use midden::browse::{ensure_public_browse, next_cursor, page_limit, search_query};
use midden::form_fields::{
    apply_rate_limit_form, lines, parse_action_rule, parse_delete_policy, parse_metrics_access,
    parse_optional_i64, parse_optional_u8, parse_rate_limit_backend, parse_required_i64,
    parse_scan_decision, parse_signup_mode, parse_u16_lines, quota_is_empty,
};
use midden::homepage::{homepage_blocks_for_form, parse_homepage_blocks};
use midden::imagestrip::{jpeg_marker_step, jpeg_segment_length, png_chunk_step, JpegMarkerStep};
use midden::model::{ActionRule, Paste, Role, WebError};
use midden::net::{
    check_resolved_addresses, client_ip_for_access_check, host_matches, rate_limit_identity, IpValue,
};
use midden::numbers::{i64_to_text, parse_i64, parse_u8, u64_to_text, IntErrorKind};
use midden::oidc::{
    callback_code, check_link_target, claim_values, enabled, is_link_purpose, issuer, mapped_role,
    redirect_url, resolve_login, role_update_needed, userinfo_identity, username,
    username_attempt, username_candidate, validate_userinfo, ClaimValue, LoginResolution,
    OidcConfig, UserInfo,
};
use midden::pastes::{check_paste_size, new_paste_title, render_paste_content};
use midden::samples::{admin_settings_form_body, hex_fixture};
use midden::settings::{
    BrandingConfig, ContentDispositionMode, ContentPolicy, DeletePolicy, DeliveryConfig,
    DiscoveryConfig, ExpiryConfig, FeatureConfig, HomepageBlock, JobsConfig, Keyed, LimitsConfig,
    MetricsAccessMode, MetricsConfig, ModerationConfig, PolicyConfig, ProcessingConfig, QuotaConfig,
    RateLimitBackend, RiskyMimeMode, RuntimeSettings, ScanDecision, ScanningConfig, SecurityConfig,
    SignupMode, TokensConfig, UploadsConfig, UrlUploadConfig,
};
use midden::system::{
    bearer_token, builtin_asset_content_type, check_static_path, metrics_access, readyz, robots_txt,
};
use midden::tus::{check_tus_length, tus_options, tus_patch};

fn quota() -> QuotaConfig {
    QuotaConfig {
        storage_bytes: None,
        daily_upload_bytes: None,
        monthly_upload_bytes: None,
        item_count: None,
    }
}

fn settings() -> RuntimeSettings {
    RuntimeSettings {
        features: FeatureConfig {
            files: true,
            pastes: true,
            accounts: true,
            api: true,
            reports: true,
            upload_by_url: true,
            preview_pages: true,
            public_browse: false,
            oidc_login: false,
            local_login: true,
            paste_content_search: false,
            paste_editing: true,
        },
        limits: LimitsConfig {
            max_upload_bytes: 1024,
            max_paste_bytes: 64,
            max_tus_upload_bytes: 4096,
            default_file_expiry: None,
            default_paste_expiry: None,
            anonymous_quota: quota(),
            role_quotas: Keyed { entries: Vec::new() },
            expiry: ExpiryConfig {
                allow_never: true,
                anonymous_max_file_expiry: None,
                user_max_file_expiry: None,
                anonymous_max_paste_expiry: None,
                user_max_paste_expiry: None,
                allowed_presets: Vec::new(),
            },
        },
        policy: PolicyConfig {
            signup: SignupMode::Open,
            upload_file: ActionRule::Anonymous,
            create_paste: ActionRule::Anonymous,
            use_api: ActionRule::Anonymous,
            view_item: ActionRule::Anonymous,
            delete_own_item: ActionRule::Authenticated,
            delete_policy: DeletePolicy::DeleteTokens,
            claim_anonymous_item: ActionRule::Authenticated,
            create_account: ActionRule::Anonymous,
        },
        security: SecurityConfig {
            secure_cookies: false,
            content_disposition: ContentDispositionMode::Attachment,
            reject_mime_mismatch: true,
            rate_limit_backend: RateLimitBackend::Memory,
            content_policy: ContentPolicy {
                allowed_mime_types: Vec::new(),
                forced_attachment_mime_types: Vec::new(),
                risky_mime_mode: RiskyMimeMode::Attachment,
                max_filename_bytes: 16,
            },
            url_upload: UrlUploadConfig {
                block_private_ips: true,
                max_redirects: 3,
                connect_timeout_seconds: 5,
                request_timeout_seconds: 30,
                max_response_bytes: None,
                allowed_ports: Vec::new(),
                blocked_ports: Vec::new(),
                user_agent: None,
                allowed_hosts: Vec::new(),
                blocked_hosts: Vec::new(),
            },
            rate_limits: Keyed { entries: Vec::new() },
        },
        delivery: DeliveryConfig {
            public_cache_seconds: 0,
            static_cache_seconds: 3600,
            public_file_base_url: None,
            isolated_file_origin: false,
            signed_internal_urls: false,
            internal_url_secret: None,
            internal_url_ttl_seconds: 60,
        },
        branding: BrandingConfig {
            instance_name: "Midden".to_string(),
            tagline: String::new(),
            logo_url: None,
            favicon_url: None,
            accent_color: "#4f46e5".to_string(),
            dark_mode: "auto".to_string(),
            opengraph_description: String::new(),
            opengraph_files: false,
            opengraph_pastes: false,
            takedown_page_text: String::new(),
            homepage_blocks: Vec::new(),
            abuse_email: None,
            contact_url: None,
        },
        scanning: ScanningConfig {
            enabled: false,
            blocked_hashes: vec!["ABCDEF".to_string()],
            blocked_mime_types: vec!["application/x-msdownload".to_string()],
            default_on_error: ScanDecision::Allow,
            adapters: Vec::new(),
        },
        processing: ProcessingConfig {
            metadata_extraction: true,
            metadata_stripping: true,
            thumbnails: false,
            thumbnail_max_dimension: 256,
            thumbnail_jpeg_quality: 80,
        },
        discovery: DiscoveryConfig {
            robots_index: false,
            page_size: 20,
        },
        jobs: JobsConfig {
            enabled: false,
            interval_seconds: 60,
            metadata_limit: 10,
            scanner_retry_limit: 3,
            storage_verify_interval_seconds: 3600,
        },
        uploads: UploadsConfig { temp_dir: None },
        metrics: MetricsConfig {
            enabled: true,
            access: MetricsAccessMode::Public,
            bearer_token: None,
        },
        tokens: TokensConfig {
            default_ttl_seconds: None,
            max_ttl_seconds: None,
        },
        moderation: ModerationConfig {
            notify_webhook_url: None,
            notify_webhook_secret: None,
        },
    }
}

fn message(e: WebError) -> String {
    match e {
        WebError::BadRequest(m) => m,
        other => panic!("expected a bad request, got {:?}", other),
    }
}

fn oidc() -> OidcConfig {
    OidcConfig {
        enabled: true,
        issuer_url: Some("https://id.example.test/".to_string()),
        client_id: Some("midden-test".to_string()),
        client_secret: None,
        redirect_url: None,
        allowed_domains: vec!["example.test".to_string()],
        allowed_groups: vec!["admins".to_string()],
        groups_claim: None,
        role_claim: None,
        role_mappings: vec![("admins".to_string(), "admin".to_string())],
    }
}

fn info(groups: ClaimValue) -> UserInfo {
    UserInfo {
        sub: Some("subject-1".to_string()),
        email: Some("oidc@example.test".to_string()),
        preferred_username: Some("oidc-user".to_string()),
        name: None,
        extra: vec![("groups".to_string(), groups)],
    }
}

#[test]
fn error_schema_matches_serialized_api_error() {
    let body = ApiErrorResponse::new(401);
    assert_eq!(body.error.status, 401);
    assert_eq!(body.error.code, "unauthorized");
    assert_eq!(body.error.message, "Unauthorized");
    let other = ApiErrorResponse::new(413);
    assert_eq!(other.error.code, "payload_too_large");
    let unknown = ApiErrorResponse::new(599);
    assert_eq!(unknown.error.message, "error");
    assert_eq!(unknown.error.code, "error");
    // The body holds `error` and nothing else, and the error exactly these
    // three keys: the patterns name every field.
    let ApiErrorResponse { error } = body;
    let ApiErrorDetail { status, code, message } = error;
    assert_eq!((status, code.as_str(), message.as_str()), (401, "unauthorized", "Unauthorized"));
}

#[test]
fn api_paste_items_link_under_the_base_url() {
    let paste = Paste {
        public_id: "p1".to_string(),
        owner_user_id: None,
        delete_token_hash: None,
        title: Some("t".to_string()),
        syntax: Some("rust".to_string()),
        content: "héllo".to_string(),
        visibility: "public".to_string(),
        expires_at: Some(99),
        state: "active".to_string(),
        created_at: 7,
    };
    let item = api_paste_item("https://example.com/", &paste);
    assert_eq!(item.url, "https://example.com/p/p1");
    assert_eq!(item.raw_url, "https://example.com/p/p1/raw");
    assert_eq!(item.size_bytes, 6);
    assert_eq!(item.created_at, 7);
    assert_eq!(item.expires_at, Some(99));
}

#[test]
fn reports_name_files_or_pastes() {
    assert!(check_report_kind("file").is_ok());
    assert!(check_report_kind("paste").is_ok());
    assert_eq!(message(check_report_kind("user").unwrap_err()), "kind must be file or paste");
    assert_eq!(report_window_start(Some(2), 1_000_000), Some(1_000_000 - 2 * 86400));
    assert_eq!(report_window_start(Some(0), 5), None);
    assert_eq!(report_window_start(None, 5), None);
}

#[test]
fn report_listing_drops_empty_filters() {
    let q = report_query(Some(""), Some("file"), Some("  "), Some(1), 100_000);
    assert_eq!(q.state, None);
    assert_eq!(q.kind, Some("file"));
    assert_eq!(q.reason, None);
    assert_eq!(q.created_after, Some(100_000 - 86400));
    let q = report_query(Some(" open"), None, Some(" spam "), Some(-3), 5);
    assert_eq!(q.state, Some(" open"));
    assert_eq!(q.reason, Some(" spam "));
    assert_eq!(q.created_after, None);
}

#[test]
fn report_table_trims_its_filters() {
    let q = report_table_query(Some(" open "), Some("   "), Some(" spam"), None, 5);
    assert_eq!(q.state.as_deref(), Some("open"));
    assert_eq!(q.kind, None);
    assert_eq!(q.reason.as_deref(), Some("spam"));
    assert_eq!(q.created_after, None);
}

#[test]
fn browsing_pages_are_bounded() {
    let mut s = settings();
    assert!(matches!(ensure_public_browse(&s), Err(WebError::NotFound)));
    s.features.public_browse = true;
    assert!(ensure_public_browse(&s).is_ok());
    assert_eq!(page_limit(&s), 20);
    s.discovery.page_size = 0;
    assert_eq!(page_limit(&s), 1);
    s.discovery.page_size = 5000;
    assert_eq!(page_limit(&s), 100);
    assert_eq!(search_query(Some("  ")), None);
    assert_eq!(search_query(Some(" cat ")), Some(" cat "));
    assert_eq!(next_cursor(&vec![30, 10], &vec![20]), Some(10));
    assert_eq!(next_cursor(&vec![], &vec![]), None);
}

#[test]
fn oidc_sign_in_is_configured_and_checked() {
    let s = settings();
    let mut features = s.features;
    assert!(!enabled(&features, &oidc()));
    features.oidc_login = true;
    assert!(enabled(&features, &oidc()));
    assert_eq!(issuer(&oidc()).unwrap(), "https://id.example.test");
    let mut none = oidc();
    none.issuer_url = None;
    assert_eq!(message(issuer(&none).unwrap_err()), "OIDC issuer_url is missing");
    assert_eq!(
        redirect_url(&oidc(), "https://example.com/"),
        "https://example.com/auth/oidc/callback"
    );
}

#[test]
fn oidc_callback_provisions_with_allowed_claims_and_role_mapping() {
    let userinfo = info(ClaimValue::List(vec![Some("admins".to_string()), None]));
    assert_eq!(claim_values(&userinfo, "groups"), vec!["admins".to_string()]);
    assert!(validate_userinfo(&oidc(), &userinfo, "oidc@example.test").is_ok());
    assert_eq!(mapped_role(&oidc(), &userinfo).unwrap(), Role::Admin);
    let (email, subject) = userinfo_identity(&userinfo).unwrap();
    assert_eq!(email, "oidc@example.test");
    assert_eq!(subject, "subject-1");
    assert_eq!(resolve_login(false, None).unwrap(), LoginResolution::Provision);
    assert_eq!(username(&userinfo, &email), "oidc-user");
}

#[test]
fn oidc_callback_requires_explicit_link_for_existing_local_user() {
    assert_eq!(
        message(resolve_login(false, Some(true)).unwrap_err()),
        "existing local accounts must link OIDC from the account page before OIDC login"
    );
    assert_eq!(resolve_login(false, Some(false)).unwrap(), LoginResolution::LinkByEmail);
    assert_eq!(resolve_login(true, Some(true)).unwrap(), LoginResolution::Linked);
}

#[test]
fn oidc_identities_outside_the_allowed_domains_or_groups_are_refused() {
    let userinfo = info(ClaimValue::Text("users  editors".to_string()));
    assert_eq!(
        claim_values(&userinfo, "groups"),
        vec!["users".to_string(), "editors".to_string()]
    );
    assert!(matches!(
        validate_userinfo(&oidc(), &userinfo, "oidc@example.test"),
        Err(WebError::Forbidden)
    ));
    let good = info(ClaimValue::Text("admins".to_string()));
    assert!(matches!(
        validate_userinfo(&oidc(), &good, "oidc@elsewhere.test"),
        Err(WebError::Forbidden)
    ));
    assert!(validate_userinfo(&oidc(), &good, "a@b@EXAMPLE.test").is_ok());
    assert_eq!(
        message(validate_userinfo(&oidc(), &good, "no-domain").unwrap_err()),
        "OIDC email did not include a domain"
    );
    let mut bad = oidc();
    bad.role_mappings = vec![("admins".to_string(), "emperor".to_string())];
    assert_eq!(
        message(mapped_role(&bad, &good).unwrap_err()),
        "invalid OIDC role mapping: emperor"
    );
    let other = info(ClaimValue::Other);
    assert!(claim_values(&other, "groups").is_empty());
    assert_eq!(mapped_role(&oidc(), &other).unwrap(), Role::User);
}

#[test]
fn oidc_callbacks_check_state_and_linking() {
    assert_eq!(
        message(callback_code(Some("access_denied"), None, None, None).unwrap_err()),
        "OIDC provider returned access_denied"
    );
    assert_eq!(
        message(callback_code(None, None, Some("s"), Some("c")).unwrap_err()),
        "missing OIDC state cookie"
    );
    assert_eq!(
        message(callback_code(None, Some("s"), Some("t"), Some("c")).unwrap_err()),
        "OIDC state mismatch"
    );
    assert_eq!(
        message(callback_code(None, Some("s"), Some("s"), None).unwrap_err()),
        "missing OIDC code"
    );
    assert_eq!(callback_code(None, Some("s"), Some("s"), Some("abc")).unwrap(), "abc");
    assert!(is_link_purpose(Some("link")));
    assert!(!is_link_purpose(Some("login")));
    assert!(!is_link_purpose(None));
    assert!(check_link_target(Some("u1"), "u1").is_ok());
    assert!(check_link_target(None, "u1").is_ok());
    assert_eq!(
        message(check_link_target(Some("u2"), "u1").unwrap_err()),
        "that OIDC identity is already linked to another account"
    );
}

#[test]
fn oidc_usernames_are_sanitized_and_roles_never_demote_owners() {
    assert_eq!(username_candidate("Jane Doe!", "jd@example.test"), "JaneDoe");
    assert_eq!(username_candidate("!!!", "j.d+x@example.test"), "jdx");
    assert_eq!(username_attempt("jane", 0), "jane");
    assert_eq!(username_attempt("jane", 3), "jane-3");
    assert!(role_update_needed(Role::User, Role::Admin));
    assert!(!role_update_needed(Role::Owner, Role::Admin));
    assert!(!role_update_needed(Role::Admin, Role::Admin));
    assert!(role_update_needed(Role::Admin, Role::Owner));
}

#[test]
fn tus_sessions_take_chunks_in_order() {
    let s = settings();
    let headers = tus_options(&s);
    assert_eq!(headers.len(), 4);
    assert_eq!(headers[3].0, "Tus-Max-Size");
    assert_eq!(headers[3].1, "4096");
    assert!(check_tus_length(&s, 4096).is_ok());
    assert!(matches!(check_tus_length(&s, 4097), Err(WebError::PayloadTooLarge)));

    let p = tus_patch("open", 0, 10, 0, 4).unwrap();
    assert_eq!(p.next_offset, 4);
    assert!(!p.complete);
    let q = tus_patch("open", 4, 10, 4, 6).unwrap();
    assert!(q.complete);
    assert_eq!(message(tus_patch("open", 4, 10, 3, 1).unwrap_err()), "upload offset mismatch");
    assert_eq!(message(tus_patch("done", 4, 10, 4, 1).unwrap_err()), "upload is not open");
    assert!(matches!(tus_patch("open", 4, 10, 4, 7), Err(WebError::PayloadTooLarge)));
}

#[test]
fn service_routes_answer_as_configured() {
    let mut s = settings();
    assert_eq!(robots_txt(&s), "User-agent: *\nDisallow: /\n");
    s.features.public_browse = true;
    s.discovery.robots_index = true;
    assert_eq!(robots_txt(&s), "User-agent: *\nAllow: /browse\n");
    assert_eq!(readyz(true, true), (200, "database=true\nstorage=true\n".to_string()));
    assert_eq!(readyz(true, false), (503, "database=true\nstorage=false\n".to_string()));

    assert_eq!(bearer_token(Some("Bearer abc")).as_deref(), Some("abc"));
    assert_eq!(bearer_token(Some("Basic abc")), None);
    assert!(metrics_access(&s, false, None, None).is_ok());
    s.metrics.access = MetricsAccessMode::Token;
    assert!(matches!(metrics_access(&s, true, Some("Bearer x"), None), Err(WebError::Forbidden)));
    s.metrics.bearer_token = Some("x".to_string());
    assert!(metrics_access(&s, false, Some("Bearer x"), None).is_ok());
    s.metrics.access = MetricsAccessMode::Loopback;
    assert!(metrics_access(&s, false, None, Some(IpValue::V4(127, 0, 0, 1))).is_ok());
    assert!(metrics_access(&s, false, None, Some(IpValue::V4(10, 0, 0, 1))).is_err());
    s.metrics.access = MetricsAccessMode::Admin;
    assert!(metrics_access(&s, true, None, None).is_ok());
    s.metrics.enabled = false;
    assert!(matches!(metrics_access(&s, true, None, None), Err(WebError::NotFound)));

    assert!(check_static_path("midden.css").is_ok());
    assert!(matches!(check_static_path("../secret"), Err(WebError::NotFound)));
    assert!(matches!(check_static_path("/etc/passwd"), Err(WebError::NotFound)));
    assert_eq!(builtin_asset_content_type("midden.css"), Some("text/css; charset=utf-8"));
    assert_eq!(
        builtin_asset_content_type("vendor/htmx.min.js"),
        Some("application/javascript; charset=utf-8")
    );
    assert_eq!(builtin_asset_content_type("other.js"), None);
}

#[test]
fn pastes_render_escaped_or_highlighted() {
    assert_eq!(
        render_paste_content("a < b & c", None),
        "<pre class=\"paste-body\"><code>a &lt; b &amp; c</code></pre>"
    );
    assert_eq!(
        render_paste_content("x > y", Some("  ")),
        "<pre class=\"paste-body\"><code>x &gt; y</code></pre>"
    );
    let highlighted = render_paste_content("fn main() {}", Some("rs"));
    assert!(highlighted.starts_with("<pre"));
    assert!(!highlighted.contains("paste-body"));
    let mut s = settings();
    s.limits.max_paste_bytes = 4;
    assert!(check_paste_size(&s, "abcd").is_ok());
    assert!(matches!(check_paste_size(&s, "abcde"), Err(WebError::PayloadTooLarge)));
    assert!(matches!(check_paste_size(&s, "ééé"), Err(WebError::PayloadTooLarge)));
    assert_eq!(new_paste_title(Some("  ")), None);
    assert_eq!(new_paste_title(Some(" T ")).as_deref(), Some(" T "));
}

#[test]
fn sample_inputs_are_built_exactly() {
    assert_eq!(hex_fixture("de ad\nbe\tef 0"), vec![0xde, 0xad, 0xbe, 0xef, 0x0]);
    assert_eq!(hex_fixture("+f"), vec![0x0f]);
    let body = admin_settings_form_body("tok", true, false);
    assert!(body.starts_with("feature_files=on&feature_pastes=on&"));
    assert!(body.ends_with("&csrf_token=tok&feature_oidc_login=on"));
    assert!(!body.contains("feature_local_login"));
}

#[test]
fn form_fields_parse_with_their_messages() {
    assert_eq!(parse_required_i64("max", Some(" 42 ")).unwrap(), 42);
    assert_eq!(message(parse_required_i64("max", Some(" ")).unwrap_err()), "max is required");
    assert_eq!(
        message(parse_required_i64("max", Some("4x")).unwrap_err()),
        "max: invalid digit found in string"
    );
    assert_eq!(parse_optional_i64(Some("")).unwrap(), None);
    assert_eq!(parse_optional_i64(Some("-7")).unwrap(), Some(-7));
    assert_eq!(
        message(parse_optional_u8(Some("300")).unwrap_err()),
        "invalid integer: number too large to fit in target type"
    );
    assert_eq!(lines(Some(" a \n\n b ")), vec!["a".to_string(), "b".to_string()]);
    assert_eq!(parse_u16_lines(Some("80\n443")).unwrap(), vec![80, 443]);
    assert_eq!(
        message(parse_u16_lines(Some("80\nx")).unwrap_err()),
        "invalid port x: invalid digit found in string"
    );
    assert!(quota_is_empty(&QuotaConfig {
        storage_bytes: None,
        daily_upload_bytes: None,
        monthly_upload_bytes: None,
        item_count: None
    }));
    assert_eq!(parse_rate_limit_backend("database").unwrap(), RateLimitBackend::Database);
    assert_eq!(message(parse_rate_limit_backend("x").unwrap_err()), "invalid rate limit backend");
    assert_eq!(parse_metrics_access("loopback").unwrap(), MetricsAccessMode::Loopback);
    assert_eq!(parse_signup_mode("open").unwrap(), SignupMode::Open);
    assert_eq!(parse_action_rule("owner").unwrap(), ActionRule::Owner);
    assert_eq!(parse_delete_policy("delete_tokens").unwrap(), DeletePolicy::DeleteTokens);
    assert_eq!(parse_scan_decision("quarantine").unwrap(), ScanDecision::Quarantine);
    assert_eq!(
        message(parse_scan_decision("maybe").unwrap_err()),
        "invalid scanner failure behavior"
    );
}

#[test]
fn rate_limit_rows_are_set_or_removed() {
    let mut limits = Keyed { entries: Vec::new() };
    apply_rate_limit_form(&mut limits, "upload", true, Some("5"), None).unwrap();
    let row = limits.get("upload").unwrap();
    assert_eq!(row.requests, 5);
    assert_eq!(row.window_seconds, 60);
    apply_rate_limit_form(&mut limits, "upload", false, None, None).unwrap();
    assert!(limits.get("upload").is_none());
    assert!(apply_rate_limit_form(&mut limits, "upload", true, Some("x"), None).is_err());
    apply_rate_limit_form(&mut limits, "login", true, Some("3"), Some("30")).unwrap();
    assert!(apply_rate_limit_form(&mut limits, "login", true, Some("4"), Some("soon")).is_err());
    let kept = limits.get("login").unwrap();
    assert_eq!((kept.requests, kept.window_seconds), (3, 30));
    assert_eq!(limits.entries.len(), 1);
}

#[test]
fn homepage_blocks_round_trip_through_the_form() {
    let blocks = parse_homepage_blocks(Some(" Hello | World | /about | About \nTwo|Body")).unwrap();
    assert_eq!(blocks.len(), 2);
    assert_eq!(blocks[0].title, "Hello");
    assert_eq!(blocks[0].href.as_deref(), Some("/about"));
    assert_eq!(blocks[1].link_label, None);
    let text = homepage_blocks_for_form(&blocks);
    let again = parse_homepage_blocks(Some(&text)).unwrap();
    assert_eq!(again.len(), 2);
    assert_eq!(again[0].body, "World");
    assert_eq!(again[0].link_label.as_deref(), Some("About"));
    assert_eq!(
        message(parse_homepage_blocks(Some("only a title")).unwrap_err()),
        "homepage blocks require title and body"
    );
    let _unused: Option<HomepageBlock> = None;
}

#[test]
fn numbers_parse_and_print_like_std() {
    assert_eq!(parse_i64("-9223372036854775808").unwrap(), i64::MIN);
    assert_eq!(parse_i64("+5").unwrap(), 5);
    assert_eq!(parse_i64("").unwrap_err(), IntErrorKind::Empty);
    assert_eq!(parse_u8("-1").unwrap_err(), IntErrorKind::InvalidDigit);
    assert_eq!(i64_to_text(-120), "-120");
    assert_eq!(u64_to_text(18446744073709551615), "18446744073709551615");
}

#[test]
fn hosts_and_clients_are_identified() {
    assert!(host_matches("cdn.example.com.", "example.com"));
    assert!(host_matches("example.com", " Example.COM. "));
    assert!(!host_matches("badexample.com", "example.com"));
    assert!(host_matches("a.example.com", ".example.com"));
    assert!(!host_matches("example.com", ""));
    assert_eq!(rate_limit_identity(Some("u1"), true, Some("1.2.3.4"), None), "user:u1");
    assert_eq!(rate_limit_identity(None, true, Some(" 1.2.3.4 , 5.6.7.8"), None), "ip:1.2.3.4");
    assert_eq!(rate_limit_identity(None, true, None, Some("9.9.9.9")), "ip:9.9.9.9");
    assert_eq!(rate_limit_identity(None, false, Some("1.2.3.4"), None), "anonymous");
    let peer = Some(IpValue::V4(10, 0, 0, 2));
    let header = Some(IpValue::V4(127, 0, 0, 1));
    assert_eq!(client_ip_for_access_check(true, header, peer), header);
    assert_eq!(client_ip_for_access_check(false, header, peer), peer);
    assert_eq!(
        message(check_resolved_addresses(&vec![]).unwrap_err()),
        "URL host did not resolve"
    );
    assert!(check_resolved_addresses(&vec![IpValue::V4(93, 184, 216, 34)]).is_ok());
    assert!(check_resolved_addresses(&vec![IpValue::V4(93, 184, 216, 34), IpValue::V4(10, 0, 0, 1)]).is_err());
}

#[test]
fn image_rewrite_steps_follow_the_formats() {
    let step = png_chunk_step([0, 0, 0, 4, b't', b'E', b'X', b't']);
    assert!(!step.keep);
    assert_eq!(step.body_len, 8);
    assert!(!step.last);
    let end = png_chunk_step([0, 0, 0, 0, b'I', b'E', b'N', b'D']);
    assert!(end.keep && end.last);
    assert_eq!(jpeg_marker_step(0xd9), JpegMarkerStep::Standalone { end: true });
    assert_eq!(jpeg_marker_step(0xd3), JpegMarkerStep::Standalone { end: false });
    assert_eq!(jpeg_marker_step(0xe1), JpegMarkerStep::Segment { keep: false, scan: false });
    assert_eq!(jpeg_marker_step(0xda), JpegMarkerStep::Segment { keep: true, scan: true });
    assert_eq!(jpeg_segment_length(0, 1), None);
    assert_eq!(jpeg_segment_length(1, 2), Some(258));
}

#[test]
fn joined_lines_read_back() {
    for text in [" 1h \n\n  7d\r\n30d ", "", "\n\n", "one"] {
        let once = lines(Some(text));
        assert!(once.iter().all(|l| !l.is_empty() && l.trim() == l));
        assert_eq!(lines(Some(&once.join("\n"))), once);
    }
    assert!(lines(None).is_empty());
}
