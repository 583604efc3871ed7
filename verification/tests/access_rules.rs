use midden::access::{
    anonymous_delete_token, api_role_user, authorize_file_delete, authorize_item_view,
    authorize_paste_delete, authorize_tus_session_user, can_edit_paste,
    ensure_accounts_enabled, ensure_local_accounts_enabled, ensure_owner_account_mutation_allowed,
    htmx_request, normalize_syntax, owner_count_needed, parse_scopes, requested_scopes_allowed,
    requested_visibility, role_requires_owner_actor, validate_csrf,
};
use midden::api::api_file_item;
use midden::crypto::{constant_time_eq, hash_token, to_hex_lower};
use midden::delivery::{
    app_base_url, cache_control_value, configured_file_host, file_base_url, file_url,
    file_disposition_kind, file_response_plan, is_isolated_file_host, is_risky_mime,
    raw_file_url, request_host, sign_internal_file_url, signed_internal_raw_url,
    thumbnail_file_url, CacheScope,
};
use midden::model::{ActionRule, FileItem, Paste, Role, User, WebError};
use midden::settings::{
    BrandingConfig, ContentDispositionMode, ContentPolicy, DeletePolicy, DeliveryConfig,
    DiscoveryConfig, ExpiryConfig, FeatureConfig, JobsConfig, Keyed, LimitsConfig, MetricsAccessMode,
    MetricsConfig, ModerationConfig, PolicyConfig, ProcessingConfig, QuotaConfig, RateLimitBackend,
    RiskyMimeMode, RuntimeSettings, ScanDecision, ScanningConfig, SecurityConfig, SignupMode,
    TokensConfig, UploadsConfig, UrlUploadConfig,
};

fn quota() -> QuotaConfig {
    QuotaConfig {
        storage_bytes: None,
        daily_upload_bytes: None,
        monthly_upload_bytes: None,
        item_count: None,
    }
}

fn settings() -> RuntimeSettings {
    RuntimeSettings {
        features: FeatureConfig {
            files: true,
            pastes: true,
            accounts: true,
            api: true,
            reports: true,
            upload_by_url: true,
            preview_pages: true,
            public_browse: false,
            oidc_login: false,
            local_login: true,
            paste_content_search: false,
            paste_editing: true,
        },
        limits: LimitsConfig {
            max_upload_bytes: 1024,
            max_paste_bytes: 64,
            max_tus_upload_bytes: 4096,
            default_file_expiry: None,
            default_paste_expiry: None,
            anonymous_quota: quota(),
            role_quotas: Keyed { entries: Vec::new() },
            expiry: ExpiryConfig {
                allow_never: true,
                anonymous_max_file_expiry: None,
                user_max_file_expiry: None,
                anonymous_max_paste_expiry: None,
                user_max_paste_expiry: None,
                allowed_presets: Vec::new(),
            },
        },
        policy: PolicyConfig {
            signup: SignupMode::Open,
            upload_file: ActionRule::Anonymous,
            create_paste: ActionRule::Anonymous,
            use_api: ActionRule::Anonymous,
            view_item: ActionRule::Anonymous,
            delete_own_item: ActionRule::Authenticated,
            delete_policy: DeletePolicy::DeleteTokens,
            claim_anonymous_item: ActionRule::Authenticated,
            create_account: ActionRule::Anonymous,
        },
        security: SecurityConfig {
            secure_cookies: false,
            content_disposition: ContentDispositionMode::Attachment,
            reject_mime_mismatch: true,
            rate_limit_backend: RateLimitBackend::Memory,
            content_policy: ContentPolicy {
                allowed_mime_types: Vec::new(),
                forced_attachment_mime_types: Vec::new(),
                risky_mime_mode: RiskyMimeMode::Attachment,
                max_filename_bytes: 16,
            },
            url_upload: UrlUploadConfig {
                block_private_ips: true,
                max_redirects: 3,
                connect_timeout_seconds: 5,
                request_timeout_seconds: 30,
                max_response_bytes: None,
                allowed_ports: Vec::new(),
                blocked_ports: Vec::new(),
                user_agent: None,
                allowed_hosts: Vec::new(),
                blocked_hosts: Vec::new(),
            },
            rate_limits: Keyed { entries: Vec::new() },
        },
        delivery: DeliveryConfig {
            public_cache_seconds: 0,
            static_cache_seconds: 3600,
            public_file_base_url: None,
            isolated_file_origin: false,
            signed_internal_urls: false,
            internal_url_secret: None,
            internal_url_ttl_seconds: 60,
        },
        branding: BrandingConfig {
            instance_name: "Midden".to_string(),
            tagline: String::new(),
            logo_url: None,
            favicon_url: None,
            accent_color: "#4f46e5".to_string(),
            dark_mode: "auto".to_string(),
            opengraph_description: String::new(),
            opengraph_files: false,
            opengraph_pastes: false,
            takedown_page_text: String::new(),
            homepage_blocks: Vec::new(),
            abuse_email: None,
            contact_url: None,
        },
        scanning: ScanningConfig {
            enabled: false,
            blocked_hashes: vec!["ABCDEF".to_string()],
            blocked_mime_types: vec!["application/x-msdownload".to_string()],
            default_on_error: ScanDecision::Allow,
            adapters: Vec::new(),
        },
        processing: ProcessingConfig {
            metadata_extraction: true,
            metadata_stripping: true,
            thumbnails: false,
            thumbnail_max_dimension: 256,
            thumbnail_jpeg_quality: 80,
        },
        discovery: DiscoveryConfig {
            robots_index: false,
            page_size: 20,
        },
        jobs: JobsConfig {
            enabled: false,
            interval_seconds: 60,
            metadata_limit: 10,
            scanner_retry_limit: 3,
            storage_verify_interval_seconds: 3600,
        },
        uploads: UploadsConfig { temp_dir: None },
        metrics: MetricsConfig {
            enabled: true,
            access: MetricsAccessMode::Public,
            bearer_token: None,
        },
        tokens: TokensConfig {
            default_ttl_seconds: None,
            max_ttl_seconds: None,
        },
        moderation: ModerationConfig {
            notify_webhook_url: None,
            notify_webhook_secret: None,
        },
    }
}

fn user(id: &str, role: Role) -> User {
    User {
        id: id.to_string(),
        role,
        is_disabled: false,
    }
}

fn message(e: WebError) -> String {
    match e {
        WebError::BadRequest(m) => m,
        other => panic!("expected a bad request, got {:?}", other),
    }
}

fn file(owner: Option<&str>, token_hash: Option<String>) -> FileItem {
    FileItem {
        public_id: "abc".to_string(),
        owner_user_id: owner.map(str::to_string),
        delete_token_hash: token_hash,
        visibility: "unlisted".to_string(),
        original_filename: Some("notes.txt".to_string()),
        content_type: Some("text/plain".to_string()),
        size_bytes: 12,
        image_width: None,
        image_height: None,
        metadata_json: None,
        thumbnail_hash: None,
        expires_at: None,
        state: "active".to_string(),
        created_at: 1_700_000_000,
    }
}

fn paste(owner: Option<&str>, token_hash: Option<String>) -> Paste {
    Paste {
        public_id: "p1".to_string(),
        owner_user_id: owner.map(str::to_string),
        delete_token_hash: token_hash,
        title: Some("t".to_string()),
        syntax: None,
        content: "héllo".to_string(),
        visibility: "public".to_string(),
        expires_at: Some(99),
        state: "active".to_string(),
        created_at: 7,
    }
}

#[test]
fn only_owners_hand_out_the_owner_role() {
    let owner = user("o", Role::Owner);
    let admin = user("a", Role::Admin);
    assert!(role_requires_owner_actor(Role::Owner, Some(&admin)));
    assert!(role_requires_owner_actor(Role::Owner, None));
    assert!(!role_requires_owner_actor(Role::Owner, Some(&owner)));
    assert!(!role_requires_owner_actor(Role::Admin, Some(&admin)));
}

#[test]
fn the_last_enabled_owner_stays() {
    let owner = user("o", Role::Owner);
    let admin = user("a", Role::Admin);
    let target = user("t", Role::Owner);
    assert!(matches!(
        ensure_owner_account_mutation_allowed(Some(&admin), &target, None, true, 2),
        Err(WebError::Forbidden)
    ));
    assert!(owner_count_needed(Some(&owner), &target, Some(Role::Admin), false));
    assert_eq!(
        message(
            ensure_owner_account_mutation_allowed(Some(&owner), &target, Some(Role::Admin), false, 1)
                .unwrap_err()
        ),
        "cannot remove the last enabled owner"
    );
    assert!(ensure_owner_account_mutation_allowed(Some(&owner), &target, None, true, 2).is_ok());
    assert!(ensure_owner_account_mutation_allowed(Some(&owner), &target, Some(Role::Owner), false, 1).is_ok());
    assert!(ensure_owner_account_mutation_allowed(None, &admin, None, true, 0).is_ok());
}

#[test]
fn delete_tokens_are_issued_and_checked_by_policy() {
    let mut s = settings();
    let token = anonymous_delete_token(&s, None, "secret".to_string());
    assert_eq!(token.as_deref(), Some("secret"));
    assert!(anonymous_delete_token(&s, Some(&user("u", Role::User)), "x".to_string()).is_none());

    let hashed = hash_token("secret");
    let f = file(None, Some(hashed.clone()));
    assert!(authorize_file_delete(&s, None, &f, Some("secret")).is_ok());
    assert!(matches!(authorize_file_delete(&s, None, &f, Some("wrong")), Err(WebError::Forbidden)));
    assert!(matches!(authorize_file_delete(&s, None, &f, None), Err(WebError::Forbidden)));

    s.policy.delete_policy = DeletePolicy::NoAnonymousDelete;
    assert!(anonymous_delete_token(&s, None, "secret".to_string()).is_none());
    assert!(authorize_file_delete(&s, None, &f, Some("secret")).is_err());
}

#[test]
fn owners_and_admins_delete_items() {
    let s = settings();
    let owner = user("u1", Role::User);
    let other = user("u2", Role::User);
    let admin = user("a", Role::Admin);
    let p = paste(Some("u1"), None);
    assert!(authorize_paste_delete(&s, Some(&owner), &p, None).is_ok());
    assert!(authorize_paste_delete(&s, Some(&other), &p, None).is_err());
    assert!(authorize_paste_delete(&s, Some(&admin), &p, None).is_ok());
    let mut off = settings();
    off.policy.delete_own_item = ActionRule::Disabled;
    assert!(authorize_paste_delete(&off, Some(&owner), &p, None).is_err());
}

#[test]
fn paste_editing_needs_the_feature_and_ownership() {
    let mut s = settings();
    let p = paste(Some("u1"), None);
    assert!(can_edit_paste(&s, Some(&user("u1", Role::User)), &p));
    assert!(!can_edit_paste(&s, Some(&user("u2", Role::User)), &p));
    assert!(can_edit_paste(&s, Some(&user("u2", Role::Admin)), &p));
    assert!(!can_edit_paste(&s, None, &p));
    s.features.paste_editing = false;
    assert!(!can_edit_paste(&s, Some(&user("u1", Role::User)), &p));
}

#[test]
fn private_items_show_to_their_owner_only() {
    let mut s = settings();
    assert!(authorize_item_view(&s, Some(&user("u1", Role::User)), Some("u1"), "private").is_ok());
    assert!(matches!(
        authorize_item_view(&s, Some(&user("u2", Role::User)), Some("u1"), "private"),
        Err(WebError::Forbidden)
    ));
    assert!(authorize_item_view(&s, None, Some("u1"), "private").is_err());
    assert!(authorize_item_view(&s, Some(&user("m", Role::Admin)), Some("u1"), "private").is_ok());
    assert!(authorize_item_view(&s, None, None, "public").is_ok());
    s.policy.view_item = ActionRule::Authenticated;
    assert!(authorize_item_view(&s, None, None, "public").is_err());
}

#[test]
fn upload_sessions_continue_for_their_owner() {
    assert!(authorize_tus_session_user(None, None).is_ok());
    assert!(authorize_tus_session_user(None, Some("u1")).is_err());
    assert!(authorize_tus_session_user(Some(&user("u1", Role::User)), Some("u1")).is_ok());
    assert!(authorize_tus_session_user(Some(&user("u2", Role::User)), Some("u1")).is_err());
    assert!(authorize_tus_session_user(Some(&user("u2", Role::Admin)), Some("u1")).is_ok());
}

#[test]
fn token_scopes_never_exceed_the_callers() {
    let caller = vec!["files:read".to_string(), "files:write".to_string()];
    assert!(requested_scopes_allowed(&caller, &["files:read".to_string()]));
    assert!(!requested_scopes_allowed(&caller, &["tokens:write".to_string()]));
    assert!(!requested_scopes_allowed(&caller, &["*".to_string()]));
    assert!(requested_scopes_allowed(&caller, &[]));
    assert!(requested_scopes_allowed(&["*".to_string()], &["*".to_string(), "x".to_string()]));
    assert_eq!(
        parse_scopes(" files:read, ,files:write "),
        vec!["files:read".to_string(), "files:write".to_string()]
    );
}

#[test]
fn account_features_gate_account_pages() {
    let mut s = settings();
    assert!(ensure_accounts_enabled(&s).is_ok());
    assert!(ensure_local_accounts_enabled(&s).is_ok());
    s.features.local_login = false;
    assert!(matches!(ensure_local_accounts_enabled(&s), Err(WebError::Forbidden)));
    s.features.accounts = false;
    assert!(matches!(ensure_accounts_enabled(&s), Err(WebError::Forbidden)));
}

#[test]
fn csrf_tokens_must_match_the_cookie() {
    assert_eq!(message(validate_csrf(None, Some("a")).unwrap_err()), "missing CSRF cookie");
    assert_eq!(message(validate_csrf(Some("a"), None).unwrap_err()), "missing CSRF token");
    assert_eq!(message(validate_csrf(Some("a"), Some("  ")).unwrap_err()), "missing CSRF token");
    assert!(validate_csrf(Some("abc"), Some(" abc ")).is_ok());
    assert!(matches!(validate_csrf(Some("abc"), Some("abd")), Err(WebError::Forbidden)));
}

#[test]
fn visibility_requests_are_checked() {
    let mut s = settings();
    assert_eq!(requested_visibility(&s, None).unwrap(), "unlisted");
    assert_eq!(requested_visibility(&s, Some("  ")).unwrap(), "unlisted");
    assert_eq!(requested_visibility(&s, Some(" private ")).unwrap(), "private");
    assert_eq!(
        message(requested_visibility(&s, Some("public")).unwrap_err()),
        "public visibility requires public browse to be enabled"
    );
    assert_eq!(message(requested_visibility(&s, Some("secret")).unwrap_err()), "invalid visibility");
    s.features.public_browse = true;
    assert_eq!(requested_visibility(&s, Some("public")).unwrap(), "public");
}

#[test]
fn syntax_names_are_normalized() {
    assert_eq!(normalize_syntax(Some(" JS ")).as_deref(), Some("javascript"));
    assert_eq!(normalize_syntax(Some("yml")).as_deref(), Some("yaml"));
    assert_eq!(normalize_syntax(Some("Haskell")).as_deref(), Some("haskell"));
    assert_eq!(normalize_syntax(Some("  ")), None);
    assert_eq!(normalize_syntax(None), None);
    for raw in [" JS ", "Shell", "md", " Haskell", "text"] {
        let once = normalize_syntax(Some(raw));
        assert_eq!(normalize_syntax(once.as_deref()), once);
    }
}

#[test]
fn htmx_requests_are_recognized() {
    assert!(htmx_request(Some("TRUE")));
    assert!(!htmx_request(Some("yes")));
    assert!(!htmx_request(None));
}

#[test]
fn admin_api_routes_need_the_role() {
    assert!(matches!(api_role_user(None, Role::Moderator), Err(WebError::Unauthorized)));
    assert!(matches!(
        api_role_user(Some(user("u", Role::User)), Role::Moderator),
        Err(WebError::Forbidden)
    ));
    assert_eq!(api_role_user(Some(user("m", Role::Admin)), Role::Moderator).unwrap().id, "m");
}

#[test]
fn tokens_hash_to_hex_sha256_and_compare_fully() {
    assert_eq!(
        hash_token("abc"),
        "ba7816bf8f01cfea414140de5dae2223b00361a396177a9cb410ff61f20015ad"
    );
    assert_eq!(to_hex_lower(&[0x00, 0xab, 0x7f]), "00ab7f");
    assert!(constant_time_eq(b"abc", b"abc"));
    assert!(!constant_time_eq(b"abc", b"abd"));
    assert!(!constant_time_eq(b"abc", b"abcd"));
    assert!(constant_time_eq(b"", b""));
}

#[test]
fn file_links_use_the_file_base_url() {
    let mut s = settings();
    assert_eq!(app_base_url("https://example.com//"), "https://example.com");
    assert_eq!(file_base_url(&s.delivery, "https://example.com/"), "https://example.com");
    s.delivery.public_file_base_url = Some("https://files.example.com/".to_string());
    assert_eq!(
        raw_file_url(&s.delivery, "https://example.com", "abc"),
        "https://files.example.com/files/abc/raw"
    );
    assert_eq!(
        thumbnail_file_url(&s.delivery, "https://example.com", "abc"),
        "https://files.example.com/files/abc/thumbnail"
    );
    s.delivery.public_file_base_url = Some("  ".to_string());
    assert_eq!(
        raw_file_url(&s.delivery, "https://example.com/", "abc"),
        "https://example.com/files/abc/raw"
    );
}

#[test]
fn the_isolated_file_origin_is_recognized_by_host() {
    let mut s = settings();
    s.delivery.public_file_base_url = Some("https://Files.Example.com:8443/x".to_string());
    assert_eq!(configured_file_host(&s.delivery).as_deref(), Some("files.example.com:8443"));
    assert_eq!(request_host(Some(" Files.Example.com:8443. ")).as_deref(), Some("files.example.com:8443"));
    assert!(!is_isolated_file_host(&s.delivery, Some("files.example.com:8443")));
    s.delivery.isolated_file_origin = true;
    assert!(is_isolated_file_host(&s.delivery, Some("files.example.com:8443")));
    assert!(!is_isolated_file_host(&s.delivery, Some("example.com")));
    assert!(!is_isolated_file_host(&s.delivery, None));
}

#[test]
fn internal_urls_are_signed_when_enabled() {
    let mut s = settings();
    assert!(signed_internal_raw_url(&s.delivery, "https://example.com", "abc", 1000).is_none());
    s.delivery.signed_internal_urls = true;
    s.delivery.internal_url_secret = Some("test-secret".to_string());
    let sig = sign_internal_file_url("test-secret", "abc", 1060);
    assert_eq!(sig.len(), 43);
    assert!(sig.chars().all(|c| c.is_ascii_alphanumeric() || c == '-' || c == '_'));
    let digest = <sha2::Sha256 as sha2::Digest>::digest(b"test-secret\0abc\01060");
    let expected = base64::Engine::encode(&base64::engine::general_purpose::URL_SAFE_NO_PAD, digest);
    assert_eq!(sig, expected);
    assert_ne!(sig, sign_internal_file_url("test-secret", "abc", 1061));
    let url = signed_internal_raw_url(&s.delivery, "https://example.com/", "abc", 1000).unwrap();
    assert_eq!(
        url,
        format!("https://example.com/internal/files/abc/raw?expires=1060&signature={sig}")
    );
    s.delivery.internal_url_secret = Some(String::new());
    assert!(signed_internal_raw_url(&s.delivery, "https://example.com", "abc", 1000).is_none());
}

#[test]
fn risky_types_are_downloaded_unless_isolated() {
    let mut s = settings();
    s.security.content_policy.forced_attachment_mime_types = vec!["text/html".to_string()];
    assert!(is_risky_mime(&s.security.content_policy, "TEXT/HTML"));
    assert!(!is_risky_mime(&s.security.content_policy, "image/png"));
    assert_eq!(file_disposition_kind(&s.security, true, true), "attachment");
    s.security.content_policy.risky_mime_mode = RiskyMimeMode::InlineOnIsolatedOrigin;
    assert_eq!(file_disposition_kind(&s.security, true, true), "inline");
    assert_eq!(file_disposition_kind(&s.security, true, false), "attachment");
    s.security.content_disposition = ContentDispositionMode::Inline;
    assert_eq!(file_disposition_kind(&s.security, false, false), "inline");

    s.security.content_policy.risky_mime_mode = RiskyMimeMode::Plaintext;
    let plan = file_response_plan(
        &s.security,
        &s.delivery,
        Some("text/html"),
        -5,
        Some("a\"b.html"),
        "abc",
        "unlisted",
        false,
        None,
    );
    assert_eq!(plan.content_type, "text/plain; charset=utf-8");
    assert_eq!(plan.content_length, 0);
    assert_eq!(plan.content_disposition, "inline; filename=\"ab.html\"");
    assert_eq!(plan.security_headers.len(), 3);
    assert_eq!(plan.cache_control, "no-store");
}

#[test]
fn cache_control_follows_scope_and_age() {
    assert_eq!(cache_control_value(0, CacheScope::Public), "no-store");
    assert_eq!(cache_control_value(84, CacheScope::Public), "public, max-age=84");
    assert_eq!(cache_control_value(84, CacheScope::Private), "private, no-store");
}

#[test]
fn private_raw_files_are_not_public_cacheable() {
    let mut s = settings();
    s.delivery.public_cache_seconds = 31536000;
    let private = file_response_plan(
        &s.security,
        &s.delivery,
        Some("text/plain"),
        13,
        Some("private.txt"),
        "private-cache-file",
        "private",
        false,
        None,
    );
    assert_ne!(private.cache_control, "public, max-age=31536000");
    assert!(private.cache_control.contains("private"));
    s.delivery.public_cache_seconds = 42;
    let public = file_response_plan(&s.security, &s.delivery, Some("text/plain"), 8, Some("cache.txt"), "f", "unlisted", false, None);
    assert_eq!(public.cache_control, "public, max-age=42");
    assert_eq!(public.content_disposition, "attachment; filename=\"cache.txt\"");
    assert_eq!(public.content_length, 8);
}

#[test]
fn api_file_items_link_under_the_file_base_url() {
    let delivery = DeliveryConfig {
        public_cache_seconds: 0,
        static_cache_seconds: 3600,
        public_file_base_url: Some("https://files.example/".to_string()),
        isolated_file_origin: true,
        signed_internal_urls: false,
        internal_url_secret: None,
        internal_url_ttl_seconds: 60,
    };
    assert_eq!(
        file_url(&delivery, "https://app.example", "abc.txt"),
        "https://files.example/abc.txt"
    );
    let mut f = file(None, None);
    f.thumbnail_hash = Some("t".to_string());
    f.metadata_json = Some("{\"w\":1}".to_string());
    let item = api_file_item(&delivery, "https://app.example/", &f, "abc.txt", 100);
    assert_eq!(item.id, "abc");
    assert_eq!(item.url, "https://files.example/abc.txt");
    assert_eq!(item.raw_url, "https://files.example/files/abc/raw");
    assert_eq!(item.thumbnail_url.as_deref(), Some("https://files.example/files/abc/thumbnail"));
    assert_eq!(item.internal_url, None);
    assert_eq!(item.filename.as_deref(), Some("notes.txt"));
    assert_eq!(item.metadata_json.as_deref(), Some("{\"w\":1}"));
    assert_eq!(item.size_bytes, 12);
    assert_eq!(item.state, "active");

    let signed = DeliveryConfig {
        signed_internal_urls: true,
        internal_url_secret: Some("s3".to_string()),
        public_file_base_url: None,
        ..delivery
    };
    let item = api_file_item(&signed, "https://app.example", &file(None, None), "abc.txt", 100);
    assert_eq!(item.url, "https://app.example/abc.txt");
    assert_eq!(item.thumbnail_url, None);
    let expected = format!(
        "https://app.example/internal/files/abc/raw?expires=160&signature={}",
        sign_internal_file_url("s3", "abc", 160)
    );
    assert_eq!(item.internal_url.as_deref(), Some(expected.as_str()));
}
