use midden::model::{ActionRule, WebError};
use midden::settings_form::{apply_settings_form, AdminSettingsForm};
use midden::settings::{
    BrandingConfig, ContentDispositionMode, ContentPolicy, DeletePolicy, DeliveryConfig,
    DiscoveryConfig, ExpiryConfig, FeatureConfig, JobsConfig, Keyed, LimitsConfig, MetricsAccessMode,
    MetricsConfig, ModerationConfig, PolicyConfig, ProcessingConfig, QuotaConfig, RateLimitBackend,
    RiskyMimeMode, RuntimeSettings, ScanDecision, ScanningConfig, SecurityConfig, SignupMode,
    TokensConfig, UploadsConfig, UrlUploadConfig,
};

fn quota() -> QuotaConfig {
    QuotaConfig {
        storage_bytes: None,
        daily_upload_bytes: None,
        monthly_upload_bytes: None,
        item_count: None,
    }
}

fn settings() -> RuntimeSettings {
    RuntimeSettings {
        features: FeatureConfig {
            files: true,
            pastes: true,
            accounts: true,
            api: true,
            reports: true,
            upload_by_url: true,
            preview_pages: true,
            public_browse: false,
            oidc_login: false,
            local_login: true,
            paste_content_search: false,
            paste_editing: true,
        },
        limits: LimitsConfig {
            max_upload_bytes: 1024,
            max_paste_bytes: 64,
            max_tus_upload_bytes: 4096,
            default_file_expiry: None,
            default_paste_expiry: None,
            anonymous_quota: quota(),
            role_quotas: Keyed { entries: Vec::new() },
            expiry: ExpiryConfig {
                allow_never: true,
                anonymous_max_file_expiry: None,
                user_max_file_expiry: None,
                anonymous_max_paste_expiry: None,
                user_max_paste_expiry: None,
                allowed_presets: Vec::new(),
            },
        },
        policy: PolicyConfig {
            signup: SignupMode::Open,
            upload_file: ActionRule::Anonymous,
            create_paste: ActionRule::Anonymous,
            use_api: ActionRule::Anonymous,
            view_item: ActionRule::Anonymous,
            delete_own_item: ActionRule::Authenticated,
            delete_policy: DeletePolicy::DeleteTokens,
            claim_anonymous_item: ActionRule::Authenticated,
            create_account: ActionRule::Anonymous,
        },
        security: SecurityConfig {
            secure_cookies: false,
            content_disposition: ContentDispositionMode::Attachment,
            reject_mime_mismatch: true,
            rate_limit_backend: RateLimitBackend::Memory,
            content_policy: ContentPolicy {
                allowed_mime_types: Vec::new(),
                forced_attachment_mime_types: Vec::new(),
                risky_mime_mode: RiskyMimeMode::Attachment,
                max_filename_bytes: 16,
            },
            url_upload: UrlUploadConfig {
                block_private_ips: true,
                max_redirects: 3,
                connect_timeout_seconds: 5,
                request_timeout_seconds: 30,
                max_response_bytes: None,
                allowed_ports: Vec::new(),
                blocked_ports: Vec::new(),
                user_agent: None,
                allowed_hosts: Vec::new(),
                blocked_hosts: Vec::new(),
            },
            rate_limits: Keyed { entries: Vec::new() },
        },
        delivery: DeliveryConfig {
            public_cache_seconds: 0,
            static_cache_seconds: 3600,
            public_file_base_url: None,
            isolated_file_origin: false,
            signed_internal_urls: false,
            internal_url_secret: None,
            internal_url_ttl_seconds: 60,
        },
        branding: BrandingConfig {
            instance_name: "Midden".to_string(),
            tagline: String::new(),
            logo_url: None,
            favicon_url: None,
            accent_color: "#4f46e5".to_string(),
            dark_mode: "auto".to_string(),
            opengraph_description: String::new(),
            opengraph_files: false,
            opengraph_pastes: false,
            takedown_page_text: String::new(),
            homepage_blocks: Vec::new(),
            abuse_email: None,
            contact_url: None,
        },
        scanning: ScanningConfig {
            enabled: false,
            blocked_hashes: vec!["ABCDEF".to_string()],
            blocked_mime_types: vec!["application/x-msdownload".to_string()],
            default_on_error: ScanDecision::Allow,
            adapters: Vec::new(),
        },
        processing: ProcessingConfig {
            metadata_extraction: true,
            metadata_stripping: true,
            thumbnails: false,
            thumbnail_max_dimension: 256,
            thumbnail_jpeg_quality: 80,
        },
        discovery: DiscoveryConfig {
            robots_index: false,
            page_size: 20,
        },
        jobs: JobsConfig {
            enabled: false,
            interval_seconds: 60,
            metadata_limit: 10,
            scanner_retry_limit: 3,
            storage_verify_interval_seconds: 3600,
        },
        uploads: UploadsConfig { temp_dir: None },
        metrics: MetricsConfig {
            enabled: true,
            access: MetricsAccessMode::Public,
            bearer_token: None,
        },
        tokens: TokensConfig {
            default_ttl_seconds: None,
            max_ttl_seconds: None,
        },
        moderation: ModerationConfig {
            notify_webhook_url: None,
            notify_webhook_secret: None,
        },
    }
}

fn message(e: WebError) -> String {
    match e {
        WebError::BadRequest(m) => m,
        other => panic!("expected a bad request, got {:?}", other),
    }
}

/// The form that the operator page sends with only what a valid form needs.
fn valid_form() -> AdminSettingsForm {
    AdminSettingsForm {
        feature_files: Some("on".to_string()),
        feature_pastes: Some("on".to_string()),
        feature_accounts: Some("on".to_string()),
        feature_api: Some("on".to_string()),
        feature_reports: Some("on".to_string()),
        feature_upload_by_url: None,
        feature_preview_pages: None,
        feature_public_browse: None,
        feature_oidc_login: Some("on".to_string()),
        feature_local_login: Some("on".to_string()),
        feature_paste_content_search: None,
        feature_paste_editing: None,
        max_upload_bytes: Some("2147483648".to_string()),
        max_paste_bytes: Some("1048576".to_string()),
        default_file_expiry: None,
        default_paste_expiry: None,
        anonymous_storage_bytes: None,
        anonymous_daily_upload_bytes: None,
        anonymous_monthly_upload_bytes: None,
        anonymous_item_count: None,
        user_storage_bytes: None,
        user_daily_upload_bytes: None,
        user_monthly_upload_bytes: None,
        user_item_count: None,
        signup: "open".to_string(),
        policy_upload_file: "anonymous".to_string(),
        policy_create_paste: "anonymous".to_string(),
        policy_use_api: "anonymous".to_string(),
        policy_view_item: "anonymous".to_string(),
        policy_delete_own_item: "owner".to_string(),
        policy_claim_anonymous_item: "authenticated".to_string(),
        policy_create_account: "anonymous".to_string(),
        delete_policy: "delete_tokens".to_string(),
        instance_name: "Midden".to_string(),
        tagline: "".to_string(),
        logo_url: None,
        favicon_url: None,
        accent_color: "#4f46e5".to_string(),
        dark_mode: "auto".to_string(),
        opengraph_description: "".to_string(),
        opengraph_files: None,
        opengraph_pastes: None,
        takedown_page_text: "".to_string(),
        homepage_blocks: None,
        abuse_email: None,
        contact_url: None,
        secure_cookies: None,
        content_disposition: "attachment".to_string(),
        reject_mime_mismatch: None,
        delivery_public_cache_seconds: None,
        delivery_static_cache_seconds: None,
        delivery_public_file_base_url: None,
        delivery_isolated_file_origin: None,
        delivery_signed_internal_urls: None,
        delivery_internal_url_secret: None,
        delivery_internal_url_ttl_seconds: None,
        processing_metadata_extraction: None,
        processing_metadata_stripping: None,
        processing_thumbnails: None,
        discovery_robots_index: None,
        discovery_page_size: None,
        jobs_enabled: None,
        jobs_interval_seconds: None,
        jobs_metadata_limit: None,
        jobs_scanner_retry_limit: None,
        jobs_storage_verify_interval_seconds: None,
        upload_temp_dir: None,
        metrics_enabled: None,
        metrics_access: "public".to_string(),
        metrics_bearer_token: None,
        rate_limit_backend: "memory".to_string(),
        forced_attachment_mime_types: None,
        risky_mime_mode: "attachment".to_string(),
        allowed_mime_types: None,
        max_filename_bytes: None,
        expiry_allow_never: None,
        anonymous_max_file_expiry: None,
        user_max_file_expiry: None,
        anonymous_max_paste_expiry: None,
        user_max_paste_expiry: None,
        expiry_allowed_presets: None,
        token_default_ttl_seconds: None,
        token_max_ttl_seconds: None,
        thumbnail_max_dimension: None,
        thumbnail_jpeg_quality: None,
        moderation_notify_webhook_url: None,
        moderation_notify_webhook_secret: None,
        url_block_private_ips: None,
        url_max_redirects: None,
        url_connect_timeout_seconds: None,
        url_request_timeout_seconds: None,
        url_max_response_bytes: None,
        url_allowed_ports: None,
        url_blocked_ports: None,
        url_user_agent: None,
        url_allowed_hosts: None,
        url_blocked_hosts: None,
        rl_upload_file_enabled: None,
        rl_upload_file_requests: None,
        rl_upload_file_window: None,
        rl_upload_by_url_enabled: None,
        rl_upload_by_url_requests: None,
        rl_upload_by_url_window: None,
        rl_login_enabled: None,
        rl_login_requests: None,
        rl_login_window: None,
        rl_password_reset_enabled: None,
        rl_password_reset_requests: None,
        rl_password_reset_window: None,
        rl_report_enabled: None,
        rl_report_requests: None,
        rl_report_window: None,
        scanning_enabled: None,
        blocked_hashes: None,
        blocked_mime_types: None,
        default_on_error: "allow".to_string(),
        command_scanner_program: None,
        command_scanner_args: None,
        webhook_scanner_url: None,
        webhook_scanner_secret: None,
        clamav_socket: None,
        csrf_token: Some("csrf".to_string()),
    }
}

#[test]
fn settings_form_applies_what_it_sets() {
    let old = settings();
    let mut form = valid_form();
    form.max_paste_bytes = Some(" 2048 ".to_string());
    form.feature_public_browse = Some("on".to_string());
    form.policy_view_item = "authenticated".to_string();
    let new = apply_settings_form(&old, &form, false).unwrap();
    assert_eq!(new.limits.max_upload_bytes, 2147483648);
    assert_eq!(new.limits.max_paste_bytes, 2048);
    assert!(new.features.files && new.features.public_browse && new.features.local_login);
    assert!(!new.features.upload_by_url);
    assert_eq!(new.policy.view_item, ActionRule::Authenticated);
    assert_eq!(new.policy.delete_policy, DeletePolicy::DeleteTokens);
    assert_eq!(new.branding.instance_name, "Midden");
}

#[test]
fn settings_form_keeps_a_way_to_sign_in() {
    let old = settings();
    let mut form = valid_form();
    form.feature_local_login = None;
    assert_eq!(
        message(apply_settings_form(&old, &form, false).unwrap_err()),
        "at least one sign-in method must remain enabled"
    );
    let new = apply_settings_form(&old, &form, true).unwrap();
    assert!(!new.features.local_login && new.features.oidc_login);
    form.feature_oidc_login = None;
    assert_eq!(
        message(apply_settings_form(&old, &form, true).unwrap_err()),
        "at least one sign-in method must remain enabled"
    );
}

#[test]
fn settings_form_needs_the_size_limits() {
    let old = settings();
    let mut form = valid_form();
    form.max_upload_bytes = Some("  ".to_string());
    assert_eq!(
        message(apply_settings_form(&old, &form, false).unwrap_err()),
        "max_upload_bytes is required"
    );
}

#[test]
fn admin_settings_rejects_disabling_all_sign_in_paths() {
    let mut old = settings();
    old.features.local_login = true;
    old.features.oidc_login = true;
    let mut form = valid_form();
    form.feature_oidc_login = None;
    form.feature_local_login = None;
    // A refused form gives no settings to store, so the stored ones stay.
    let refused = apply_settings_form(&old, &form, true).unwrap_err();
    assert!(message(refused).contains("at least one sign-in method"));
}

#[test]
fn admin_settings_persists_an_empty_expiry_preset_list() {
    let mut old = settings();
    old.limits.expiry.allowed_presets = vec!["1h".to_string(), "1d".to_string()];
    assert!(!old.limits.expiry.allowed_presets.is_empty());
    let new = apply_settings_form(&old, &valid_form(), true).unwrap();
    assert!(new.limits.expiry.allowed_presets.is_empty());
    let mut form = valid_form();
    form.expiry_allowed_presets = Some(" 1h \n\n7d".to_string());
    let new = apply_settings_form(&old, &form, true).unwrap();
    assert_eq!(new.limits.expiry.allowed_presets, ["1h", "7d"]);
}
