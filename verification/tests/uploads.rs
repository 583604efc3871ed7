use midden::crypto::to_hex_lower;
use midden::imagestream::{strip_jpeg_chunks, strip_png_chunks};
use midden::fetch::{fetch_begin, fetch_step, FetchAction, FetchAnswer, FetchEvent, FetchStage};
use midden::intake::{upload_step, UploadAction, UploadEvent, UploadFlow, UploadStage};
use midden::model::{ActionRule, WebError};
use midden::net::{is_private_upload_ip, parse_upload_url, validate_url_upload_target, IpValue};
use midden::settings::{
    BrandingConfig, ContentDispositionMode, ContentPolicy, DeletePolicy, DeliveryConfig,
    DiscoveryConfig, ExpiryConfig, FeatureConfig, JobsConfig, Keyed, LimitsConfig, MetricsAccessMode,
    MetricsConfig, ModerationConfig, PolicyConfig, ProcessingConfig, QuotaConfig, RateLimitBackend,
    RiskyMimeMode, RuntimeSettings, ScanDecision, ScanningConfig, SecurityConfig, SignupMode,
    TokensConfig, UploadsConfig, UrlUploadConfig,
};
use midden::upload::{
    append_preview, check_blocked_upload, check_content_length, check_upload_policy,
    choose_content_type, clean_mime, finish_upload, finish_upload_field, redirect_target,
    reject_mime_mismatch, resolved_content_type, scan_file_state, strip_file_metadata,
    url_response_limit, TempFileRewrite, UploadMeter, UploadedFile, UploadedFileSource,
    UPLOAD_PREVIEW_BYTES,
};

fn quota() -> QuotaConfig {
    QuotaConfig {
        storage_bytes: None,
        daily_upload_bytes: None,
        monthly_upload_bytes: None,
        item_count: None,
    }
}

fn settings() -> RuntimeSettings {
    RuntimeSettings {
        features: FeatureConfig {
            files: true,
            pastes: true,
            accounts: true,
            api: true,
            reports: true,
            upload_by_url: true,
            preview_pages: true,
            public_browse: false,
            oidc_login: false,
            local_login: true,
            paste_content_search: false,
            paste_editing: true,
        },
        limits: LimitsConfig {
            max_upload_bytes: 1024,
            max_paste_bytes: 64,
            max_tus_upload_bytes: 4096,
            default_file_expiry: None,
            default_paste_expiry: None,
            anonymous_quota: quota(),
            role_quotas: Keyed { entries: Vec::new() },
            expiry: ExpiryConfig {
                allow_never: true,
                anonymous_max_file_expiry: None,
                user_max_file_expiry: None,
                anonymous_max_paste_expiry: None,
                user_max_paste_expiry: None,
                allowed_presets: Vec::new(),
            },
        },
        policy: PolicyConfig {
            signup: SignupMode::Open,
            upload_file: ActionRule::Anonymous,
            create_paste: ActionRule::Anonymous,
            use_api: ActionRule::Anonymous,
            view_item: ActionRule::Anonymous,
            delete_own_item: ActionRule::Authenticated,
            delete_policy: DeletePolicy::DeleteTokens,
            claim_anonymous_item: ActionRule::Authenticated,
            create_account: ActionRule::Anonymous,
        },
        security: SecurityConfig {
            secure_cookies: false,
            content_disposition: ContentDispositionMode::Attachment,
            reject_mime_mismatch: true,
            rate_limit_backend: RateLimitBackend::Memory,
            content_policy: ContentPolicy {
                allowed_mime_types: Vec::new(),
                forced_attachment_mime_types: Vec::new(),
                risky_mime_mode: RiskyMimeMode::Attachment,
                max_filename_bytes: 16,
            },
            url_upload: UrlUploadConfig {
                block_private_ips: true,
                max_redirects: 3,
                connect_timeout_seconds: 5,
                request_timeout_seconds: 30,
                max_response_bytes: None,
                allowed_ports: Vec::new(),
                blocked_ports: Vec::new(),
                user_agent: None,
                allowed_hosts: Vec::new(),
                blocked_hosts: Vec::new(),
            },
            rate_limits: Keyed { entries: Vec::new() },
        },
        delivery: DeliveryConfig {
            public_cache_seconds: 0,
            static_cache_seconds: 3600,
            public_file_base_url: None,
            isolated_file_origin: false,
            signed_internal_urls: false,
            internal_url_secret: None,
            internal_url_ttl_seconds: 60,
        },
        branding: BrandingConfig {
            instance_name: "Midden".to_string(),
            tagline: String::new(),
            logo_url: None,
            favicon_url: None,
            accent_color: "#4f46e5".to_string(),
            dark_mode: "auto".to_string(),
            opengraph_description: String::new(),
            opengraph_files: false,
            opengraph_pastes: false,
            takedown_page_text: String::new(),
            homepage_blocks: Vec::new(),
            abuse_email: None,
            contact_url: None,
        },
        scanning: ScanningConfig {
            enabled: false,
            blocked_hashes: vec!["ABCDEF".to_string()],
            blocked_mime_types: vec!["application/x-msdownload".to_string()],
            default_on_error: ScanDecision::Allow,
            adapters: Vec::new(),
        },
        processing: ProcessingConfig {
            metadata_extraction: true,
            metadata_stripping: true,
            thumbnails: false,
            thumbnail_max_dimension: 256,
            thumbnail_jpeg_quality: 80,
        },
        discovery: DiscoveryConfig {
            robots_index: false,
            page_size: 20,
        },
        jobs: JobsConfig {
            enabled: false,
            interval_seconds: 60,
            metadata_limit: 10,
            scanner_retry_limit: 3,
            storage_verify_interval_seconds: 3600,
        },
        uploads: UploadsConfig { temp_dir: None },
        metrics: MetricsConfig {
            enabled: true,
            access: MetricsAccessMode::Public,
            bearer_token: None,
        },
        tokens: TokensConfig {
            default_ttl_seconds: None,
            max_ttl_seconds: None,
        },
        moderation: ModerationConfig {
            notify_webhook_url: None,
            notify_webhook_secret: None,
        },
    }
}

fn bad_request_message(e: WebError) -> String {
    match e {
        WebError::BadRequest(m) => m,
        other => panic!("expected a bad request, got {:?}", other),
    }
}

#[test]
fn resolved_content_type_keeps_declared_media_type_when_sniff_is_generic_binary() {
    let uploaded = UploadedFile::from_bytes(
        vec![0x00, 0x01, 0x02, 0x03],
        Some("clip.mp4".to_string()),
        Some("video/mp4".to_string()),
    );

    assert_eq!(
        resolved_content_type(&settings(), &uploaded, Some("application/octet-stream")).unwrap(),
        "video/mp4"
    );
}

#[test]
fn resolved_content_type_uses_filename_type_when_sniff_is_generic_binary() {
    let uploaded = UploadedFile::from_bytes(
        vec![0x00, 0x01, 0x02, 0x03],
        Some("image.webp".to_string()),
        None,
    );

    assert_eq!(
        resolved_content_type(&settings(), &uploaded, Some("application/octet-stream")).unwrap(),
        "image/webp"
    );
}

#[test]
fn url_upload_target_validation_blocks_private_hosts_by_default() {
    let s = settings();
    let url = parse_upload_url("http://127.0.0.1/file.txt").unwrap();
    let err = validate_url_upload_target(&s.security.url_upload, &url).unwrap_err();

    assert!(matches!(
        err,
        WebError::BadRequest(message)
            if message.contains("private or local")
    ));
}

#[test]
fn private_upload_ip_detection_covers_rebinding_remote_addr_classes() {
    assert!(is_private_upload_ip(IpValue::V4(127, 0, 0, 1)));
    assert!(is_private_upload_ip(IpValue::V4(10, 1, 2, 3)));
    assert!(is_private_upload_ip(IpValue::V4(169, 254, 1, 1)));
    assert!(is_private_upload_ip(IpValue::V6(0, 0, 0, 0, 0, 0, 0, 1)));
    assert!(is_private_upload_ip(IpValue::V6(0xfd00, 0, 0, 0, 0, 0, 0, 1)));
    assert!(!is_private_upload_ip(IpValue::V4(93, 184, 216, 34)));
}

fn contains_window(haystack: &[u8], needle: &[u8]) -> bool {
    haystack.windows(needle.len()).any(|window| window == needle)
}

#[test]
fn streaming_png_metadata_strip_skips_ancillary_chunks() {
    let png = [
        b"\x89PNG\r\n\x1a\n".as_slice(),
        &[0, 0, 0, 0, b'I', b'H', b'D', b'R', 0, 0, 0, 0],
        &[
            0, 0, 0, 4, b't', b'E', b'X', b't', b'm', b'e', b't', b'a', 0, 0, 0, 0,
        ],
        &[0, 0, 0, 0, b'I', b'E', b'N', b'D', 0, 0, 0, 0],
    ]
    .concat();

    let chunks: Vec<Vec<u8>> = png.chunks(5).map(<[u8]>::to_vec).collect();
    let stripped = strip_png_chunks(&chunks).unwrap();

    assert!(!contains_window(&stripped, b"tEXt"));
    assert!(contains_window(&stripped, b"IHDR"));
    assert!(contains_window(&stripped, b"IEND"));
}

#[test]
fn streaming_jpeg_metadata_strip_skips_app_segments() {
    let mut jpeg = Vec::new();
    jpeg.extend_from_slice(&[0xff, 0xd8]);
    jpeg.extend_from_slice(&[0xff, 0xe1, 0, 4, b'm', b'd']);
    jpeg.extend_from_slice(&[0xff, 0xc0, 0, 4, b'i', b'm']);
    jpeg.extend_from_slice(&[0xff, 0xd9]);

    let chunks: Vec<Vec<u8>> = jpeg.chunks(3).map(<[u8]>::to_vec).collect();
    let stripped = strip_jpeg_chunks(&chunks).unwrap();

    assert!(!contains_window(&stripped, &[0xff, 0xe1]));
    assert!(contains_window(&stripped, &[0xff, 0xc0]));
    assert!(stripped.ends_with(&[0xff, 0xd9]));
}

#[test]
fn upload_readers_do_not_rehydrate_temp_files_into_memory() {
    let mut uploaded = UploadedFile::from_temp_path(
        "/tmp/upload.part".to_string(),
        10,
        vec![0xff, 0xd8],
        Some("photo.jpg".to_string()),
        Some("image/jpeg".to_string()),
    );
    uploaded.strip_metadata("image/jpeg");
    assert!(matches!(&uploaded.source, UploadedFileSource::TempPath(p) if p == "/tmp/upload.part"));
    assert_eq!(uploaded.size_bytes(), 10);
    assert_eq!(uploaded.preview(), &[0xff, 0xd8]);
    assert!(uploaded.sha256_hex().is_none());
    assert_eq!(uploaded.source_path(), Some("/tmp/upload.part"));
}

#[test]
fn memory_uploads_strip_and_hash_in_place() {
    let mut jpeg = Vec::new();
    jpeg.extend_from_slice(&[0xff, 0xd8]);
    jpeg.extend_from_slice(&[0xff, 0xe1, 0, 4, b'm', b'd']);
    jpeg.extend_from_slice(&[0xff, 0xd9]);
    let mut uploaded = UploadedFile::from_bytes(jpeg, None, None);
    assert_eq!(uploaded.size_bytes(), 10);
    uploaded.strip_metadata("image/jpeg");
    assert_eq!(uploaded.size_bytes(), 4);
    assert_eq!(uploaded.preview(), &[0xff, 0xd8, 0xff, 0xd9]);
    assert!(uploaded.source_path().is_none());

    let empty = UploadedFile::from_bytes(b"abc".to_vec(), None, None);
    assert_eq!(
        empty.sha256_hex().unwrap(),
        "ba7816bf8f01cfea414140de5dae2223b00361a396177a9cb410ff61f20015ad"
    );
}

#[test]
fn strip_leaves_unknown_types_and_broken_images_alone() {
    assert!(strip_file_metadata("text/plain", b"hello").is_none());
    assert!(strip_file_metadata("image/png", b"not a png").is_none());
    assert!(strip_file_metadata("image/jpeg", &[0xff, 0xd8, 0xff, 0xe1, 0, 9]).is_none());
}

#[test]
fn preview_keeps_the_first_bytes_across_chunks() {
    let mut preview = Vec::new();
    let big = vec![7u8; UPLOAD_PREVIEW_BYTES - 2];
    append_preview(&mut preview, &big);
    append_preview(&mut preview, &[1, 2, 3, 4]);
    assert_eq!(preview.len(), UPLOAD_PREVIEW_BYTES);
    assert_eq!(&preview[UPLOAD_PREVIEW_BYTES - 2..], &[1, 2]);
    append_preview(&mut preview, &[9]);
    assert_eq!(preview.len(), UPLOAD_PREVIEW_BYTES);

    let uploaded = UploadedFile::from_bytes(vec![5u8; UPLOAD_PREVIEW_BYTES + 10], None, None);
    assert_eq!(uploaded.preview().len(), UPLOAD_PREVIEW_BYTES);
    assert_eq!(uploaded.size_bytes(), (UPLOAD_PREVIEW_BYTES + 10) as i64);
}

#[test]
fn meter_refuses_uploads_over_the_limit_and_empty_fields() {
    let mut meter = UploadMeter::new(5);
    assert!(finish_upload_field(&meter).is_err());
    assert!(meter.feed(&[1, 2, 3]).is_ok());
    assert!(meter.feed(&[4, 5]).is_ok());
    assert_eq!(meter.total, 5);
    assert_eq!(meter.preview, vec![1, 2, 3, 4, 5]);
    assert!(finish_upload_field(&meter).is_ok());
    assert!(matches!(meter.feed(&[6]), Err(WebError::PayloadTooLarge)));
    assert_eq!(
        bad_request_message(finish_upload_field(&UploadMeter::new(5)).unwrap_err()),
        "empty files are not accepted"
    );
}

#[test]
fn mismatched_sniffed_types_are_refused() {
    assert!(reject_mime_mismatch("image/png", "image/png", "declared content type").is_ok());
    assert!(reject_mime_mismatch("application/octet-stream", "image/png", "x").is_ok());
    assert_eq!(
        bad_request_message(
            reject_mime_mismatch("image/png", "image/jpeg", "declared content type").unwrap_err()
        ),
        "detected MIME image/png does not match declared content type image/jpeg"
    );
    assert_eq!(
        bad_request_message(
            choose_content_type(true, None, Some("image/gif"), Some("image/png")).unwrap_err()
        ),
        "detected MIME image/png does not match filename extension image/gif"
    );
    assert_eq!(
        choose_content_type(false, Some("image/jpeg"), None, Some("image/png")).unwrap(),
        "image/png"
    );
    assert_eq!(
        choose_content_type(true, None, None, None).unwrap(),
        "application/octet-stream"
    );
}

#[test]
fn declared_types_are_cleaned() {
    assert_eq!(clean_mime("Text/HTML; charset=utf-8").unwrap(), "text/html");
    assert!(clean_mime("not a type").is_none());
}

#[test]
fn upload_policy_and_block_lists_refuse_with_their_messages() {
    let mut s = settings();
    let long = UploadedFile::from_bytes(vec![1], Some("a-very-long-file-name.txt".to_string()), None);
    assert_eq!(
        bad_request_message(check_upload_policy(&s, &long, "text/plain").unwrap_err()),
        "filename is too long"
    );
    let short = UploadedFile::from_bytes(vec![1], Some("a.txt".to_string()), None);
    assert!(check_upload_policy(&s, &short, "text/plain").is_ok());
    s.security.content_policy.allowed_mime_types = vec!["IMAGE/PNG".to_string()];
    assert_eq!(
        bad_request_message(check_upload_policy(&s, &short, "text/plain").unwrap_err()),
        "file type is not allowed"
    );
    assert!(check_upload_policy(&s, &short, "image/png").is_ok());

    assert_eq!(
        bad_request_message(check_blocked_upload(&s, "abcdef", "text/plain").unwrap_err()),
        "file hash is blocked"
    );
    assert_eq!(
        bad_request_message(
            check_blocked_upload(&s, "0123", "application/x-msdownload").unwrap_err()
        ),
        "file type is blocked"
    );
    assert!(check_blocked_upload(&s, "0123", "text/plain").is_ok());
}

#[test]
fn scanner_decisions_pick_the_stored_state() {
    assert_eq!(scan_file_state(ScanDecision::Allow).unwrap(), "active");
    assert_eq!(scan_file_state(ScanDecision::Quarantine).unwrap(), "quarantined");
    assert_eq!(
        bad_request_message(scan_file_state(ScanDecision::Reject).unwrap_err()),
        "upload rejected by scanner"
    );
    assert_eq!(
        bad_request_message(finish_upload("quarantined").unwrap_err()),
        "upload quarantined by scanner"
    );
    assert!(finish_upload("active").is_ok());
}

#[test]
fn url_upload_limits_and_redirects() {
    let mut s = settings();
    assert_eq!(url_response_limit(&s).unwrap(), 1024);
    s.security.url_upload.max_response_bytes = Some(100);
    assert_eq!(url_response_limit(&s).unwrap(), 100);
    assert!(matches!(check_content_length(&s, Some(101)), Err(WebError::PayloadTooLarge)));
    assert!(check_content_length(&s, Some(100)).is_ok());
    assert!(check_content_length(&s, None).is_ok());
    s.security.url_upload.max_response_bytes = Some(-1);
    assert!(matches!(url_response_limit(&s), Err(WebError::PayloadTooLarge)));

    assert_eq!(
        redirect_target(0, 3, "http://example.com/a/b", Some("../c")).unwrap(),
        "http://example.com/c"
    );
    assert_eq!(
        bad_request_message(redirect_target(3, 3, "http://example.com/", Some("/x")).unwrap_err()),
        "URL upload exceeded redirect limit"
    );
    assert_eq!(
        bad_request_message(redirect_target(1, 3, "http://example.com/", None).unwrap_err()),
        "redirect missing Location"
    );
}

#[test]
fn upload_urls_must_parse_and_use_http() {
    assert_eq!(
        bad_request_message(parse_upload_url("ftp://example.com/x").unwrap_err()),
        "only http and https URLs are supported"
    );
    assert!(bad_request_message(parse_upload_url("not a url").unwrap_err()).starts_with("invalid URL: "));
    assert!(parse_upload_url("https://example.com/x.png").is_ok());
}

fn refusal(a: UploadAction) -> String {
    match a {
        UploadAction::Refuse(e) => bad_request_message(e),
        other => panic!("expected a refusal, got {:?}", other),
    }
}

#[test]
fn in_memory_uploads_are_stripped_hashed_scanned_and_stored() {
    let settings = settings();
    let png = [
        b"\x89PNG\r\n\x1a\n".as_slice(),
        &[0, 0, 0, 0, b'I', b'H', b'D', b'R', 0, 0, 0, 0],
        &[0, 0, 0, 1, b't', b'E', b'X', b't', 9, 0, 0, 0, 0],
        &[0, 0, 0, 0, b'I', b'E', b'N', b'D', 0, 0, 0, 0],
    ]
    .concat();
    let stripped = strip_file_metadata("image/png", &png).unwrap();
    let mut uploaded = UploadedFile::from_bytes(png.clone(), Some("a.png".to_string()), None);
    let mut flow = UploadFlow::new();
    let a = upload_step(&settings, &mut flow, &mut uploaded, UploadEvent::Sniffed(Some("image/png".to_string())));
    let expected_hash = hash_token_bytes(&stripped);
    match a {
        UploadAction::Scan { content_type, hash } => {
            assert_eq!(content_type, "image/png");
            assert_eq!(hash, expected_hash);
        }
        other => panic!("expected a scan, got {:?}", other),
    }
    assert_eq!(uploaded.size_bytes(), stripped.len() as i64);
    assert_eq!(flow.stage, UploadStage::Scanning);
    match upload_step(&settings, &mut flow, &mut uploaded, UploadEvent::Scanned(ScanDecision::Allow)) {
        UploadAction::Store { content_type, hash, file_state } => {
            assert_eq!(content_type, "image/png");
            assert_eq!(hash, expected_hash);
            assert_eq!(file_state, "active");
        }
        other => panic!("expected storing, got {:?}", other),
    }
    assert!(matches!(
        upload_step(&settings, &mut flow, &mut uploaded, UploadEvent::Stored),
        UploadAction::Accept
    ));
    assert_eq!(flow.stage, UploadStage::Finished);
}

fn hash_token_bytes(data: &[u8]) -> String {
    to_hex_lower(&<sha2::Sha256 as sha2::Digest>::digest(data))
}

#[test]
fn temporary_uploads_are_rewritten_and_hashed_by_the_host() {
    let settings = settings();
    let mut uploaded = UploadedFile::from_temp_path(
        "/tmp/upload-1".to_string(),
        40,
        b"\x89PNG".to_vec(),
        Some("b.png".to_string()),
        Some("image/png".to_string()),
    );
    let mut flow = UploadFlow::new();
    match upload_step(&settings, &mut flow, &mut uploaded, UploadEvent::Sniffed(None)) {
        UploadAction::RewriteTemp { path, content_type } => {
            assert_eq!(path, "/tmp/upload-1");
            assert_eq!(content_type, "image/png");
        }
        other => panic!("expected a rewrite, got {:?}", other),
    }
    let rewrite = TempFileRewrite {
        path: "/tmp/upload-2".to_string(),
        size_bytes: 27,
        preview: b"\x89PNG".to_vec(),
    };
    match upload_step(&settings, &mut flow, &mut uploaded, UploadEvent::Rewritten(Some(rewrite))) {
        UploadAction::HashTemp { path, discard } => {
            assert_eq!(path, "/tmp/upload-2");
            assert_eq!(discard.as_deref(), Some("/tmp/upload-1"));
        }
        other => panic!("expected hashing, got {:?}", other),
    }
    assert_eq!(uploaded.size_bytes(), 27);
    let a = upload_step(&settings, &mut flow, &mut uploaded, UploadEvent::Hashed("abcdef".to_string()));
    assert_eq!(refusal(a), "file hash is blocked");
    assert_eq!(flow.stage, UploadStage::Finished);
}

#[test]
fn scanner_verdicts_decide_how_an_upload_ends() {
    let settings = settings();
    let mut uploaded = UploadedFile::from_bytes(b"hello".to_vec(), Some("n.txt".to_string()), None);
    let mut flow = UploadFlow::new();
    let a = upload_step(&settings, &mut flow, &mut uploaded, UploadEvent::Sniffed(None));
    assert!(matches!(a, UploadAction::Scan { .. }));
    let mut rejected = UploadFlow::new();
    let mut again = UploadedFile::from_bytes(b"hello".to_vec(), Some("n.txt".to_string()), None);
    let _ = upload_step(&settings, &mut rejected, &mut again, UploadEvent::Sniffed(None));
    let a = upload_step(&settings, &mut rejected, &mut again, UploadEvent::Scanned(ScanDecision::Reject));
    assert_eq!(refusal(a), "upload rejected by scanner");
    match upload_step(&settings, &mut flow, &mut uploaded, UploadEvent::Scanned(ScanDecision::Quarantine)) {
        UploadAction::Store { file_state, .. } => assert_eq!(file_state, "quarantined"),
        other => panic!("expected storing, got {:?}", other),
    }
    let a = upload_step(&settings, &mut flow, &mut uploaded, UploadEvent::Stored);
    assert_eq!(refusal(a), "upload quarantined by scanner");
}

#[test]
fn uploads_breaking_the_content_policy_are_refused_on_arrival() {
    let mut settings = settings();
    settings.security.content_policy.max_filename_bytes = 4;
    let mut uploaded = UploadedFile::from_bytes(b"hi".to_vec(), Some("long-name.txt".to_string()), None);
    let mut flow = UploadFlow::new();
    assert_eq!(flow.stage, UploadStage::Arrived);
    assert!(flow.content_type.is_empty() && flow.hash.is_empty() && flow.file_state.is_empty());
    let a = upload_step(&settings, &mut flow, &mut uploaded, UploadEvent::Sniffed(None));
    assert_eq!(refusal(a), "filename is too long");
    assert_eq!(flow.stage, UploadStage::Finished);
}

fn answer(redirect: bool, location: Option<&str>, content_length: Option<u64>) -> FetchEvent {
    FetchEvent::Answered(FetchAnswer {
        remote_addr: Some(IpValue::V4(93, 184, 216, 34)),
        redirect,
        location: location.map(str::to_string),
        content_length,
    })
}

fn fetch_refusal(a: FetchAction) -> String {
    match a {
        FetchAction::Refuse(e) => bad_request_message(e),
        other => panic!("expected a refusal, got {:?}", other),
    }
}

#[test]
fn url_fetches_resolve_follow_redirects_and_read_within_limits() {
    let settings = settings();
    let (mut f, a) = fetch_begin(&settings, "https://example.com/a/file.txt");
    match a {
        FetchAction::Resolve { host, port } => {
            assert_eq!(host, "example.com");
            assert_eq!(port, 443);
        }
        other => panic!("expected resolving, got {:?}", other),
    }
    let public = vec![IpValue::V4(93, 184, 216, 34)];
    match fetch_step(&settings, &mut f, FetchEvent::Resolved(public.clone())) {
        FetchAction::Request { url } => assert_eq!(url, "https://example.com/a/file.txt"),
        other => panic!("expected a request, got {:?}", other),
    }
    assert!(matches!(
        fetch_step(&settings, &mut f, answer(true, Some("../b/other.txt"), None)),
        FetchAction::Resolve { .. }
    ));
    assert_eq!(f.url, "https://example.com/b/other.txt");
    assert_eq!(f.redirects, 1);
    assert!(matches!(
        fetch_step(&settings, &mut f, FetchEvent::Resolved(public)),
        FetchAction::Request { .. }
    ));
    assert_eq!(f.redirects, 1);
    match fetch_step(&settings, &mut f, answer(false, None, Some(10))) {
        FetchAction::Read { limit } => assert_eq!(limit, 1024),
        other => panic!("expected reading, got {:?}", other),
    }
    assert_eq!(f.stage, FetchStage::Finished);
}

#[test]
fn url_fetches_refuse_bad_targets_redirects_and_sizes() {
    let mut settings = settings();
    let (f, a) = fetch_begin(&settings, "http://127.0.0.1/x");
    assert_eq!(fetch_refusal(a), "URL resolved to a private or local address");
    assert_eq!(f.stage, FetchStage::Finished);
    let (_, a) = fetch_begin(&settings, "ftp://example.com/x");
    assert_eq!(fetch_refusal(a), "only http and https URLs are supported");

    let (mut f, _) = fetch_begin(&settings, "https://example.com/x");
    let a = fetch_step(&settings, &mut f, FetchEvent::Resolved(Vec::new()));
    assert_eq!(fetch_refusal(a), "URL host did not resolve");

    let (mut f, _) = fetch_begin(&settings, "https://example.com/x");
    let _ = fetch_step(&settings, &mut f, FetchEvent::Resolved(vec![IpValue::V4(1, 1, 1, 1)]));
    let a = fetch_step(&settings, &mut f, answer(true, None, None));
    assert_eq!(fetch_refusal(a), "redirect missing Location");

    let (mut f, _) = fetch_begin(&settings, "https://example.com/x");
    let _ = fetch_step(&settings, &mut f, FetchEvent::Resolved(vec![IpValue::V4(1, 1, 1, 1)]));
    let a = fetch_step(&settings, &mut f, answer(false, None, Some(4096)));
    assert!(matches!(a, FetchAction::Refuse(WebError::PayloadTooLarge)));

    settings.security.url_upload.max_redirects = 0;
    settings.security.url_upload.block_private_ips = false;
    let (mut f, a) = fetch_begin(&settings, "https://example.com/x");
    assert!(matches!(a, FetchAction::Request { .. }));
    let a = fetch_step(&settings, &mut f, answer(true, Some("/y"), None));
    assert_eq!(fetch_refusal(a), "URL upload exceeded redirect limit");
}

#[test]
fn streamed_images_strip_as_whole_ones_do() {
    let png = [
        b"\x89PNG\r\n\x1a\n".as_slice(),
        &[0, 0, 0, 1, b'I', b'H', b'D', b'R', 7, 1, 2, 3, 4],
        &[0, 0, 0, 2, b'z', b'T', b'X', b't', 8, 8, 0, 0, 0, 0],
        &[0, 0, 0, 0, b'I', b'E', b'N', b'D', 0, 0, 0, 0],
        b"trailing",
    ]
    .concat();
    let jpeg = vec![
        0xff, 0xd8, 0xff, 0xff, 0xe0, 0, 4, 1, 2, 0xff, 0xfe, 0, 3, b'c', 0xff, 0xdb, 0, 3, 9,
        0xff, 0xd0, 0xff, 0xda, 0, 2, 1, 2, 0xff, 0xd9, 5,
    ];
    for size in 1..=9 {
        let png_chunks: Vec<Vec<u8>> = png.chunks(size).map(<[u8]>::to_vec).collect();
        assert_eq!(strip_png_chunks(&png_chunks), strip_file_metadata("image/png", &png));
        let jpeg_chunks: Vec<Vec<u8>> = jpeg.chunks(size).map(<[u8]>::to_vec).collect();
        assert_eq!(strip_jpeg_chunks(&jpeg_chunks), strip_file_metadata("image/jpeg", &jpeg));
        let cut: Vec<Vec<u8>> = jpeg[..12].chunks(size).map(<[u8]>::to_vec).collect();
        assert_eq!(strip_jpeg_chunks(&cut), None);
        let short: Vec<Vec<u8>> = png[..20].chunks(size).map(<[u8]>::to_vec).collect();
        assert_eq!(strip_png_chunks(&short), None);
    }
    assert!(strip_png_chunks(&Vec::new()).is_none());
    assert!(strip_jpeg_chunks(&vec![b"GIF89a".to_vec()]).is_none());
}

#[test]
fn url_fetches_follow_at_most_the_redirect_limit() {
    let mut settings = settings();
    settings.security.url_upload.max_redirects = 2;
    let (mut f, _) = fetch_begin(&settings, "https://example.com/0");
    let public = vec![IpValue::V4(93, 184, 216, 34)];
    let _ = fetch_step(&settings, &mut f, FetchEvent::Resolved(public.clone()));
    for hop in 1..=2 {
        let a = fetch_step(&settings, &mut f, answer(true, Some(&format!("/{hop}")), None));
        assert!(matches!(a, FetchAction::Resolve { .. }));
        assert_eq!(f.redirects, hop);
        let _ = fetch_step(&settings, &mut f, FetchEvent::Resolved(public.clone()));
        assert_eq!(f.redirects, hop);
    }
    let a = fetch_step(&settings, &mut f, answer(true, Some("/3"), None));
    assert_eq!(fetch_refusal(a), "URL upload exceeded redirect limit");
    assert_eq!(f.url, "https://example.com/2");
}
