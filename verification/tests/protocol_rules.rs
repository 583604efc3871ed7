use midden::accounts::parse_role_field;
use midden::delivery::file_security_headers;
use midden::model::{Role, WebError};
use midden::net::{
    forwarded_client_text, is_loopback, last_path_segment, parse_upload_url, port_or_known_default,
    reject_private_ip, IpValue,
};
use midden::openapi::{declared_schemas, operations, Method, ParamIn, RequestBody};
use midden::oidc::{
    authorization_params, discovery_url, token_request_form, userinfo_endpoint, OidcConfig,
};
use midden::settings::UrlUploadConfig;
use midden::system::disk_asset_content_type;
use midden::upload::{
    reject_url_upload_remote_addr, strip_format, upload_field, StripFormat, UploadField,
};

fn message(e: WebError) -> String {
    match e {
        WebError::BadRequest(m) => m,
        other => panic!("expected a bad request, got {:?}", other),
    }
}

fn oidc(secret: Option<&str>) -> OidcConfig {
    OidcConfig {
        enabled: true,
        issuer_url: Some("https://id.example/realm/".to_string()),
        client_id: Some("midden".to_string()),
        client_secret: secret.map(str::to_string),
        redirect_url: None,
        allowed_domains: Vec::new(),
        allowed_groups: Vec::new(),
        groups_claim: None,
        role_claim: None,
        role_mappings: Vec::new(),
    }
}

fn url_config(block_private_ips: bool) -> UrlUploadConfig {
    UrlUploadConfig {
        block_private_ips,
        max_redirects: 3,
        connect_timeout_seconds: 5,
        request_timeout_seconds: 30,
        max_response_bytes: None,
        allowed_ports: Vec::new(),
        blocked_ports: Vec::new(),
        user_agent: None,
        allowed_hosts: Vec::new(),
        blocked_hosts: Vec::new(),
    }
}

#[test]
fn oidc_requests_carry_the_client_settings() {
    let params = authorization_params(&oidc(None), "https://app/cb", "st", "nn");
    let names: Vec<&str> = params.iter().map(|(k, _)| *k).collect();
    assert_eq!(names, ["response_type", "client_id", "redirect_uri", "scope", "state", "nonce"]);
    assert_eq!(params[1].1, "midden");
    assert_eq!(params[3].1, "openid email profile");
    assert_eq!(params[5].1, "nn");

    let form = token_request_form(&oidc(None), "c0de", "https://app/cb");
    assert_eq!(form.len(), 4);
    assert_eq!(form[0], ("grant_type", "authorization_code".to_string()));
    assert_eq!(form[1], ("code", "c0de".to_string()));
    let form = token_request_form(&oidc(Some("s3cret")), "c0de", "https://app/cb");
    assert_eq!(form.last().unwrap(), &("client_secret", "s3cret".to_string()));

    assert_eq!(
        discovery_url(&oidc(None)).unwrap(),
        "https://id.example/realm/.well-known/openid-configuration"
    );
    let mut missing = oidc(None);
    missing.issuer_url = None;
    assert_eq!(message(discovery_url(&missing).unwrap_err()), "OIDC issuer_url is missing");
    assert_eq!(userinfo_endpoint(Some("https://id/u")).unwrap(), "https://id/u");
    assert_eq!(
        message(userinfo_endpoint(None).unwrap_err()),
        "OIDC provider did not advertise userinfo_endpoint"
    );
}

#[test]
fn role_fields_name_a_role() {
    assert_eq!(parse_role_field("moderator").unwrap(), Role::Moderator);
    assert_eq!(parse_role_field("owner").unwrap(), Role::Owner);
    assert_eq!(message(parse_role_field("root").unwrap_err()), "invalid role: root");
}

#[test]
fn url_parts_give_ports_and_file_names() {
    let u = parse_upload_url("https://example.com/a/b/report.pdf").unwrap();
    assert_eq!(port_or_known_default(&u), Some(443));
    assert_eq!(last_path_segment(&u).as_deref(), Some("report.pdf"));
    let u = parse_upload_url("http://example.com:8080/dir/").unwrap();
    assert_eq!(port_or_known_default(&u), Some(8080));
    assert_eq!(last_path_segment(&u), None);
}

#[test]
fn remote_addresses_of_url_uploads_are_checked() {
    let private = IpValue::V4(10, 0, 0, 7);
    let public = IpValue::V4(93, 184, 216, 34);
    assert_eq!(
        message(reject_url_upload_remote_addr(&url_config(true), Some(private)).unwrap_err()),
        "URL resolved to a private or local address"
    );
    assert!(reject_url_upload_remote_addr(&url_config(false), Some(private)).is_ok());
    assert!(reject_url_upload_remote_addr(&url_config(true), Some(public)).is_ok());
    assert!(reject_url_upload_remote_addr(&url_config(true), None).is_ok());
    assert!(reject_private_ip(IpValue::V6(0, 0, 0, 0, 0, 0, 0, 1)).is_err());
    assert!(is_loopback(IpValue::V4(127, 9, 9, 9)));
    assert!(!is_loopback(IpValue::V4(10, 0, 0, 1)));
}

#[test]
fn forwarded_headers_name_their_first_client() {
    assert_eq!(
        forwarded_client_text(None, Some(" 203.0.113.9 , 10.0.0.1")).as_deref(),
        Some("203.0.113.9")
    );
    assert_eq!(
        forwarded_client_text(Some("198.51.100.2"), Some("203.0.113.9")).as_deref(),
        Some("198.51.100.2")
    );
    assert_eq!(forwarded_client_text(Some(" ,x"), None), None);
    assert_eq!(forwarded_client_text(None, None), None);
}

#[test]
fn upload_parts_and_formats_are_recognized() {
    assert_eq!(upload_field("file"), UploadField::File);
    assert_eq!(upload_field("csrf_token"), UploadField::CsrfToken);
    assert_eq!(upload_field("expires"), UploadField::Expires);
    assert_eq!(upload_field("comment"), UploadField::Other);
    assert_eq!(strip_format("image/png"), Some(StripFormat::Png));
    assert_eq!(strip_format("image/jpeg"), Some(StripFormat::Jpeg));
    assert_eq!(strip_format("image/gif"), None);
}

#[test]
fn assets_and_isolated_files_get_their_headers() {
    assert_eq!(disk_asset_content_type("app.css"), "text/css");
    assert_eq!(disk_asset_content_type("blob.unknownext"), "application/octet-stream");
    let plain = file_security_headers(false);
    let isolated = file_security_headers(true);
    assert_eq!(
        plain,
        [
            ("x-content-type-options", "nosniff"),
            ("referrer-policy", "no-referrer"),
            ("cross-origin-resource-policy", "cross-origin"),
        ]
    );
    assert_eq!(isolated.len(), 4);
    assert_eq!(isolated[..3], plain[..]);
    assert_eq!(isolated[3].0, "content-security-policy");
}

#[test]
fn contract_covers_every_v1_route_and_operation() {
    let expected = [
        ("/api/v1/files", Method::Post),
        ("/api/v1/files/{id}", Method::Delete),
        ("/api/v1/pastes", Method::Post),
        ("/api/v1/pastes/{id}", Method::Delete),
        ("/api/v1/me/files", Method::Get),
        ("/api/v1/me/pastes", Method::Get),
        ("/api/v1/claim/{kind}/{id}", Method::Post),
        ("/api/v1/reports", Method::Post),
        ("/api/v1/tokens", Method::Get),
        ("/api/v1/tokens", Method::Post),
        ("/api/v1/tokens/{id}", Method::Delete),
        ("/api/v1/admin/reports", Method::Get),
        ("/api/v1/admin/reports/{id}", Method::Patch),
        ("/api/v1/admin/items/{kind}/{id}", Method::Patch),
        ("/api/v1/admin/search", Method::Get),
    ];
    let ops = operations();
    let mut actual: Vec<(String, Method)> =
        ops.iter().map(|op| (op.route().path(), op.method())).collect();
    let mut wanted: Vec<(String, Method)> =
        expected.iter().map(|(p, m)| (p.to_string(), *m)).collect();
    let key = |e: &(String, Method)| (e.0.clone(), format!("{:?}", e.1));
    actual.sort_by_key(key);
    wanted.sort_by_key(key);
    assert_eq!(actual, wanted);

    let schemas = declared_schemas();
    for op in ops {
        assert!(!op.scope().is_empty());
        let path = op.route().path();
        let responses = op.responses();
        assert!(responses.iter().any(|r| (200..300).contains(&r.status)));
        assert!(responses.iter().any(|r| (400..500).contains(&r.status)));
        for parameter in path.split(['{', '}']).skip(1).step_by(2).filter(|n| !n.is_empty()) {
            assert!(
                op.parameters()
                    .iter()
                    .any(|c| c.name == parameter && c.location == ParamIn::Path && c.required),
                "{path} parameter {parameter}"
            );
        }
        for r in &responses {
            assert!(schemas.contains(&r.schema));
        }
        if let Some(RequestBody::Json(s) | RequestBody::Multipart(s)) = op.request() {
            assert!(schemas.contains(&s));
        }
    }
}
