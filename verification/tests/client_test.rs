use loco_cli::client::endpoints::{ExportParams, ImportParams};
use loco_cli::client::{
    is_success_status, status_error, status_needs_body, HttpMethod, LocoClient, RequestBody,
    INVALID_KEY_MESSAGE,
};
use loco_cli::error::{is_conflict, LocoError};
use loco_cli::models::CreateAssetRequest;

const SERVER: &str = "http://127.0.0.1:8080";

fn make_client() -> LocoClient {
    LocoClient::new("test-key", SERVER).expect("build client")
}

fn pairs(v: &[(&str, &str)]) -> Vec<(String, String)> {
    v.iter().map(|(a, b)| (a.to_string(), b.to_string())).collect()
}

fn form_of(body: &RequestBody) -> Vec<(String, String)> {
    match body {
        RequestBody::Form(f) => f.clone(),
        other => panic!("expected a form body, got {other:?}"),
    }
}

#[test]
fn check_response_200_passes_through() {
    assert!(is_success_status(200));
    assert!(!status_needs_body(200));
}

#[test]
fn check_response_401_unauthorized() {
    assert!(!is_success_status(401));
    assert!(!status_needs_body(401));
    let err = status_error(401, String::new(), None);
    assert!(matches!(err, LocoError::Unauthorized));
}

#[test]
fn check_response_404_not_found() {
    assert!(status_needs_body(404));
    let err = status_error(404, "gone".to_string(), None);
    assert!(matches!(err, LocoError::NotFound(_)));
    match err {
        LocoError::NotFound(body) => assert_eq!(body, "gone"),
        _ => panic!("expected NotFound"),
    }
}

#[test]
fn check_response_429_rate_limited() {
    assert!(!status_needs_body(429));
    let err = status_error(429, String::new(), None);
    assert!(matches!(err, LocoError::RateLimited));
}

#[test]
fn other_status_uses_api_message_then_body() {
    let err = status_error(409, "{\"status\":409,\"error\":\"Asset already exists\"}".to_string(), Some("Asset already exists".to_string()));
    match &err {
        LocoError::Api { status, message } => {
            assert_eq!(*status, 409);
            assert_eq!(message, "Asset already exists");
        }
        _ => panic!("expected Api"),
    }
    assert!(is_conflict(&err));
    let err = status_error(500, "boom".to_string(), None);
    match &err {
        LocoError::Api { status, message } => {
            assert_eq!(*status, 500);
            assert_eq!(message, "boom");
        }
        _ => panic!("expected Api"),
    }
    assert!(!is_conflict(&err));
}

#[test]
fn success_range_is_2xx() {
    assert!(is_success_status(204));
    assert!(is_success_status(299));
    assert!(!is_success_status(199));
    assert!(!is_success_status(300));
    assert!(status_needs_body(300));
}

#[test]
fn new_client_trims_trailing_slashes() {
    let client = LocoClient::new("k", "http://localhost:1/api///").unwrap();
    assert_eq!(client.url("/tags"), "http://localhost:1/api/tags");
    let client = LocoClient::new("k", "http://localhost:1/api").unwrap();
    assert_eq!(client.url("/tags"), "http://localhost:1/api/tags");
}

#[test]
fn new_client_refuses_key_with_control_character() {
    let result = LocoClient::new("bad\nkey", SERVER);
    match result {
        Err(LocoError::Config(msg)) => assert_eq!(msg, INVALID_KEY_MESSAGE),
        _ => panic!("expected a configuration error"),
    }
    assert!(LocoClient::new("tab\tkey", SERVER).is_ok());
    assert!(LocoClient::new("clé-ünïcode", SERVER).is_ok());
    assert!(matches!(LocoClient::new("del\u{7f}", SERVER), Err(LocoError::Config(_))));
}

#[test]
fn list_assets_request_carries_filter() {
    let client = make_client();
    let r = client.list_assets_request(None);
    assert_eq!(r.method, HttpMethod::Get);
    assert_eq!(r.url, "http://127.0.0.1:8080/assets");
    assert!(r.query.is_empty());
    let r = client.list_assets_request(Some("mobile"));
    assert_eq!(r.query, pairs(&[("filter", "mobile")]));
}

#[test]
fn strings_add() {
    let client = make_client();
    let req = CreateAssetRequest {
        id: "newkey".to_string(),
        text: None,
        context: None,
        notes: None,
        asset_type: None,
    };
    let r = client.create_asset_request(&req);
    assert_eq!(r.method, HttpMethod::Post);
    assert_eq!(r.url, "http://127.0.0.1:8080/assets");
    assert_eq!(form_of(&r.body), pairs(&[("id", "newkey")]));
}

#[test]
fn create_asset_form_keeps_field_order() {
    let req = CreateAssetRequest {
        id: "welcome.title".to_string(),
        text: Some("Welcome".to_string()),
        context: None,
        notes: Some("Homepage heading".to_string()),
        asset_type: Some("text".to_string()),
    };
    assert_eq!(
        req.form_fields(),
        pairs(&[
            ("id", "welcome.title"),
            ("text", "Welcome"),
            ("notes", "Homepage heading"),
            ("type", "text")
        ])
    );
}

#[test]
fn strings_delete() {
    let r = make_client().delete_asset_request("mykey");
    assert_eq!(r.headers[0], ("Authorization".to_string(), "Loco test-key".to_string()));
    assert_eq!(r.method, HttpMethod::Delete);
    assert_eq!(r.url, "http://127.0.0.1:8080/assets/mykey.json");
}

#[test]
fn strings_tag() {
    let r = make_client().tag_asset_request("mykey", "mytag");
    assert_eq!(r.method, HttpMethod::Post);
    assert_eq!(r.url, "http://127.0.0.1:8080/assets/mykey/tags");
    assert_eq!(form_of(&r.body), pairs(&[("name", "mytag")]));
}

#[test]
fn strings_untag() {
    let r = make_client().untag_asset_request("mykey", "mytag");
    assert_eq!(r.method, HttpMethod::Delete);
    assert_eq!(r.url, "http://127.0.0.1:8080/assets/mykey/tags/mytag.json");
}

#[test]
fn strings_set() {
    let r = make_client().set_translation_request("mykey", "en", "Hello world");
    assert_eq!(r.method, HttpMethod::Post);
    assert_eq!(r.url, "http://127.0.0.1:8080/translations/mykey/en");
    assert!(matches!(&r.body, RequestBody::Text(t) if t == "Hello world"));
}

#[test]
fn strings_set_with_create() {
    let err = status_error(409, "{}".to_string(), Some("Asset already exists".to_string()));
    assert!(is_conflict(&err));
    let r = make_client().set_translation_request("mykey", "en", "Updated");
    assert_eq!(r.url, "http://127.0.0.1:8080/translations/mykey/en");
    assert!(matches!(&r.body, RequestBody::Text(t) if t == "Updated"));
}

#[test]
fn auth_verify_success() {
    let client = LocoClient::new("test-key-abc123", SERVER).unwrap();
    let r = client.auth_verify_request();
    assert_eq!(r.method, HttpMethod::Get);
    assert_eq!(r.url, "http://127.0.0.1:8080/auth/verify");
    assert_eq!(
        r.headers,
        pairs(&[("Authorization", "Loco test-key-abc123"), ("User-Agent", "loco-cli/0.1.0")])
    );
}

#[test]
fn auth_verify_invalid_key() {
    let err = status_error(401, String::new(), None);
    assert!(matches!(err, LocoError::Unauthorized));
    assert_eq!(loco_cli::error::exit_code_for(Some(&err)), 2);
}

#[test]
fn locales_create() {
    let r = make_client().create_locale_request("ja");
    assert_eq!(r.method, HttpMethod::Post);
    assert_eq!(r.url, "http://127.0.0.1:8080/locales");
    assert_eq!(form_of(&r.body), pairs(&[("code", "ja")]));
}

#[test]
fn locales_delete() {
    let r = make_client().delete_locale_request("ja");
    assert_eq!(r.method, HttpMethod::Delete);
    assert_eq!(r.url, "http://127.0.0.1:8080/locales/ja");
}

#[test]
fn locale_and_tag_reads() {
    let client = make_client();
    assert_eq!(client.list_locales_request().url, "http://127.0.0.1:8080/locales");
    assert_eq!(client.get_locale_request("fr").url, "http://127.0.0.1:8080/locales/fr");
    assert_eq!(client.list_tags_request().url, "http://127.0.0.1:8080/tags");
    assert_eq!(client.get_asset_request("mykey").url, "http://127.0.0.1:8080/assets/mykey.json");
    assert_eq!(
        client.get_translations_request("mykey").url,
        "http://127.0.0.1:8080/translations/mykey.json"
    );
    assert_eq!(
        client.import_progress_request("job-123").url,
        "http://127.0.0.1:8080/import/progress/job-123"
    );
}

#[test]
fn tags_create() {
    let r = make_client().create_tag_request("release");
    assert_eq!(r.method, HttpMethod::Post);
    assert_eq!(r.url, "http://127.0.0.1:8080/tags");
    assert_eq!(form_of(&r.body), pairs(&[("name", "release")]));
}

#[test]
fn tags_rename() {
    let r = make_client().rename_tag_request("old-name", "new-name");
    assert_eq!(r.method, HttpMethod::Patch);
    assert_eq!(r.url, "http://127.0.0.1:8080/tags/old-name.json");
    assert!(matches!(&r.body, RequestBody::Json(f) if *f == pairs(&[("name", "new-name")])));
}

#[test]
fn tags_delete() {
    let r = make_client().delete_tag_request("obsolete");
    assert_eq!(r.method, HttpMethod::Delete);
    assert_eq!(r.url, "http://127.0.0.1:8080/tags/obsolete.json");
}

#[test]
fn strings_get_locale() {
    let r = make_client().get_translation_request("welcome.title", "en");
    assert_eq!(r.method, HttpMethod::Get);
    assert_eq!(r.url, "http://127.0.0.1:8080/translations/welcome.title/en");
}

#[test]
fn strings_set_translation() {
    let r = make_client().set_translation_request("welcome.title", "fr", "Bienvenue");
    assert_eq!(r.method, HttpMethod::Post);
    assert_eq!(r.url, "http://127.0.0.1:8080/translations/welcome.title/fr");
    assert!(matches!(&r.body, RequestBody::Text(t) if t == "Bienvenue"));
}

#[test]
fn strings_rm() {
    let r = make_client().delete_translation_request("welcome.title", "fr");
    assert_eq!(r.method, HttpMethod::Delete);
    assert_eq!(r.url, "http://127.0.0.1:8080/translations/welcome.title/fr");
}

#[test]
fn strings_flag() {
    let r = make_client().flag_translation_request("welcome.title", "en", None);
    assert_eq!(r.method, HttpMethod::Post);
    assert_eq!(r.url, "http://127.0.0.1:8080/translations/welcome.title/en/flag");
    assert!(matches!(r.body, RequestBody::Empty));
}

#[test]
fn strings_flag_with_value() {
    let r = make_client().flag_translation_request("welcome.title", "en", Some("needs-review"));
    assert_eq!(r.url, "http://127.0.0.1:8080/translations/welcome.title/en/flag");
    assert_eq!(form_of(&r.body), pairs(&[("flag", "needs-review")]));
}

#[test]
fn strings_unflag() {
    let r = make_client().unflag_translation_request("welcome.title", "en");
    assert_eq!(r.method, HttpMethod::Delete);
    assert_eq!(r.url, "http://127.0.0.1:8080/translations/welcome.title/en/flag");
}

#[test]
fn export_requests_carry_options() {
    let client = make_client();
    let params = ExportParams {
        format: Some("json".to_string()),
        filter: Some("mobile".to_string()),
        status: None,
        index: Some("id".to_string()),
    };
    let r = client.export_locale_request("en", "json", &params);
    assert_eq!(r.url, "http://127.0.0.1:8080/export/locale/en.json");
    assert_eq!(r.query, pairs(&[("format", "json"), ("filter", "mobile"), ("index", "id")]));
    let r = client.export_archive_request("json", &params);
    assert_eq!(r.url, "http://127.0.0.1:8080/export/archive/json.zip");
    assert_eq!(r.query, pairs(&[("format", "json"), ("filter", "mobile")]));
    let r = client.export_all_request("po", &params);
    assert_eq!(r.url, "http://127.0.0.1:8080/export/all.po");
    assert_eq!(r.query, pairs(&[("format", "json"), ("filter", "mobile")]));
}

#[test]
fn push_file_success() {
    let r = make_client().import_file_request(ImportParams {
        ext: "json",
        body: b"{\"hello\":\"world\"}".to_vec(),
        locale: None,
        index: None,
        format: None,
        tag_new: None,
        is_async: false,
    });
    assert_eq!(r.method, HttpMethod::Post);
    assert_eq!(r.url, "http://127.0.0.1:8080/import/json");
    assert!(r.query.is_empty());
    assert!(matches!(&r.body, RequestBody::Bytes(b) if b.as_slice() == b"{\"hello\":\"world\"}"));
}

#[test]
fn push_with_async_flag() {
    let r = make_client().import_file_request(ImportParams {
        ext: "json",
        body: b"{\"key\":\"val\"}".to_vec(),
        locale: Some("en"),
        index: Some("id"),
        format: Some("json"),
        tag_new: Some("v2"),
        is_async: true,
    });
    assert_eq!(
        r.query,
        pairs(&[
            ("locale", "en"),
            ("index", "id"),
            ("format", "json"),
            ("tag-new", "v2"),
            ("async", "1")
        ])
    );
}

#[test]
fn pull_single_locale() {
    let params = ExportParams {
        format: Some("json".to_string()),
        filter: None,
        status: None,
        index: None,
    };
    let r = make_client().export_locale_request("en", "json", &params);
    assert_eq!(r.method, HttpMethod::Get);
    assert_eq!(r.url, "http://127.0.0.1:8080/export/locale/en.json");
    assert_eq!(
        loco_cli::commands::pull::resolve_path("/tmp/out/{locale}.{format}", "en", "json"),
        "/tmp/out/en.json"
    );
}
