use paper_composer::config::DriveSettings;
use paper_composer::drive::{
    authorization_url, bearer, code_exchange_form, download_url, drive_file_is_json,
    escape_single_quotes, file_url, find_file_query, find_value, first_file_id,
    list_files_query, list_json_query, missing_code_error, multipart_body, multipart_content_type,
    parse_oauth_code, refresh_form, to_io_error, upload_metadata, upload_request, upload_url,
    with_granted_tokens, with_refreshed_token, DriveErrorKind, DriveFile, GoogleDriveClient,
    GoogleDriveRestClient, GoogleDriveStub, UploadMethod,
};

fn file(id: &str, name: &str, mime: &str) -> DriveFile {
    DriveFile {
        id: id.to_string(),
        name: name.to_string(),
        mime_type: mime.to_string(),
        modified_time: "2024-01-01T00:00:00Z".to_string(),
    }
}

fn pairs(v: &[(&str, &str)]) -> Vec<(String, String)> {
    v.iter().map(|(a, b)| (a.to_string(), b.to_string())).collect()
}

fn client_settings() -> DriveSettings {
    let mut s = DriveSettings::default();
    s.client_id = "cid".to_string();
    s.client_secret = "secret".to_string();
    s
}

#[test]
fn stub_fails_every_transfer_and_lists_nothing() {
    let stub = GoogleDriveStub;
    let e = stub.download_file("id", "/tmp/x").unwrap_err();
    assert_eq!(e.kind, DriveErrorKind::Unsupported);
    assert_eq!(e.message, "Google Drive API is not configured yet");
    let e = stub.upload_to_folder("/tmp/x", "folder", "x.json").unwrap_err();
    assert_eq!(e.kind, DriveErrorKind::Unsupported);
    let e = stub.upload_file_to_folder("/tmp/x", "folder", "x.pdf", "application/pdf").unwrap_err();
    assert_eq!(e.message, "Google Drive API is not configured yet");
    assert!(stub.list_json_files("folder").unwrap().is_empty());
}

#[test]
fn access_token_is_refused_when_blank() {
    let mut s = DriveSettings::default();
    s.access_token = "  \t".to_string();
    let client = GoogleDriveRestClient::new(s.clone());
    let e = client.access_token().unwrap_err();
    assert_eq!(e.kind, DriveErrorKind::PermissionDenied);
    assert_eq!(e.message, "Google Drive is not authenticated");
    s.access_token = "tok".to_string();
    let client = GoogleDriveRestClient::new(s);
    assert_eq!(client.access_token().unwrap(), "tok");
    assert_eq!(client.settings().access_token, "tok");
}

#[test]
fn trash_takes_the_json_files_of_the_listing() {
    let client = GoogleDriveRestClient::new(DriveSettings::default());
    let files = vec![
        file("1", "a.JSON", "text/plain"),
        file("2", "b.pdf", "application/pdf"),
        file("3", "data", "application/json"),
        file("4", "notes.txt", "text/plain"),
    ];
    assert_eq!(client.trash_json_files_in_folder(&files), vec!["1".to_string(), "3".to_string()]);
    assert!(client.trash_json_files_in_folder(&Vec::new()).is_empty());
}

#[test]
fn json_files_by_name_or_type() {
    assert!(drive_file_is_json(&file("1", "Project.Json", "")));
    assert!(drive_file_is_json(&file("1", "x", "application/json")));
    assert!(!drive_file_is_json(&file("1", "x.json.bak", "text/plain")));
}

#[test]
fn find_value_takes_the_first_pair() {
    let p = pairs(&[("a", "1"), ("code", "xyz"), ("code", "other")]);
    assert_eq!(find_value(&p, "code"), Some("xyz".to_string()));
    assert_eq!(find_value(&p, "b"), None);
}

#[test]
fn authorization_url_encodes_every_parameter() {
    let url = authorization_url(&client_settings());
    assert_eq!(
        url,
        "https://accounts.google.com/o/oauth2/v2/auth?client_id=cid&redirect_uri=http%3A%2F%2F127.0.0.1%3A53682%2Foauth&response_type=code&scope=https%3A%2F%2Fwww.googleapis.com%2Fauth%2Fdrive&access_type=offline&prompt=consent"
    );
}

#[test]
fn oauth_code_comes_from_the_redirect_target() {
    assert_eq!(
        parse_oauth_code("GET /oauth?state=1&code=4%2F0Ab+c HTTP/1.1\r\nHost: 127.0.0.1\r\n\r\n"),
        Some("4/0Ab c".to_string())
    );
    assert_eq!(parse_oauth_code("GET /oauth?error=access_denied HTTP/1.1\r\n"), None);
    assert_eq!(parse_oauth_code("GET\r\n"), None);
    assert_eq!(parse_oauth_code(""), None);
}

#[test]
fn token_forms() {
    let s = client_settings();
    assert_eq!(
        code_exchange_form(&s, "abc"),
        pairs(&[
            ("code", "abc"),
            ("client_id", "cid"),
            ("client_secret", "secret"),
            ("redirect_uri", "http://127.0.0.1:53682/oauth"),
            ("grant_type", "authorization_code"),
        ])
    );
    assert_eq!(refresh_form(&s), None);
    let mut r = s.clone();
    r.refresh_token = " ".to_string();
    assert_eq!(refresh_form(&r), None);
    r.refresh_token = "rt".to_string();
    assert_eq!(
        refresh_form(&r),
        Some(pairs(&[
            ("client_id", "cid"),
            ("client_secret", "secret"),
            ("refresh_token", "rt"),
            ("grant_type", "refresh_token"),
        ]))
    );
}

#[test]
fn granted_and_refreshed_tokens() {
    let mut s = client_settings();
    s.refresh_token = "old-refresh".to_string();
    let g = with_granted_tokens(s.clone(), "at".to_string(), None, None, 1000);
    assert_eq!(g.access_token, "at");
    assert_eq!(g.refresh_token, "old-refresh");
    assert_eq!(g.expires_at_epoch, 4600);
    let g = with_granted_tokens(s.clone(), "at2".to_string(), Some("new".to_string()), Some(60), 10);
    assert_eq!(g.refresh_token, "new");
    assert_eq!(g.expires_at_epoch, 70);
    assert_eq!(g.client_id, "cid");
    let r = with_refreshed_token(s, "fresh".to_string(), Some(100), 5);
    assert_eq!(r.access_token, "fresh");
    assert_eq!(r.refresh_token, "old-refresh");
    assert_eq!(r.expires_at_epoch, 105);
}

#[test]
fn request_addresses_and_queries() {
    assert_eq!(bearer("tok"), "Bearer tok");
    assert_eq!(download_url("F1"), "https://www.googleapis.com/drive/v3/files/F1?alt=media");
    assert_eq!(file_url("F1"), "https://www.googleapis.com/drive/v3/files/F1");
    assert_eq!(list_files_query("D"), "'D' in parents and trashed = false");
    assert_eq!(list_json_query("D"), "'D' in parents and trashed = false and name contains '.json'");
    assert_eq!(escape_single_quotes("it's 'x'"), "it\\'s \\'x\\'");
    assert_eq!(
        find_file_query("D", "Bob's.json"),
        "'D' in parents and trashed = false and name = 'Bob\\'s.json'"
    );
}

#[test]
fn first_file_of_a_listing() {
    assert_eq!(first_file_id(&vec![file("a", "x", ""), file("b", "y", "")]), Some("a".to_string()));
    assert_eq!(first_file_id(&Vec::new()), None);
}

#[test]
fn upload_metadata_quotes_names() {
    assert_eq!(upload_metadata("a\"b.json", "folder", true), "{\"name\":\"a\\\"b.json\"}");
    assert_eq!(
        upload_metadata("project.json", "F", false),
        "{\"name\":\"project.json\",\"parents\":[\"F\"]}"
    );
}

#[test]
fn multipart_upload_body() {
    assert_eq!(multipart_content_type(), "multipart/related; boundary=papercomposer-boundary");
    let body = multipart_body("{\"name\":\"x\"}", "application/pdf", &[1, 2, 3]);
    let mut expected = b"--papercomposer-boundary\r\nContent-Type: application/json; charset=UTF-8\r\n\r\n{\"name\":\"x\"}\r\n--papercomposer-boundary\r\nContent-Type: application/pdf\r\n\r\n".to_vec();
    expected.extend_from_slice(&[1, 2, 3]);
    expected.extend_from_slice(b"\r\n--papercomposer-boundary--\r\n");
    assert_eq!(body, expected);
}

#[test]
fn upload_goes_onto_the_existing_file_or_a_new_one() {
    assert_eq!(
        upload_url(&Some("F9".to_string())),
        "https://www.googleapis.com/upload/drive/v3/files/F9?uploadType=multipart"
    );
    assert_eq!(upload_url(&None), "https://www.googleapis.com/upload/drive/v3/files?uploadType=multipart");
}

#[test]
fn uploads_patch_existing_files_and_post_new_ones() {
    let new = upload_request("a.pdf", "F", "application/pdf", &[9], &None);
    assert_eq!(new.method, UploadMethod::Post);
    assert_eq!(new.url, "https://www.googleapis.com/upload/drive/v3/files?uploadType=multipart");
    assert_eq!(new.content_type, "multipart/related; boundary=papercomposer-boundary");
    assert_eq!(new.body, multipart_body("{\"name\":\"a.pdf\",\"parents\":[\"F\"]}", "application/pdf", &[9]));
    let old = upload_request("a.pdf", "F", "application/pdf", &[9], &Some("X1".to_string()));
    assert_eq!(old.method, UploadMethod::Patch);
    assert_eq!(old.url, "https://www.googleapis.com/upload/drive/v3/files/X1?uploadType=multipart");
    assert_eq!(old.body, multipart_body("{\"name\":\"a.pdf\"}", "application/pdf", &[9]));
}

#[test]
fn a_redirect_without_a_code_is_invalid_data() {
    let e = missing_code_error();
    assert_eq!(e.kind, DriveErrorKind::InvalidData);
    assert_eq!(e.message, "OAuth redirect did not contain a code");
}

#[test]
fn other_failures_keep_their_message() {
    let e = to_io_error("timed out");
    assert_eq!(e.kind, DriveErrorKind::Other);
    assert_eq!(e.message, "timed out");
}
