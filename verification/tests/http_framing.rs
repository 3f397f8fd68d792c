use paper_composer::http::{
    content_length, find_header_end, header_length, http_response, json_response,
    matches_ignore_ascii_case, parse_request, query_param, request_body, request_line,
    request_progress, request_text, route, split_target, status_text, text_response,
    RequestProgress, Route,
};

#[test]
fn header_end_is_the_first_blank_line() {
    assert_eq!(find_header_end(b"GET / HTTP/1.1\r\nHost: x\r\n\r\nbody\r\n\r\n"), Some(23));
    assert_eq!(find_header_end(b"GET / HTTP/1.1\r\nHost: x\r\n"), None);
    assert_eq!(find_header_end(b""), None);
    assert_eq!(find_header_end(b"\r\n\r\n"), Some(0));
}

#[test]
fn content_length_ignores_case_and_takes_the_first_number() {
    assert_eq!(content_length("POST /x HTTP/1.1\r\ncontent-LENGTH:  12 \r\nContent-Length: 3"), 12);
    assert_eq!(content_length("POST /x HTTP/1.1\r\nContent-Length: abc\r\nContent-Length: 7"), 7);
    assert_eq!(content_length("GET / HTTP/1.1\r\nHost: x"), 0);
    assert_eq!(content_length(""), 0);
    assert_eq!(content_length("Content-Length: +5"), 5);
    assert_eq!(content_length("Content-Length: 99999999999999999999999"), 0);
}

#[test]
fn header_lines_and_names() {
    assert_eq!(header_length("Content-Length: 42"), Some(42));
    assert_eq!(header_length("Content-Type: text/plain"), None);
    assert_eq!(header_length("no colon here"), None);
    assert!(matches_ignore_ascii_case("CoNtEnT-LeNgTh", "content-length"));
    assert!(!matches_ignore_ascii_case("content-lengths", "content-length"));
}

#[test]
fn request_progress_waits_for_the_declared_body() {
    let head = b"POST /connect HTTP/1.1\r\nContent-Length: 4\r\n\r\n";
    assert_eq!(request_progress(b"POST /connect HTTP/1.1\r\n"), RequestProgress::Incomplete);
    assert_eq!(request_progress(head), RequestProgress::Incomplete);
    let mut full = head.to_vec();
    full.extend_from_slice(b"abcd");
    assert_eq!(request_progress(&full), RequestProgress::Complete);
    full.extend_from_slice(b"more");
    assert_eq!(request_progress(&full), RequestProgress::Complete);
    assert_eq!(request_progress(b"GET /status HTTP/1.1\r\n\r\n"), RequestProgress::Complete);
    let huge = format!("POST / HTTP/1.1\r\nContent-Length: {}\r\n\r\n", usize::MAX);
    assert_eq!(request_progress(huge.as_bytes()), RequestProgress::TooLong);
}

#[test]
fn request_text_replaces_invalid_bytes() {
    assert_eq!(request_text(b"GET / HTTP/1.1"), "GET / HTTP/1.1");
    assert_eq!(request_text(&[b'a', 0xff, b'b']), "a\u{fffd}b");
}

#[test]
fn request_line_takes_the_first_two_words() {
    assert_eq!(
        request_line("GET /status?x=1 HTTP/1.1\r\nHost: a\r\n\r\n"),
        Some(("GET".to_string(), "/status?x=1".to_string()))
    );
    assert_eq!(request_line("  POST   /connect\r\n"), Some(("POST".to_string(), "/connect".to_string())));
    assert_eq!(request_line("GET\r\n/next HTTP/1.1"), None);
    assert_eq!(request_line(""), None);
}

#[test]
fn split_target_at_the_first_question_mark() {
    assert_eq!(split_target("/summary?folder_id=a?b"), ("/summary".to_string(), "folder_id=a?b".to_string()));
    assert_eq!(split_target("/status"), ("/status".to_string(), String::new()));
    assert_eq!(split_target("?q"), (String::new(), "q".to_string()));
}

#[test]
fn request_body_follows_the_blank_line() {
    assert_eq!(request_body("POST /x HTTP/1.1\r\nA: b\r\n\r\n{\"a\":1}"), "{\"a\":1}");
    assert_eq!(request_body("POST /x HTTP/1.1\r\nA: b\r\n"), "");
    assert_eq!(request_body("P\r\n\r\nx\r\n\r\ny"), "x\r\n\r\ny");
}

#[test]
fn parse_request_reads_every_part() {
    let r = parse_request("GET /summary?folder_id=abc HTTP/1.1\r\nHost: x\r\n\r\n");
    assert_eq!(r.method, "GET");
    assert_eq!(r.path, "/summary");
    assert_eq!(r.query, "folder_id=abc");
    assert_eq!(r.body, "");
    let empty = parse_request("");
    assert_eq!(empty.method, "");
    assert_eq!(empty.path, "");
    assert_eq!(empty.query, "");
}

#[test]
fn routes_match_method_and_path() {
    assert_eq!(route("OPTIONS", "/anything"), Route::Options);
    assert_eq!(route("OPTIONS", ""), Route::Options);
    assert_eq!(route("GET", "/status"), Route::Status);
    assert_eq!(route("GET", "/settings"), Route::Settings);
    assert_eq!(route("POST", "/connect"), Route::Connect);
    assert_eq!(route("POST", "/add-project"), Route::AddProject);
    assert_eq!(route("POST", "/local-add-project"), Route::LocalAddProject);
    assert_eq!(route("POST", "/delete-project"), Route::DeleteProject);
    assert_eq!(route("POST", "/sync-project"), Route::SyncProject);
    assert_eq!(route("GET", "/local-folder-index"), Route::LocalFolderIndex);
    assert_eq!(route("POST", "/save-project"), Route::SaveProject);
    assert_eq!(route("GET", "/colors"), Route::ColorsGet);
    assert_eq!(route("POST", "/colors"), Route::ColorsPost);
    assert_eq!(route("POST", "/open-file"), Route::OpenFile);
    assert_eq!(route("GET", "/startup-sync"), Route::StartupSync);
    assert_eq!(route("POST", "/upload-project"), Route::UploadProject);
    assert_eq!(route("GET", "/summary"), Route::Summary);
    assert_eq!(route("GET", "/folder-index"), Route::FolderIndex);
    assert_eq!(route("POST", "/status"), Route::NotFound);
    assert_eq!(route("get", "/status"), Route::NotFound);
    assert_eq!(route("GET", "/status/"), Route::NotFound);
}

#[test]
fn status_texts() {
    assert_eq!(status_text(200), "OK");
    assert_eq!(status_text(204), "No Content");
    assert_eq!(status_text(400), "Bad Request");
    assert_eq!(status_text(403), "Forbidden");
    assert_eq!(status_text(404), "Not Found");
    assert_eq!(status_text(500), "Internal Server Error");
    assert_eq!(status_text(418), "OK");
}

#[test]
fn http_response_exact_text() {
    let r = http_response(404, "text/plain; charset=utf-8", "no");
    assert_eq!(
        r,
        "HTTP/1.1 404 Not Found\r\nContent-Type: text/plain; charset=utf-8\r\nContent-Length: 2\r\nAccess-Control-Allow-Origin: *\r\nAccess-Control-Allow-Methods: GET, POST, OPTIONS\r\nAccess-Control-Allow-Headers: Content-Type\r\nConnection: close\r\n\r\nno"
    );
}

#[test]
fn response_length_counts_utf8_bytes() {
    let r = json_response(200, "{\"message\":\"已連線\"}");
    assert!(r.starts_with("HTTP/1.1 200 OK\r\nContent-Type: application/json; charset=utf-8\r\n"));
    assert!(r.contains("\r\nContent-Length: 23\r\n"));
    assert!(r.ends_with("\r\n\r\n{\"message\":\"已連線\"}"));
    let empty = text_response(204, "");
    assert!(empty.starts_with("HTTP/1.1 204 No Content\r\nContent-Type: text/plain; charset=utf-8\r\nContent-Length: 0\r\n"));
}

#[test]
fn a_written_response_reads_back_with_its_length_and_body() {
    let body = "資料夾內：JSON 2、PDF 1、影像 0";
    let r = json_response(200, body);
    let bytes = r.as_bytes();
    let end = find_header_end(bytes).unwrap();
    let head = request_text(&bytes[..end]);
    assert_eq!(content_length(&head), body.len());
    assert_eq!(request_body(&r), body);
    assert_eq!(request_progress(bytes), RequestProgress::Complete);
    assert_eq!(request_progress(&bytes[..bytes.len() - 1]), RequestProgress::Incomplete);
}

#[test]
fn query_params_are_decoded_and_the_first_wins() {
    assert_eq!(query_param("folder_id=abc&x=1", "folder_id"), Some("abc".to_string()));
    assert_eq!(query_param("path=%2FUsers%2Fme+docs", "path"), Some("/Users/me docs".to_string()));
    assert_eq!(query_param("a=1&a=2", "a"), Some("1".to_string()));
    assert_eq!(query_param("a=1", "b"), None);
    assert_eq!(query_param("", "a"), None);
    assert_eq!(query_param("flag", "flag"), Some(String::new()));
}
