use paper_composer::assets::{is_project_tombstone, DriveAsset};
use paper_composer::bridge::{
    add_project, add_project_failure_reply, add_project_message, adopt_entry, check_entry,
    connect, connect_reply, delete_project, delete_project_reply, deleted_on_drive_error,
    download_target, empty_project_data, error_reply, invalid_request_reply, join_texts,
    local_add_project, local_add_project_reply, local_project_entry, missing_param_error,
    missing_workspace_error, new_project_data, not_a_folder_error, not_a_folder_reply,
    not_found_reply, project_entry, require_authenticated, save_project_local_reply,
    settings_reply, startup_message, startup_syncs, status_reply, sync_failed_reply,
    sync_failure_line, sync_project, tombstone_json, upload_project, upload_project_reply,
    upload_token_check, AddProjectFailure, AddProjectRequest, ConnectAction, ConnectRequest,
    DeleteFailure, DeleteStep, LocalAddProjectRequest, StatusReply, SyncStep,
    added_project_reply, drive_sync_reply, folder_index_message, local_folder_index_message,
    local_sync_reply,
};
use paper_composer::config::DriveSettings;
use paper_composer::drive::DriveErrorKind;
use paper_composer::models::ProjectEntry;
use paper_composer::storage::WorkspaceSettings;

fn check(r: &StatusReply, status: u16, ok: bool, configured: bool, authenticated: bool, message: &str) {
    assert_eq!(r.status, status);
    assert_eq!(r.ok, ok);
    assert_eq!(r.configured, configured);
    assert_eq!(r.authenticated, authenticated);
    assert_eq!(r.message, message);
}

fn entry(id: &str, name: &str, folder: &str, path: &str) -> ProjectEntry {
    project_entry(id, name, folder, path)
}

fn connected() -> DriveSettings {
    let mut s = DriveSettings::default();
    s.client_id = "cid".to_string();
    s.client_secret = "sec".to_string();
    s.refresh_token = "rt".to_string();
    s
}

fn workspace(root: &str) -> WorkspaceSettings {
    WorkspaceSettings { workspace_root: root.to_string() }
}

#[test]
fn status_and_settings_replies() {
    let r = status_reply(&connected(), "/data/drive_settings.json".to_string());
    check(&r, 200, true, true, true, "Bridge ready");
    assert_eq!(r.settings_txt_path, Some("/data/drive_settings.json".to_string()));
    let s = settings_reply(&DriveSettings::default(), &workspace("/ws"), "p".to_string());
    assert!(s.ok);
    assert!(!s.configured);
    assert!(!s.authenticated);
    assert!(!s.has_client_secret);
    assert_eq!(s.scope, "https://www.googleapis.com/auth/drive");
    assert_eq!(s.workspace_root, "/ws");
    assert_eq!(s.message, "已讀取本機 Drive 設定");
    assert_eq!(s.settings_txt_path, "p");
}

#[test]
fn generic_replies() {
    check(&invalid_request_reply("EOF while parsing"), 400, false, false, false, "Invalid request: EOF while parsing");
    check(&not_found_reply(), 404, false, false, false, "Unknown endpoint");
    let e = error_reply("boom");
    check(&e, 500, false, false, false, "boom");
    assert_eq!(e.settings_txt_path, None);
}

#[test]
fn connect_keeps_blank_fields_and_records_the_workspace() {
    let mut kept = DriveSettings::default();
    kept.client_id = "old".to_string();
    kept.client_secret = "s".to_string();
    let req = ConnectRequest {
        client_id: Some("  ".to_string()),
        client_secret: None,
        scope: Some("scope2".to_string()),
        workspace_root: Some("  /Users/me/Papers  ".to_string()),
    };
    let plan = connect(kept, &req);
    assert_eq!(plan.settings.client_id, "old");
    assert_eq!(plan.settings.client_secret, "s");
    assert_eq!(plan.settings.scope, "scope2");
    assert_eq!(plan.workspace.unwrap().workspace_root, "/Users/me/Papers");
    assert!(matches!(plan.action, ConnectAction::Consent));
    let again = connect(plan.settings.clone(), &req);
    assert_eq!(again.settings.client_id, plan.settings.client_id);
    assert_eq!(again.settings.scope, plan.settings.scope);
}

#[test]
fn connect_refuses_without_a_client_and_refreshes_with_a_token() {
    let nothing = ConnectRequest { client_id: None, client_secret: None, scope: None, workspace_root: Some(" ".to_string()) };
    let plan = connect(DriveSettings::default(), &nothing);
    assert!(plan.workspace.is_none());
    match plan.action {
        ConnectAction::Refuse(r) => check(&r, 400, false, false, false, "請填 Client ID 和 Client Secret"),
        _ => panic!("expected a refusal"),
    }
    let plan = connect(connected(), &nothing);
    assert!(matches!(plan.action, ConnectAction::Refresh));
}

#[test]
fn connect_outcomes() {
    let ok = connect_reply(&Ok(connected()), "p".to_string());
    check(&ok, 200, true, true, true, "Google Drive 已連線");
    assert_eq!(ok.settings_txt_path, Some("p".to_string()));
    let err = connect_reply(&Err("denied".to_string()), "p".to_string());
    check(&err, 500, false, true, false, "Google OAuth 失敗：denied");
    assert_eq!(err.settings_txt_path, None);
}

#[test]
fn add_project_checks_in_order() {
    let req = |n: &str, f: &str| AddProjectRequest { project_name: n.to_string(), folder_id: f.to_string() };
    let r = add_project(&req(" ", "F"), &connected(), &workspace("/ws")).unwrap_err();
    check(&r, 400, false, false, false, "專案名稱、Folder ID 不能為空");
    let r = add_project(&req("P", "F"), &DriveSettings::default(), &workspace("/ws")).unwrap_err();
    check(&r, 403, false, true, false, "請先連線 Google Drive");
    let r = add_project(&req("P", "F"), &connected(), &workspace("  ")).unwrap_err();
    check(&r, 400, false, true, true, "請先在 Google Drive 設定中填寫工作區總資料夾");
    let plan = add_project(&req("  My: Paper  ", "F"), &connected(), &workspace(" /ws ")).unwrap();
    assert_eq!(plan.root, "/ws");
    assert_eq!(plan.folder_name, "My_ Paper");
    assert_eq!(plan.local_path, "/ws/My_ Paper");
}

#[test]
fn add_project_failures() {
    let p = "/ws/P";
    check(&add_project_failure_reply(&AddProjectFailure::RootNotCreated("denied".to_string()), p), 500, false, true, true, "無法建立工作區總資料夾: denied");
    check(&add_project_failure_reply(&AddProjectFailure::FolderExists, p), 400, false, true, true, "專案資料夾已存在: /ws/P");
    check(&add_project_failure_reply(&AddProjectFailure::FolderNotCreated("full".to_string()), p), 500, false, true, true, "無法建立本地專案資料夾 /ws/P: full");
    check(&add_project_failure_reply(&AddProjectFailure::FolderMissing, p), 500, false, true, true, "本地專案資料夾建立後仍找不到：/ws/P");
    check(&add_project_failure_reply(&AddProjectFailure::NotSaved("io".to_string()), p), 500, false, true, true, "無法保存項目數據: io");
}

#[test]
fn add_project_messages() {
    assert_eq!(add_project_message("P", "/ws/P", &None), "已建立專案：P（本地：/ws/P）");
    assert_eq!(
        add_project_message("P", "/ws/P", &Some("offline".to_string())),
        "已建立專案：P（本地：/ws/P）；Drive 同步失敗：offline"
    );
}

#[test]
fn new_and_empty_project_data() {
    let d = new_project_data("id", "name", "F", "c".to_string(), "u".to_string());
    assert_eq!(d.project.project_id, "id");
    assert_eq!(d.project.created_at, "c");
    assert_eq!(d.project.updated_at, "u");
    assert!(d.project.sections.is_empty() && d.papers.is_empty() && d.notes.is_empty());
    let e = empty_project_data(&entry("i", "n", "f", "/p"), "now".to_string());
    assert_eq!(e.project.project_name, "n");
    assert_eq!(e.project.folder_id, "f");
    assert_eq!(e.project.created_at, "now");
    assert_eq!(e.project.updated_at, "now");
    assert!(e.algorithms.is_empty() && e.images.is_empty() && e.tables.is_empty());
}

#[test]
fn local_projects() {
    let r = local_add_project(&LocalAddProjectRequest { project_name: "P".to_string(), local_path: "".to_string() }).unwrap_err();
    check(&r, 400, false, false, false, "專案名稱和本地路徑不能為空");
    let p = local_add_project(&LocalAddProjectRequest { project_name: "P".to_string(), local_path: " /a/b ".to_string() }).unwrap();
    assert_eq!(p, "/a/b");
    check(&not_a_folder_reply("/a/b"), 400, false, false, false, "路徑不是資料夾: /a/b");
    let e = local_project_entry("id", "P", "/a/b");
    assert_eq!(e.folder_id, "local:/a/b");
    assert_eq!(e.local_path, "/a/b");
    check(&local_add_project_reply("P", &Ok(())), 200, true, false, false, "已建立本地專案: P");
    check(&local_add_project_reply("P", &Err("io".to_string())), 500, false, false, false, "無法保存項目數據: io");
}

#[test]
fn entries_need_an_id_and_a_folder() {
    assert!(check_entry(&entry("i", "", "", "/p")).is_none());
    check(&check_entry(&entry(" ", "n", "f", "/p")).unwrap(), 400, false, false, false, "缺少 project_id 或 local_path");
    assert!(check_entry(&entry("i", "n", "f", "")).is_some());
}

#[test]
fn deleting_marks_drive_projects_first() {
    assert!(matches!(delete_project(&entry("i", "n", "F1", "/p")), DeleteStep::MarkDriveThenRemoveLocal));
    assert!(matches!(delete_project(&entry("i", "n", "local:/p", "/p")), DeleteStep::RemoveLocal));
    assert!(matches!(delete_project(&entry("i", "n", "  ", "/p")), DeleteStep::RemoveLocal));
    assert!(matches!(delete_project(&entry("", "n", "F1", "/p")), DeleteStep::Refuse(_)));
    check(&delete_project_reply(&Err(DeleteFailure::NotConnected("x".to_string()))), 403, false, true, false, "移除專案需要先連線 Google Drive: x");
    check(&delete_project_reply(&Err(DeleteFailure::MarkNotSent("x".to_string()))), 500, false, true, true, "移除專案失敗，空 JSON 尚未覆蓋 Drive: x");
    check(&delete_project_reply(&Err(DeleteFailure::NotRemoved("x".to_string()))), 500, false, false, false, "移除本地專案資料夾失敗: x");
    check(&delete_project_reply(&Ok(())), 200, true, false, false, "已移除本地專案資料夾，Drive PDF 保留，空 JSON 已覆蓋 Drive");
}

#[test]
fn saving_and_syncing() {
    check(&save_project_local_reply(&Ok(())), 200, true, false, false, "已存到本地專案資料夾");
    check(&save_project_local_reply(&Err("disk".to_string())), 500, false, false, false, "無法保存: disk");
    assert!(matches!(sync_project(&entry("i", "n", "local:/p", "/p")), SyncStep::Local));
    assert!(matches!(sync_project(&entry("i", "n", "F", "/p")), SyncStep::Drive));
    assert!(matches!(sync_project(&entry("i", "n", "", "/p")), SyncStep::Drive));
    assert!(matches!(sync_project(&entry("i", "n", "F", " ")), SyncStep::Refuse(_)));
    check(&sync_failed_reply("gone"), 500, false, true, true, "同步失敗: gone");
}

#[test]
fn uploading() {
    check(&upload_project(&entry("i", "n", "", "/p")).unwrap(), 400, false, true, false, "缺少 project_id、folder_id 或 local_path");
    assert!(upload_project(&entry("i", "n", "F", "/p")).is_none());
    let mut s = DriveSettings::default();
    check(&upload_token_check(&s).unwrap(), 403, false, true, false, "請先連線 Google Drive");
    s.access_token = " ".to_string();
    assert!(upload_token_check(&s).is_none());
    check(&upload_project_reply(&Err("quota".to_string()), "p".to_string()), 500, false, true, true, "上傳失敗: quota");
    let ok = upload_project_reply(&Ok(()), "p".to_string());
    check(&ok, 200, true, true, true, "已儲存本地資料夾並上傳 Drive");
    assert_eq!(ok.settings_txt_path, Some("p".to_string()));
}

#[test]
fn startup() {
    assert!(startup_syncs(&entry("i", "n", "F", "/p"), true));
    assert!(!startup_syncs(&entry("i", "n", "F", "/p"), false));
    assert!(!startup_syncs(&entry("i", "n", "local:/p", "/p"), true));
    assert_eq!(sync_failure_line("P", "offline"), "P: offline");
    assert_eq!(startup_message(3, &Vec::new()), "已掃描並載入 3 個專案");
    assert_eq!(
        startup_message(2, &vec!["A: x".to_string(), "B: y".to_string()]),
        "已載入 2 個專案；同步失敗：A: x; B: y"
    );
    assert_eq!(join_texts(&vec!["a".to_string()], ", "), "a");
    assert_eq!(join_texts(&Vec::new(), ", "), "");
    assert_eq!(join_texts(&vec!["a".to_string(), "".to_string(), "c".to_string()], "/"), "a//c");
}

#[test]
fn authentication_and_errors() {
    let e = require_authenticated(DriveSettings::default()).unwrap_err();
    assert_eq!(e.kind, DriveErrorKind::PermissionDenied);
    assert_eq!(e.message, "請先連線 Google Drive");
    assert_eq!(require_authenticated(connected()).unwrap().refresh_token, "rt");
    let e = missing_param_error("folder_id");
    assert_eq!(e.kind, DriveErrorKind::InvalidInput);
    assert_eq!(e.message, "folder_id 參數缺少");
    let e = not_a_folder_error("/x");
    assert_eq!(e.kind, DriveErrorKind::NotFound);
    assert_eq!(e.message, "路徑不是資料夾: /x");
    assert_eq!(deleted_on_drive_error().message, "Drive project.json 是已刪除標記，略過同步");
    assert_eq!(missing_workspace_error("/w").message, "找不到本地專案資料夾: /w");
}

#[test]
fn drive_files_land_under_safe_names() {
    assert_eq!(download_target("/ws/P", "a/b.pdf"), "/ws/P/a_b.pdf");
    assert_eq!(download_target("/ws/P/", "x.json"), "/ws/P/x.json");
    assert_eq!(download_target("", "x.json"), "x.json");
    assert_eq!(download_target("/ws/P", ".."), "/ws/P/..");
}

#[test]
fn synced_data_takes_the_entry_identity() {
    let data = new_project_data("old", "Old", "F0", "c".to_string(), "u".to_string());
    let d = adopt_entry(data, &entry("new", "New", "F1", "/p"));
    assert_eq!(d.project.project_id, "new");
    assert_eq!(d.project.project_name, "New");
    assert_eq!(d.project.folder_id, "F1");
    assert_eq!(d.project.created_at, "c");
}

#[test]
fn a_written_tombstone_is_recognised() {
    let e = entry("id-1", "My \"P\"", "F1", "/p");
    let t = tombstone_json(&e, "2024-05-01T10:00:00+00:00");
    assert_eq!(
        t,
        "{\n  \"deleted_at\": \"2024-05-01T10:00:00+00:00\",\n  \"folder_id\": \"F1\",\n  \"paper_composer_deleted\": true,\n  \"project_id\": \"id-1\",\n  \"project_name\": \"My \\\"P\\\"\"\n}"
    );
    assert!(is_project_tombstone(&t));
    let value: serde_json::Value = serde_json::from_str(&t).unwrap();
    let expected = serde_json::to_string_pretty(&value).unwrap();
    assert_eq!(t, expected);
}

fn asset(id: &str) -> DriveAsset {
    DriveAsset { id: id.to_string(), name: id.to_string(), modified_time: String::new() }
}

#[test]
fn synced_replies() {
    let e = entry("id", "P", "F", "/ws/P");
    let data = new_project_data("id", "P", "F", "c".to_string(), "u".to_string());
    let r = added_project_reply(e.clone(), data.clone(), vec![asset("a")], Vec::new(), &None);
    assert!(r.ok);
    assert_eq!(r.message, "已建立專案：P（本地：/ws/P）");
    assert_eq!(r.project_id, "id");
    assert_eq!(r.project_entry.local_path, "/ws/P");
    assert_eq!(r.pdfs.len(), 1);
    let r = added_project_reply(e.clone(), data.clone(), Vec::new(), Vec::new(), &Some("x".to_string()));
    assert_eq!(r.message, "已建立專案：P（本地：/ws/P）；Drive 同步失敗：x");
    let r = local_sync_reply(e.clone(), data.clone(), vec![asset("a"), asset("b")], vec![asset("c")]);
    assert_eq!(r.message, "已讀取本地資料夾：PDF 2 個，JSON 1 個");
    assert_eq!(r.jsons[0].id, "c");
    let r = drive_sync_reply(e, data, Vec::new(), vec![asset("c")]);
    assert_eq!(r.message, "同步完成：PDF 0 個，JSON 1 個");
    assert_eq!(r.project_data.project.project_id, "id");
    assert_eq!(folder_index_message(1, 2), "已索引資料夾：PDF 1 個，JSON 2 個");
    assert_eq!(local_folder_index_message(0, 0), "本地資料夾：PDF 0 個，JSON 0 個");
}

#[test]
fn tombstone_strings_are_escaped_as_serde_json_does() {
    let e = entry("i\\d", "a\tb\u{1}é\u{1f}", "F/1", "/p");
    let t = tombstone_json(&e, "now");
    let value: serde_json::Value = serde_json::from_str(&t).unwrap();
    assert_eq!(value["project_name"], "a\tb\u{1}é\u{1f}");
    assert_eq!(value["project_id"], "i\\d");
    assert!(t.contains("\"project_name\": \"a\\tb\\u0001é\\u001f\""));
    assert_eq!(t, serde_json::to_string_pretty(&value).unwrap());
}
