use paper_composer::bridge::{project_entry, AddProjectRequest};
use paper_composer::config::DriveSettings;
use paper_composer::drive::{DriveErrorKind, DriveFile};
use paper_composer::flows::{
    AddAction, AddEvent, AddFlow, DeleteAction, DeleteEvent, DeleteFlow, FirstSync, UploadAction,
    UploadEvent, UploadFlow, WorkspaceSync, WorkspaceSyncAction, WorkspaceSyncEvent,
};
use paper_composer::storage::WorkspaceSettings;

fn token(t: &str) -> DriveSettings {
    let mut s = DriveSettings::default();
    s.access_token = t.to_string();
    s
}

fn file(id: &str, name: &str) -> DriveFile {
    DriveFile { id: id.to_string(), name: name.to_string(), mime_type: String::new(), modified_time: String::new() }
}

#[test]
fn upload_sends_only_after_saving() {
    let e = project_entry("i", "P", "F", "/ws/P");
    let (f, a) = UploadFlow::new().step(&e, UploadEvent::Begin, "p");
    assert!(matches!(a, UploadAction::SaveLocal));
    let (f, a) = f.step(&e, UploadEvent::Saved(true), "p");
    assert!(matches!(a, UploadAction::LoadSettings));
    let (f, a) = f.step(&e, UploadEvent::SettingsLoaded(token("t")), "p");
    assert!(matches!(a, UploadAction::Refresh(ref s) if s.access_token == "t"));
    let (f, a) = f.step(&e, UploadEvent::Refreshed(None), "p");
    assert!(matches!(a, UploadAction::Upload(ref s, false) if s.access_token == "t"));
    let (_, a) = f.step(&e, UploadEvent::Uploaded(Ok(())), "p");
    match a {
        UploadAction::Answer(r) => {
            assert_eq!(r.status, 200);
            assert_eq!(r.settings_txt_path, Some("p".to_string()));
        }
        _ => panic!("expected an answer"),
    }
}

#[test]
fn upload_stops_when_saving_fails_and_refuses_without_token() {
    let e = project_entry("i", "P", "F", "/ws/P");
    let (f, _) = UploadFlow::new().step(&e, UploadEvent::Begin, "p");
    let (f, a) = f.step(&e, UploadEvent::Saved(false), "p");
    assert!(matches!(a, UploadAction::Stop));
    let (_, a) = f.step(&e, UploadEvent::Uploaded(Ok(())), "p");
    assert!(matches!(a, UploadAction::Stop));
    let (f, _) = UploadFlow::new().step(&e, UploadEvent::Begin, "p");
    let (f, _) = f.step(&e, UploadEvent::Saved(true), "p");
    let (_, a) = f.step(&e, UploadEvent::SettingsLoaded(token("")), "p");
    assert!(matches!(a, UploadAction::Answer(ref r) if r.status == 403));
    let bad = project_entry("i", "P", "", "/ws/P");
    let (_, a) = UploadFlow::new().step(&bad, UploadEvent::Begin, "p");
    assert!(matches!(a, UploadAction::Answer(ref r) if r.status == 400));
    let (f, _) = UploadFlow::new().step(&e, UploadEvent::Begin, "p");
    let (f, _) = f.step(&e, UploadEvent::Saved(true), "p");
    let (f, _) = f.step(&e, UploadEvent::SettingsLoaded(token("old")), "p");
    let (f, a) = f.step(&e, UploadEvent::Refreshed(Some(token("new"))), "p");
    assert!(matches!(a, UploadAction::Upload(ref s, true) if s.access_token == "new"));
    let (_, a) = f.step(&e, UploadEvent::Uploaded(Err("quota".to_string())), "p");
    assert!(matches!(a, UploadAction::Answer(ref r) if r.status == 500 && r.message == "上傳失敗: quota"));
}

#[test]
fn deleting_a_drive_project_marks_drive_before_removing() {
    let e = project_entry("i", "P", "F", "/ws/P");
    let (f, a) = DeleteFlow::new().step(&e, DeleteEvent::Begin);
    assert!(matches!(a, DeleteAction::Authenticate));
    let (f, a) = f.step(&e, DeleteEvent::Authenticated(Ok(token("t"))));
    assert!(matches!(a, DeleteAction::WriteMarker));
    let (f, a) = f.step(&e, DeleteEvent::MarkerWritten(Ok("/ws/P/project.json".to_string())));
    assert!(matches!(a, DeleteAction::SendMarker(ref s, ref p) if s.access_token == "t" && p == "/ws/P/project.json"));
    let (f, a) = f.step(&e, DeleteEvent::MarkerSent(Ok(())));
    assert!(matches!(a, DeleteAction::RemoveLocal));
    let (_, a) = f.step(&e, DeleteEvent::Removed(Ok(())));
    assert!(matches!(a, DeleteAction::Answer(ref r) if r.status == 200));
}

#[test]
fn deleting_keeps_the_local_folder_when_drive_is_not_marked() {
    let e = project_entry("i", "P", "F", "/ws/P");
    let (f, _) = DeleteFlow::new().step(&e, DeleteEvent::Begin);
    let (_, a) = f.step(&e, DeleteEvent::Authenticated(Err("no token".to_string())));
    assert!(matches!(a, DeleteAction::Answer(ref r) if r.status == 403));
    let (f, _) = DeleteFlow::new().step(&e, DeleteEvent::Begin);
    let (f, _) = f.step(&e, DeleteEvent::Authenticated(Ok(token("t"))));
    let (f, _) = f.step(&e, DeleteEvent::MarkerWritten(Ok("p".to_string())));
    let (_, a) = f.step(&e, DeleteEvent::MarkerSent(Err("offline".to_string())));
    assert!(matches!(a, DeleteAction::Answer(ref r) if r.status == 500 && r.message == "移除專案失敗，空 JSON 尚未覆蓋 Drive: offline"));
    let local = project_entry("i", "P", "local:/ws/P", "/ws/P");
    let (_, a) = DeleteFlow::new().step(&local, DeleteEvent::Begin);
    assert!(matches!(a, DeleteAction::RemoveLocal));
}

#[test]
fn folder_sync_stops_at_a_deletion_marker() {
    let e = project_entry("i", "P", "F", "/ws/P");
    let (f, a) = WorkspaceSync::new().step(&e, WorkspaceSyncEvent::Begin);
    assert!(matches!(a, WorkspaceSyncAction::MakeFolder));
    let (f, _) = f.step(&e, WorkspaceSyncEvent::FolderMade(true));
    let (f, a) = f.step(&e, WorkspaceSyncEvent::Listed(Some(vec![file("1", "a.pdf"), file("2", "project.json")])));
    assert!(matches!(a, WorkspaceSyncAction::FetchProbe(ref id) if id == "2"));
    let (_, a) = f.step(&e, WorkspaceSyncEvent::ProbeRead(Some("{\"paper_composer_deleted\": true}".to_string())));
    match a {
        WorkspaceSyncAction::Deleted(err) => assert_eq!(err.kind, DriveErrorKind::NotFound),
        _ => panic!("expected the deletion to stop the sync"),
    }
}

#[test]
fn folder_sync_runs_its_steps_in_order() {
    let e = project_entry("i", "P", "F", "/ws/P");
    let (f, _) = WorkspaceSync::new().step(&e, WorkspaceSyncEvent::Begin);
    let (f, _) = f.step(&e, WorkspaceSyncEvent::FolderMade(true));
    let (f, a) = f.step(&e, WorkspaceSyncEvent::Listed(Some(vec![file("1", "a.pdf")])));
    assert!(matches!(a, WorkspaceSyncAction::FetchFiles(ref v) if v.len() == 1));
    let (f, a) = f.step(&e, WorkspaceSyncEvent::Fetched(true));
    assert!(matches!(a, WorkspaceSyncAction::LoadData));
    let (f, a) = f.step(&e, WorkspaceSyncEvent::Loaded(None, "now".to_string()));
    match &a {
        WorkspaceSyncAction::SaveData(d) => {
            assert_eq!(d.project.project_id, "i");
            assert_eq!(d.project.created_at, "now");
        }
        _ => panic!("expected the data to be saved"),
    }
    let (f, a) = f.step(&e, WorkspaceSyncEvent::Saved(true));
    assert!(matches!(a, WorkspaceSyncAction::UploadFolder));
    let (f, a) = f.step(&e, WorkspaceSyncEvent::Uploaded(true));
    assert!(matches!(a, WorkspaceSyncAction::CollectAssets));
    let (_, a) = f.step(&e, WorkspaceSyncEvent::Collected(true));
    assert!(matches!(a, WorkspaceSyncAction::Finish));
    let (f, _) = WorkspaceSync::new().step(&e, WorkspaceSyncEvent::Begin);
    let (_, a) = f.step(&e, WorkspaceSyncEvent::FolderMade(false));
    assert!(matches!(a, WorkspaceSyncAction::Fail));
}

fn begin(root: &str) -> AddEvent {
    let mut s = DriveSettings::default();
    s.refresh_token = "r".to_string();
    AddEvent::Begin(
        s,
        WorkspaceSettings { workspace_root: root.to_string() },
        "id-1".to_string(),
        "c".to_string(),
        "u".to_string(),
    )
}

#[test]
fn adding_a_project_writes_into_a_new_folder_only() {
    let req = AddProjectRequest { project_name: "My/P".to_string(), folder_id: "F".to_string() };
    let (f, a) = AddFlow::new().step(&req, begin(" /ws "));
    assert!(matches!(a, AddAction::MakeRoot(ref r) if r == "/ws"));
    let (f, a) = f.step(&req, AddEvent::RootMade(Ok(())));
    assert!(matches!(a, AddAction::CheckExisting(ref p) if p == "/ws/My_P"));
    let (f, a) = f.step(&req, AddEvent::Existing(false));
    assert!(matches!(a, AddAction::MakeFolder(_)));
    let (f, a) = f.step(&req, AddEvent::FolderMade(Ok(())));
    assert!(matches!(a, AddAction::CheckDir(_)));
    let (f, a) = f.step(&req, AddEvent::IsDir(true));
    match &a {
        AddAction::Save(e, d) => {
            assert_eq!(e.local_path, "/ws/My_P");
            assert_eq!(e.project_id, "id-1");
            assert_eq!(d.project.created_at, "c");
        }
        _ => panic!("expected the project to be saved"),
    }
    let (f, a) = f.step(&req, AddEvent::Saved(Ok(())));
    assert!(matches!(a, AddAction::Sync(_)));
    let (_, a) = f.step(&req, AddEvent::Synced(FirstSync::Failed("offline".to_string())));
    match a {
        AddAction::Added(r) => {
            assert!(r.ok);
            assert_eq!(r.message, "已建立專案：My/P（本地：/ws/My_P）；Drive 同步失敗：offline");
            assert_eq!(r.project_data.project.project_id, "id-1");
        }
        _ => panic!("expected the project to be added"),
    }
}

#[test]
fn adding_refuses_an_existing_project_folder() {
    let req = AddProjectRequest { project_name: "P".to_string(), folder_id: "F".to_string() };
    let (f, _) = AddFlow::new().step(&req, begin("/ws"));
    let (f, _) = f.step(&req, AddEvent::RootMade(Ok(())));
    let (_, a) = f.step(&req, AddEvent::Existing(true));
    assert!(matches!(a, AddAction::Answer(ref r) if r.status == 400 && r.message == "專案資料夾已存在: /ws/P"));
    let (_, a) = AddFlow::new().step(&req, begin(" "));
    assert!(matches!(a, AddAction::Answer(ref r) if r.status == 400));
}
