use paper_composer::assets::{
    collect_local_assets, counts_message, drive_file_is_pdf, index_local_files,
    is_internal_workspace_file, is_local_pdf_file, is_project_tombstone, json_files,
    json_scratch_name, local_asset_kind, modified_time_text, pdf_assets, project_json_probe,
    sanitize_filename, should_download, sort_assets, summarize_folder,
    upload_type, DriveAsset, LocalAssetKind, LocalFile,
};
use paper_composer::drive::DriveFile;

fn file(id: &str, name: &str, mime: &str) -> DriveFile {
    DriveFile {
        id: id.to_string(),
        name: name.to_string(),
        mime_type: mime.to_string(),
        modified_time: format!("t-{id}"),
    }
}

fn local(path: &str, name: &str, is_file: bool, header: Option<&[u8]>) -> LocalFile {
    LocalFile {
        path: path.to_string(),
        name: name.to_string(),
        is_file,
        header: header.map(|h| h.to_vec()),
        modified_secs: None,
    }
}

fn names(v: &[DriveAsset]) -> Vec<String> {
    v.iter().map(|a| a.name.clone()).collect()
}

#[test]
fn sanitize_replaces_forbidden_characters() {
    assert_eq!(sanitize_filename("a/b\\c:d*e?f\"g<h>i|j"), "a_b_c_d_e_f_g_h_i_j");
    assert_eq!(sanitize_filename("論文 草稿.pdf"), "論文 草稿.pdf");
    assert_eq!(sanitize_filename(""), "");
    let once = sanitize_filename("x:/y");
    assert_eq!(sanitize_filename(&once), once);
}

#[test]
fn scratch_files_are_internal() {
    assert!(is_internal_workspace_file(".paper_composer_project_probe.json"));
    assert!(!is_internal_workspace_file("paper_composer_x"));
    assert!(!is_internal_workspace_file(".paper_composer"));
}

#[test]
fn local_pdfs_by_name_or_content() {
    assert!(is_local_pdf_file("Paper.PDF", &None));
    assert!(is_local_pdf_file("scan", &Some(b"%PDF-".to_vec())));
    assert!(!is_local_pdf_file("scan", &Some(b"%PDX-".to_vec())));
    assert!(!is_local_pdf_file("scan", &None));
    assert!(!is_local_pdf_file("notes.txt", &Some(b"%PDF".to_vec())));
}

#[test]
fn drive_pdfs_by_name_or_type() {
    assert!(drive_file_is_pdf(&file("1", "A.Pdf", "")));
    assert!(drive_file_is_pdf(&file("1", "x", "application/pdf")));
    assert!(!drive_file_is_pdf(&file("1", "x.json", "application/json")));
}

#[test]
fn downloads_skip_existing_pdfs_and_the_own_project_json() {
    let pdf = file("1", "a.pdf", "application/pdf");
    assert!(should_download(&pdf, false));
    assert!(!should_download(&pdf, true));
    let json = file("2", "material.json", "application/json");
    assert!(should_download(&json, false));
    assert!(should_download(&json, true));
    let project = file("3", "project.json", "application/json");
    assert!(should_download(&project, false));
    assert!(!should_download(&project, true));
    let other = file("4", "image.png", "image/png");
    assert!(!should_download(&other, false));
}

#[test]
fn probe_finds_the_first_project_json() {
    let files = vec![file("1", "a.json", ""), file("2", "project.json", ""), file("3", "project.json", "")];
    assert_eq!(project_json_probe(&files), Some("2".to_string()));
    assert_eq!(project_json_probe(&vec![file("1", "Project.json", "")]), None);
}

#[test]
fn uploads_follow_the_sync_rules() {
    let json = Some("application/json; charset=UTF-8".to_string());
    assert_eq!(upload_type("project.json", false), json);
    assert_eq!(upload_type("Project.JSON", false), json);
    assert_eq!(upload_type(".paper_composer_probe.json", false), None);
    assert_eq!(upload_type(".paper_composer_x.pdf", true), None);
    assert_eq!(upload_type("old.json", false), json);
    assert_eq!(upload_type("paper.pdf", true), Some("application/pdf".to_string()));
    assert_eq!(upload_type("scan", true), Some("application/pdf".to_string()));
    assert_eq!(upload_type("notes.txt", false), None);
}

#[test]
fn local_listing_kinds() {
    assert_eq!(local_asset_kind(".paper_composer_x.pdf", true), LocalAssetKind::Skip);
    assert_eq!(local_asset_kind("a.bin", true), LocalAssetKind::Pdf);
    assert_eq!(local_asset_kind("A.JSON", false), LocalAssetKind::Json);
    assert_eq!(local_asset_kind("a.txt", false), LocalAssetKind::Skip);
}

#[test]
fn drive_listing_pdfs_and_jsons() {
    let files = vec![
        file("1", "b.pdf", ""),
        file("2", "a.json", ""),
        file("3", "c", "application/pdf"),
        file("4", "d.txt", ""),
    ];
    let pdfs = pdf_assets(&files);
    assert_eq!(pdfs.len(), 2);
    assert_eq!(pdfs[0].id, "1");
    assert_eq!(pdfs[1].name, "c");
    assert_eq!(pdfs[1].modified_time, "t-3");
    let jsons = json_files(&files);
    assert_eq!(jsons.len(), 1);
    assert_eq!(jsons[0].id, "2");
    assert_eq!(json_scratch_name("a:b.json"), "a_b.json.json");
}

#[test]
fn folder_summary_counts() {
    let files = vec![
        file("1", "a.json", ""),
        file("2", "b.pdf", ""),
        file("3", "c.png", "image/png"),
        file("4", "d", "application/json"),
        file("5", "e.txt", ""),
    ];
    let s = summarize_folder(&files);
    assert!(s.ok);
    assert_eq!(s.total, 5);
    assert_eq!(s.json_count, 2);
    assert_eq!(s.pdf_count, 1);
    assert_eq!(s.image_count, 1);
    assert_eq!(s.other_count, 1);
    assert_eq!(s.message, "資料夾內：JSON 2、PDF 1、影像 1");
    let none = summarize_folder(&vec![file("1", "x.PDF", "application/pdf")]);
    assert_eq!(none.message, "資料夾內：PDF 1、JSON 0、影像 0；尚無 project.json");
    let twice = summarize_folder(&vec![file("1", "x.json", "application/pdf")]);
    assert_eq!(twice.json_count + twice.pdf_count, 2);
    assert_eq!(twice.other_count, 0);
}

#[test]
fn count_messages() {
    assert_eq!(counts_message("同步完成：", 3, 0), "同步完成：PDF 3 個，JSON 0 個");
}

#[test]
fn modification_times_in_rfc3339() {
    assert_eq!(modified_time_text(Some(0)), "1970-01-01T00:00:00+00:00");
    assert_eq!(modified_time_text(Some(86400)), "1970-01-02T00:00:00+00:00");
    assert_eq!(modified_time_text(None), "");
    assert_eq!(modified_time_text(Some(u64::MAX)), "1969-12-31T23:59:59+00:00");
    assert_eq!(modified_time_text(Some(i64::MAX as u64)), "");
}

#[test]
fn tombstones_are_marked_project_files() {
    assert!(is_project_tombstone("{\"paper_composer_deleted\": true, \"project_id\": \"p\"}"));
    assert!(!is_project_tombstone("{\"paper_composer_deleted\": false}"));
    assert!(!is_project_tombstone("{\"paper_composer_deleted\": \"true\"}"));
    assert!(!is_project_tombstone("{\"project\": {}}"));
    assert!(!is_project_tombstone("not json"));
    assert!(!is_project_tombstone("[true]"));
}

#[test]
fn local_index_keeps_found_order_and_skips_folders_and_scratch() {
    let files = vec![
        local("/w/b.pdf", "b.pdf", true, None),
        local("/w/sub", "sub.json", false, None),
        local("/w/.paper_composer_probe.json", ".paper_composer_probe.json", true, None),
        local("/w/a.json", "a.json", true, Some(b"{}")),
        local("/w/scan", "scan", true, Some(b"%PDF-")),
        local("/w/readme", "readme", true, Some(b"hello")),
    ];
    let (pdfs, jsons) = index_local_files(&files);
    assert_eq!(names(&pdfs), vec!["b.pdf".to_string(), "scan".to_string()]);
    assert_eq!(pdfs[1].id, "/w/scan");
    assert_eq!(pdfs[1].modified_time, "");
    assert_eq!(names(&jsons), vec!["a.json".to_string()]);
}

#[test]
fn collected_assets_are_sorted_by_name() {
    let mut files = vec![
        local("/w/z.pdf", "z.pdf", true, None),
        local("/w/B.pdf", "B.pdf", true, None),
        local("/w/a.pdf", "a.pdf", true, None),
        local("/w/m.json", "m.json", true, None),
        local("/w/c.json", "c.json", true, None),
    ];
    files[0].modified_secs = Some(0);
    let (pdfs, jsons) = collect_local_assets(&files);
    assert_eq!(names(&pdfs), vec!["B.pdf".to_string(), "a.pdf".to_string(), "z.pdf".to_string()]);
    assert_eq!(pdfs[2].modified_time, "1970-01-01T00:00:00+00:00");
    assert_eq!(names(&jsons), vec!["c.json".to_string(), "m.json".to_string()]);
}

#[test]
fn sorting_assets_is_stable() {
    let a = |id: &str, name: &str| DriveAsset {
        id: id.to_string(),
        name: name.to_string(),
        modified_time: String::new(),
    };
    let sorted = sort_assets(vec![a("1", "b"), a("2", "a"), a("3", "b"), a("4", "a")]);
    let ids: Vec<String> = sorted.iter().map(|x| x.id.clone()).collect();
    assert_eq!(ids, vec!["2", "4", "1", "3"]);
}
