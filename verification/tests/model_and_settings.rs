use std::collections::BTreeMap;

use paper_composer::config::{drive_settings_path, DriveSettings, DEFAULT_REDIRECT_PORT};
use paper_composer::models::{
    BlockType, Library, Material, Project, ProjectData, ProjectEntry, SectionType, SortOrder,
};
use paper_composer::numeric::{decimal_text, parse_usize};
use paper_composer::order::{permute, reversed, stable_order, text_less};
use paper_composer::paths::first_existing;
use paper_composer::storage::{
    default_data_dir, project_json_path, project_workspace_dir, workspace_projects,
    workspace_settings_path, WorkspaceSettings,
};
use paper_composer::text::{blank, chars_of, ends_with, is_white_space_char, starts_with, string_of, text_eq, trim};

fn material(id: &str, kind: BlockType) -> Material {
    Material {
        id: id.to_string(),
        kind,
        name: format!("m-{id}"),
        fields: BTreeMap::new(),
        metadata: BTreeMap::new(),
        file_path: String::new(),
        created_at: String::new(),
        updated_at: String::new(),
    }
}

fn project_data(id: &str, name: &str) -> ProjectData {
    ProjectData {
        project: Project {
            project_id: id.to_string(),
            project_name: name.to_string(),
            folder_id: format!("F-{id}"),
            sections: Vec::new(),
            created_at: String::new(),
            updated_at: String::new(),
        },
        papers: Vec::new(),
        algorithms: Vec::new(),
        images: Vec::new(),
        tables: Vec::new(),
        notes: Vec::new(),
    }
}

#[test]
fn section_and_block_types() {
    let all = SectionType::all();
    assert_eq!(all.len(), 6);
    assert_eq!(all[0], SectionType::Literature);
    let labels: Vec<&str> = all.iter().map(|t| t.label()).collect();
    assert_eq!(labels, vec!["Literature", "Method", "Results", "Discussion", "General Note", "Mixed"]);
    let blocks: Vec<&str> = BlockType::all().iter().map(|t| t.label()).collect();
    assert_eq!(blocks, vec!["Paper", "Algorithm", "Image", "Table", "Note"]);
    assert_eq!(SortOrder::Asc.label(), "Asc");
    assert_eq!(SortOrder::Desc.label(), "Desc");
}

#[test]
fn library_lists_by_kind() {
    let mut lib = Library {
        projects: Vec::new(),
        papers: vec![material("p1", BlockType::Paper), material("p2", BlockType::Paper)],
        algorithms: Vec::new(),
        images: vec![material("i1", BlockType::Image)],
        tables: Vec::new(),
        notes: Vec::new(),
    };
    assert_eq!(lib.materials(BlockType::Paper).len(), 2);
    assert_eq!(lib.materials(BlockType::Image)[0].id, "i1");
    assert!(lib.materials(BlockType::Note).is_empty());
    lib.materials_mut(BlockType::Note).push(material("n1", BlockType::Note));
    assert_eq!(lib.notes.len(), 1);
    assert_eq!(lib.papers.len(), 2);
    assert_eq!(lib.images.len(), 1);
    assert_eq!(lib.material(BlockType::Paper, "p2").unwrap().name, "m-p2");
    assert!(lib.material(BlockType::Image, "p2").is_none());
}

#[test]
fn material_finds_the_first_with_the_id() {
    let mut twin = material("x", BlockType::Table);
    twin.name = "second".to_string();
    let lib = Library {
        projects: Vec::new(),
        papers: Vec::new(),
        algorithms: Vec::new(),
        images: Vec::new(),
        tables: vec![material("x", BlockType::Table), twin],
        notes: Vec::new(),
    };
    assert_eq!(lib.material(BlockType::Table, "x").unwrap().name, "m-x");
}

#[test]
fn drive_settings_defaults_and_state() {
    let s = DriveSettings::default();
    assert_eq!(s.redirect_port, DEFAULT_REDIRECT_PORT);
    assert_eq!(s.redirect_port, 53682);
    assert_eq!(s.scope, "https://www.googleapis.com/auth/drive");
    assert_eq!(s.expires_at_epoch, 0);
    assert!(!s.configured());
    assert!(!s.authenticated());
    assert_eq!(s.redirect_uri(), "http://127.0.0.1:53682/oauth");
    let mut t = s.clone();
    t.client_id = "id".to_string();
    t.client_secret = " \n".to_string();
    assert!(!t.configured());
    t.client_secret = "x".to_string();
    assert!(t.configured());
    t.access_token = "\t".to_string();
    assert!(!t.authenticated());
    t.refresh_token = "r".to_string();
    assert!(t.authenticated());
    t.redirect_port = 8080;
    assert_eq!(t.redirect_uri(), "http://127.0.0.1:8080/oauth");
}

#[test]
fn settings_files_live_in_the_data_folder() {
    assert_eq!(drive_settings_path("/data"), "/data/drive_settings.json");
    assert_eq!(workspace_settings_path("/data"), "/data/workspace_settings.json");
    assert_eq!(WorkspaceSettings::default().workspace_root, "");
    assert_eq!(default_data_dir(Some("/custom".to_string()), "/build"), "/custom");
    assert_eq!(default_data_dir(None, "/build"), "/build/user_data");
}

#[test]
fn project_folders_come_from_the_entry() {
    let e = ProjectEntry {
        project_id: "i".to_string(),
        project_name: "n".to_string(),
        folder_id: "f".to_string(),
        local_path: "  /ws/P \n".to_string(),
    };
    assert_eq!(project_workspace_dir("/ignored", &e), "/ws/P");
    assert_eq!(project_json_path("/ignored", &e), "/ws/P/project.json");
}

#[test]
fn found_projects_are_sorted_by_name() {
    let found = vec![
        ("/ws/c".to_string(), project_data("3", "Gamma")),
        ("/ws/a".to_string(), project_data("1", "Alpha")),
        ("/ws/b".to_string(), project_data("2", "Gamma")),
        ("/ws/d".to_string(), project_data("4", "Beta")),
    ];
    let r = workspace_projects(found);
    let ids: Vec<String> = r.iter().map(|(e, _)| e.project_id.clone()).collect();
    assert_eq!(ids, vec!["1", "4", "3", "2"]);
    assert_eq!(r[0].0.local_path, "/ws/a");
    assert_eq!(r[0].0.project_name, "Alpha");
    assert_eq!(r[0].0.folder_id, "F-1");
    assert_eq!(r[3].1.project.project_id, "2");
    assert!(workspace_projects(Vec::new()).is_empty());
}

#[test]
fn first_existing_path() {
    let c = vec![("/a".to_string(), false), ("/b".to_string(), true), ("/c".to_string(), true)];
    assert_eq!(first_existing(&c), Some("/b".to_string()));
    assert_eq!(first_existing(&vec![("/a".to_string(), false)]), None);
    assert_eq!(first_existing(&Vec::new()), None);
}

#[test]
fn decimal_text_and_parsing() {
    assert_eq!(decimal_text(0), "0");
    assert_eq!(decimal_text(1234567890), "1234567890");
    assert_eq!(decimal_text(u64::MAX), "18446744073709551615");
    assert_eq!(parse_usize("42"), Some(42));
    assert_eq!(parse_usize("+7"), Some(7));
    assert_eq!(parse_usize(""), None);
    assert_eq!(parse_usize("+"), None);
    assert_eq!(parse_usize("-1"), None);
    assert_eq!(parse_usize(" 1"), None);
    assert_eq!(parse_usize("12a"), None);
    assert_eq!(parse_usize("99999999999999999999999"), None);
    assert_eq!(parse_usize(&decimal_text(123456)), Some(123456));
}

#[test]
fn text_helpers() {
    assert_eq!(trim("\u{3000} a b \t\n"), "a b");
    assert!(blank(" \u{a0}\u{2028}"));
    assert!(!blank(" x "));
    assert!(is_white_space_char('\u{85}'));
    assert!(!is_white_space_char('_'));
    assert!(text_eq("論文", "論文"));
    assert!(!text_eq("a", "A"));
    assert!(starts_with("local:/x", "local:"));
    assert!(!starts_with("loc", "local:"));
    assert!(ends_with("a.json", ".json"));
    assert!(!ends_with("json", ".json"));
    let chars = chars_of("héllo");
    assert_eq!(chars.len(), 5);
    assert_eq!(string_of(&chars, 1, 4), "éll");
}

#[test]
fn ordering_and_sorting() {
    assert!(text_less("B", "a"));
    assert!(text_less("ab", "abc"));
    assert!(!text_less("abc", "abc"));
    assert!(text_less("z", "é"));
    let keys: Vec<String> = vec!["b", "a", "b", "a", "c"].into_iter().map(String::from).collect();
    assert_eq!(stable_order(&keys), vec![1, 3, 0, 2, 4]);
    assert_eq!(permute(vec!['x', 'y', 'z'], &vec![2, 0, 1]), vec!['z', 'x', 'y']);
    assert_eq!(reversed(vec![1, 2, 3]), vec![3, 2, 1]);
    assert!(stable_order(&Vec::new()).is_empty());
}
