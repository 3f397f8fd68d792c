//! Where the settings and the projects live on disk.

use vstd::prelude::*;
use crate::models::{ProjectData, ProjectEntry};
use crate::order::{arranged, is_stable_sort, permute, reversed, stable_order, views};
use crate::paths::{is_joined, is_plain_file_name, join_path};
use crate::text::{trim, trimmed};

verus! {

/// The folder under which every project has a subfolder.
#[derive(Clone, Debug)]
pub struct WorkspaceSettings {
    pub workspace_root: String,
}

impl Default for WorkspaceSettings {
    /// No workspace folder chosen yet.
    fn default() -> (r: Self)
        ensures
            r.workspace_root@.len() == 0,
    {
        WorkspaceSettings { workspace_root: String::new() }
    }
}

/// The workspace settings file in the data folder: `workspace_settings.json`.
pub fn workspace_settings_path(data_dir: &str) -> (r: String)
    ensures
        is_joined(r@, data_dir@, "workspace_settings.json"@),
{
    let name = "workspace_settings.json";
    proof {
        reveal_strlit("workspace_settings.json");
        assert(is_plain_file_name(name@));
    }
    join_path(data_dir, name)
}

/// The local folder of a project: its recorded path, trimmed. The data
/// folder plays no part.
pub fn project_workspace_dir(_data_dir: &str, entry: &ProjectEntry) -> (r: String)
    ensures
        r@ == trimmed(entry.local_path@),
{
    trim(entry.local_path.as_str())
}

/// The `project.json` file in the project's local folder.
pub fn project_json_path(data_dir: &str, entry: &ProjectEntry) -> (r: String)
    ensures
        is_joined(r@, trimmed(entry.local_path@), "project.json"@),
{
    let dir = project_workspace_dir(data_dir, entry);
    let name = "project.json";
    proof {
        reveal_strlit("project.json");
        assert(is_plain_file_name(name@));
    }
    join_path(dir.as_str(), name)
}

/// The data folder: the one the environment names, else `user_data` in the
/// folder the app was built from.
pub fn default_data_dir(from_env: Option<String>, build_dir: &str) -> (r: String)
    ensures
        from_env matches Some(p) ==> r == p,
        from_env is None ==> is_joined(r@, build_dir@, "user_data"@),
{
    match from_env {
        Some(p) => p,
        None => {
            let name = "user_data";
            proof {
                reveal_strlit("user_data");
                assert(is_plain_file_name(name@));
            }
            join_path(build_dir, name)
        },
    }
}

/// The entry of a project found in the workspace: the identity its
/// `project.json` records, and the folder it was found in.
pub open spec fn found_entry(path: String, data: ProjectData) -> ProjectEntry {
    ProjectEntry {
        project_id: data.project.project_id,
        project_name: data.project.project_name,
        folder_id: data.project.folder_id,
        local_path: path,
    }
}

/// The projects found, each with its entry.
pub open spec fn found_projects(found: Seq<(String, ProjectData)>) -> Seq<(ProjectEntry, ProjectData)> {
    Seq::new(found.len(), |i: int| (found_entry(found[i].0, found[i].1), found[i].1))
}

/// The names of a list of projects.
pub open spec fn project_names(s: Seq<(ProjectEntry, ProjectData)>) -> Seq<Seq<char>> {
    Seq::new(s.len(), |i: int| s[i].0.project_name@)
}

/// The projects found in the subfolders of the workspace, each folder with
/// the data its `project.json` holds, as entries sorted by project name;
/// projects of the same name keep the order they were found in.
pub fn workspace_projects(found: Vec<(String, ProjectData)>) -> (r: Vec<(ProjectEntry, ProjectData)>)
    ensures
        is_stable_sort(r@, found_projects(found@), project_names(found_projects(found@))),
{
    let ghost orig = found@;
    let mut names: Vec<String> = Vec::new();
    let mut i: usize = 0;
    while i < found.len()
        invariant
            i <= found.len(),
            names@.len() == i,
            forall|k: int| 0 <= k < i ==> #[trigger] names@[k]@ == found@[k].1.project.project_name@,
        decreases found.len() - i,
    {
        names.push(found[i].1.project.project_name.clone());
        i = i + 1;
    }
    assert(views(names@) =~= project_names(found_projects(found@)));
    let order = stable_order(&names);
    let sorted = permute(found, &order);
    let mut stack = reversed(sorted);
    let ghost n = stack@.len();
    let mut r: Vec<(ProjectEntry, ProjectData)> = Vec::new();
    while stack.len() > 0
        invariant
            n == sorted@.len(),
            stack@.len() + r@.len() == n,
            forall|j: int| 0 <= j < stack@.len() ==> #[trigger] stack@[j] == sorted@[n - 1 - j],
            forall|k: int|
                0 <= k < r@.len() ==> #[trigger] r@[k] == (
                    found_entry(sorted@[k].0, sorted@[k].1),
                    sorted@[k].1,
                ),
        decreases stack.len(),
    {
        let (path, data) = stack.pop().unwrap();
        let entry = ProjectEntry {
            project_id: data.project.project_id.clone(),
            project_name: data.project.project_name.clone(),
            folder_id: data.project.folder_id.clone(),
            local_path: path,
        };
        r.push((entry, data));
    }
    assert(arranged(r@, found_projects(orig), order@));
    r
}

} // verus!
