//! What the local bridge answers: the replies of each endpoint and the
//! decisions its handlers take between reading the disk, talking to Drive
//! and answering.

use vstd::prelude::*;
use crate::config::DriveSettings;
use crate::drive::{DriveError, DriveErrorKind};
use crate::json::{
    fields_view, flag_of, json_object_pretty, json_object_pretty_of, text_field, JsonField,
    JsonFieldView,
};
use crate::numeric::{decimal, decimal_text};
use crate::order::views;
use crate::models::{Project, ProjectData, ProjectEntry};
use crate::storage::WorkspaceSettings;
use crate::assets::{
    counts_message, counts_message_of, is_tombstone_text, sanitize_filename, sanitize_is_safe_and_idempotent, sanitized,
    DriveAsset,
};
use crate::paths::{is_joined, is_plain_file_name, join_path};
use crate::text::{chars_of, blank, is_blank, starts_with, has_prefix, trim, trimmed};

verus! {

/// The JSON object most endpoints answer with, and the status it is sent
/// with.
#[derive(Clone, Debug)]
pub struct StatusReply {
    pub status: u16,
    pub ok: bool,
    pub configured: bool,
    pub authenticated: bool,
    pub message: String,
    pub settings_txt_path: Option<String>,
}

/// The text view of an optional string.
pub open spec fn opt_view(o: Option<String>) -> Option<Seq<char>> {
    match o {
        Some(s) => Some(s@),
        None => None,
    }
}

/// `r` is the reply with exactly these fields.
pub open spec fn reply_is(
    r: StatusReply,
    status: u16,
    ok: bool,
    configured: bool,
    authenticated: bool,
    message: Seq<char>,
    path: Option<Seq<char>>,
) -> bool {
    &&& r.status == status
    &&& r.ok == ok
    &&& r.configured == configured
    &&& r.authenticated == authenticated
    &&& r.message@ == message
    &&& opt_view(r.settings_txt_path) == path
}

fn reply(
    status: u16,
    ok: bool,
    configured: bool,
    authenticated: bool,
    message: String,
    settings_txt_path: Option<String>,
) -> (r: StatusReply)
    ensures
        reply_is(r, status, ok, configured, authenticated, message@, opt_view(settings_txt_path)),
{
    StatusReply { status, ok, configured, authenticated, message, settings_txt_path }
}

/// The answer to `GET /status`: the bridge is up, with the state of the
/// Drive settings and where they are kept.
pub fn status_reply(settings: &DriveSettings, settings_path: String) -> (r: StatusReply)
    ensures
        reply_is(
            r,
            200,
            true,
            settings.is_configured(),
            settings.is_authenticated(),
            "Bridge ready"@,
            Some(settings_path@),
        ),
{
    reply(
        200,
        true,
        settings.configured(),
        settings.authenticated(),
        String::from_str("Bridge ready"),
        Some(settings_path),
    )
}

/// The answer to `GET /settings`.
#[derive(Clone, Debug)]
pub struct SettingsReply {
    pub ok: bool,
    pub configured: bool,
    pub authenticated: bool,
    pub client_id: String,
    pub scope: String,
    pub has_client_secret: bool,
    pub workspace_root: String,
    pub message: String,
    pub settings_txt_path: String,
}

/// The settings as the settings page shows them: the client id and scope,
/// whether a secret is set (never the secret itself), and the workspace.
pub fn settings_reply(
    settings: &DriveSettings,
    workspace: &WorkspaceSettings,
    settings_path: String,
) -> (r: SettingsReply)
    ensures
        r.ok,
        r.configured == settings.is_configured(),
        r.authenticated == settings.is_authenticated(),
        r.client_id@ == settings.client_id@,
        r.scope@ == settings.scope@,
        r.has_client_secret == !is_blank(settings.client_secret@),
        r.workspace_root@ == workspace.workspace_root@,
        r.message@ == "已讀取本機 Drive 設定"@,
        r.settings_txt_path@ == settings_path@,
{
    SettingsReply {
        ok: true,
        configured: settings.configured(),
        authenticated: settings.authenticated(),
        client_id: settings.client_id.clone(),
        scope: settings.scope.clone(),
        has_client_secret: !blank(settings.client_secret.as_str()),
        workspace_root: workspace.workspace_root.clone(),
        message: String::from_str("已讀取本機 Drive 設定"),
        settings_txt_path: settings_path,
    }
}

/// The answer to a body that does not read as the endpoint's request.
pub fn invalid_request_reply(err: &str) -> (r: StatusReply)
    ensures
        reply_is(r, 400, false, false, false, "Invalid request: "@ + err@, None),
{
    reply(400, false, false, false, String::from_str("Invalid request: ").concat(err), None)
}

/// The answer to a method and path that no endpoint serves.
pub fn not_found_reply() -> (r: StatusReply)
    ensures
        reply_is(r, 404, false, false, false, "Unknown endpoint"@, None),
{
    reply(404, false, false, false, String::from_str("Unknown endpoint"), None)
}

/// The answer to a failure that a handler passes on: its message, as 500.
pub fn error_reply(message: &str) -> (r: StatusReply)
    ensures
        reply_is(r, 500, false, false, false, message@, None),
{
    reply(500, false, false, false, String::from_str(message), None)
}

/// What `POST /connect` asks for: each field given and not blank replaces
/// the one kept.
#[derive(Clone, Debug)]
pub struct ConnectRequest {
    pub client_id: Option<String>,
    pub client_secret: Option<String>,
    pub scope: Option<String>,
    pub workspace_root: Option<String>,
}

/// The value a field takes: the one given when it is not blank, else the
/// one kept.
pub open spec fn chosen(given: Option<String>, kept: Seq<char>) -> Seq<char> {
    match given {
        Some(v) => if is_blank(v@) {
            kept
        } else {
            v@
        },
        None => kept,
    }
}

fn choose_field(given: &Option<String>, kept: String) -> (r: String)
    ensures
        r@ == chosen(*given, kept@),
{
    match given {
        Some(v) => if blank(v.as_str()) {
            kept
        } else {
            v.clone()
        },
        None => kept,
    }
}

/// Connecting settles the settings: a field not given, or given blank,
/// keeps its value, and the same request a second time changes nothing
/// more.
pub proof fn connect_fields_settle(given: Option<String>, kept: Seq<char>)
    ensures
        chosen(None, kept) == kept,
        given matches Some(v) ==> (is_blank(v@) ==> chosen(given, kept) == kept),
        given matches Some(v) ==> (!is_blank(v@) ==> chosen(given, kept) == v@),
        chosen(given, chosen(given, kept)) == chosen(given, kept),
{
}

/// What the connect handler does once the settings are updated.
#[derive(Clone, Debug)]
pub enum ConnectAction {
    /// Answer at once: no OAuth client is set.
    Refuse(StatusReply),
    /// A token is held: refresh it, and run the consent flow if that fails.
    Refresh,
    /// Run the consent flow.
    Consent,
}

/// The settings to keep, the workspace to record, and what to do next.
#[derive(Clone, Debug)]
pub struct ConnectPlan {
    pub settings: DriveSettings,
    pub workspace: Option<WorkspaceSettings>,
    pub action: ConnectAction,
}

/// The connect handler's decisions: the client id, secret and scope given
/// replace the kept ones unless blank; a workspace root given and not blank
/// is recorded trimmed; then without a client the request is refused, with
/// a token it is refreshed, and otherwise consent is asked for.
pub fn connect(settings: DriveSettings, req: &ConnectRequest) -> (r: ConnectPlan)
    ensures
        r.settings.client_id@ == chosen(req.client_id, settings.client_id@),
        r.settings.client_secret@ == chosen(req.client_secret, settings.client_secret@),
        r.settings.scope@ == chosen(req.scope, settings.scope@),
        r.settings.redirect_port == settings.redirect_port,
        r.settings.access_token == settings.access_token,
        r.settings.refresh_token == settings.refresh_token,
        r.settings.expires_at_epoch == settings.expires_at_epoch,
        r.workspace is Some <==> (req.workspace_root matches Some(w) && !is_blank(w@)),
        r.workspace matches Some(ws) ==> (req.workspace_root matches Some(w)
            && ws.workspace_root@ == trimmed(w@)),
        !r.settings.is_configured() ==> (r.action matches ConnectAction::Refuse(rep) && reply_is(
            rep,
            400,
            false,
            false,
            false,
            "請填 Client ID 和 Client Secret"@,
            None,
        )),
        r.settings.is_configured() && r.settings.is_authenticated() ==> r.action
            is Refresh,
        r.settings.is_configured() && !r.settings.is_authenticated() ==> r.action
            is Consent,
{
    let mut settings = settings;
    let old_id = settings.client_id.clone();
    settings.client_id = choose_field(&req.client_id, old_id);
    let old_secret = settings.client_secret.clone();
    settings.client_secret = choose_field(&req.client_secret, old_secret);
    let old_scope = settings.scope.clone();
    settings.scope = choose_field(&req.scope, old_scope);
    let workspace = match &req.workspace_root {
        Some(w) => if blank(w.as_str()) {
            None
        } else {
            Some(WorkspaceSettings { workspace_root: trim(w.as_str()) })
        },
        None => None,
    };
    let action = if !settings.configured() {
        ConnectAction::Refuse(
            reply(
                400,
                false,
                false,
                false,
                String::from_str("請填 Client ID 和 Client Secret"),
                None,
            ),
        )
    } else if settings.authenticated() {
        ConnectAction::Refresh
    } else {
        ConnectAction::Consent
    };
    ConnectPlan { settings, workspace, action }
}

/// The answer once the OAuth flow has run and its settings were saved (or
/// either failed): on success the state of the settings read back, else the
/// failure.
pub fn connect_reply(outcome: &Result<DriveSettings, String>, settings_path: String) -> (r:
    StatusReply)
    ensures
        outcome matches Ok(s) ==> reply_is(
            r,
            200,
            true,
            s.is_configured(),
            s.is_authenticated(),
            "Google Drive 已連線"@,
            Some(settings_path@),
        ),
        outcome matches Err(e) ==> reply_is(
            r,
            500,
            false,
            true,
            false,
            "Google OAuth 失敗："@ + e@,
            None,
        ),
{
    match outcome {
        Ok(s) => reply(
            200,
            true,
            s.configured(),
            s.authenticated(),
            String::from_str("Google Drive 已連線"),
            Some(settings_path),
        ),
        Err(e) => reply(
            500,
            false,
            true,
            false,
            String::from_str("Google OAuth 失敗：").concat(e.as_str()),
            None,
        ),
    }
}

/// What `POST /add-project` asks for.
#[derive(Clone, Debug)]
pub struct AddProjectRequest {
    pub project_name: String,
    pub folder_id: String,
}

/// Where a new project goes: the workspace folder (trimmed), the name of
/// the project's subfolder (the trimmed project name made safe), and the
/// subfolder's path.
#[derive(Clone, Debug)]
pub struct AddProjectPlan {
    pub root: String,
    pub folder_name: String,
    pub local_path: String,
}

/// The checks of `POST /add-project` before anything is written: a name
/// and a folder id are needed, then a Drive connection, then a workspace
/// folder. When they pass, the plan of where the project goes.
pub fn add_project(
    req: &AddProjectRequest,
    settings: &DriveSettings,
    workspace: &WorkspaceSettings,
) -> (r: Result<AddProjectPlan, StatusReply>)
    ensures
        is_blank(req.project_name@) || is_blank(req.folder_id@) ==> (r matches Err(rep)
            && reply_is(rep, 400, false, false, false, "專案名稱、Folder ID 不能為空"@, None)),
        !is_blank(req.project_name@) && !is_blank(req.folder_id@) && !settings.is_authenticated()
            ==> (r matches Err(rep) && reply_is(
            rep,
            403,
            false,
            true,
            false,
            "請先連線 Google Drive"@,
            None,
        )),
        !is_blank(req.project_name@) && !is_blank(req.folder_id@) && settings.is_authenticated()
            && is_blank(workspace.workspace_root@) ==> (r matches Err(rep) && reply_is(
            rep,
            400,
            false,
            true,
            true,
            "請先在 Google Drive 設定中填寫工作區總資料夾"@,
            None,
        )),
        !is_blank(req.project_name@) && !is_blank(req.folder_id@) && settings.is_authenticated()
            && !is_blank(workspace.workspace_root@) ==> (r matches Ok(plan) && plan.root@
            == trimmed(workspace.workspace_root@) && plan.folder_name@ == sanitized(
            trimmed(req.project_name@),
        ) && is_joined(plan.local_path@, plan.root@, plan.folder_name@)),
{
    if blank(req.project_name.as_str()) || blank(req.folder_id.as_str()) {
        return Err(
            reply(
                400,
                false,
                false,
                false,
                String::from_str("專案名稱、Folder ID 不能為空"),
                None,
            ),
        );
    }
    if !settings.authenticated() {
        return Err(reply(403, false, true, false, String::from_str("請先連線 Google Drive"), None));
    }
    if blank(workspace.workspace_root.as_str()) {
        return Err(
            reply(
                400,
                false,
                true,
                true,
                String::from_str("請先在 Google Drive 設定中填寫工作區總資料夾"),
                None,
            ),
        );
    }
    let root = trim(workspace.workspace_root.as_str());
    let name = trim(req.project_name.as_str());
    let folder_name = sanitize_filename(name.as_str());
    proof {
        sanitize_is_safe_and_idempotent(name@);
        assert(is_plain_file_name(folder_name@));
    }
    let local_path = join_path(root.as_str(), folder_name.as_str());
    Ok(AddProjectPlan { root, folder_name, local_path })
}

/// A step of adding a project that failed after the checks passed.
#[derive(Clone, Debug)]
pub enum AddProjectFailure {
    /// The workspace folder could not be made, with the reason.
    RootNotCreated(String),
    /// The subfolder already holds a `project.json`.
    FolderExists,
    /// The subfolder could not be made, with the reason.
    FolderNotCreated(String),
    /// The subfolder is not there after making it.
    FolderMissing,
    /// The new `project.json` could not be written, with the reason.
    NotSaved(String),
}

/// The message of a failed step of adding a project.
pub open spec fn add_project_failure_message(failure: AddProjectFailure, local_path: Seq<char>) -> Seq<char> {
    match failure {
        AddProjectFailure::RootNotCreated(e) => "無法建立工作區總資料夾: "@ + e@,
        AddProjectFailure::FolderExists => "專案資料夾已存在: "@ + local_path,
        AddProjectFailure::FolderNotCreated(e) => "無法建立本地專案資料夾 "@ + local_path + ": "@
            + e@,
        AddProjectFailure::FolderMissing => "本地專案資料夾建立後仍找不到："@ + local_path,
        AddProjectFailure::NotSaved(e) => "無法保存項目數據: "@ + e@,
    }
}

/// The answer to a failed step of adding a project: a folder that exists
/// already is the caller's mistake (400), the rest are failures here (500).
pub fn add_project_failure_reply(failure: &AddProjectFailure, local_path: &str) -> (r: StatusReply)
    ensures
        reply_is(
            r,
            if failure is FolderExists {
                400
            } else {
                500
            },
            false,
            true,
            true,
            add_project_failure_message(*failure, local_path@),
            None,
        ),
{
    let (status, message) = match failure {
        AddProjectFailure::RootNotCreated(e) => (
            500,
            String::from_str("無法建立工作區總資料夾: ").concat(e.as_str()),
        ),
        AddProjectFailure::FolderExists => (
            400,
            String::from_str("專案資料夾已存在: ").concat(local_path),
        ),
        AddProjectFailure::FolderNotCreated(e) => (
            500,
            String::from_str("無法建立本地專案資料夾 ").concat(local_path).concat(": ").concat(
                e.as_str(),
            ),
        ),
        AddProjectFailure::FolderMissing => (
            500,
            String::from_str("本地專案資料夾建立後仍找不到：").concat(local_path),
        ),
        AddProjectFailure::NotSaved(e) => (
            500,
            String::from_str("無法保存項目數據: ").concat(e.as_str()),
        ),
    };
    reply(status, false, true, true, message, None)
}

/// The message after a project was added, with the reason the first Drive
/// sync failed if it did.
pub open spec fn add_project_message_of(
    name: Seq<char>,
    local_path: Seq<char>,
    drive_warning: Option<Seq<char>>,
) -> Seq<char> {
    let base = "已建立專案："@ + name + "（本地："@ + local_path + "）"@;
    match drive_warning {
        Some(w) => base + "；Drive 同步失敗："@ + w,
        None => base,
    }
}

/// `已建立專案：{name}（本地：{path}）`, then `；Drive 同步失敗：{reason}`
/// when the sync failed.
pub fn add_project_message(name: &str, local_path: &str, drive_warning: &Option<String>) -> (r:
    String)
    ensures
        r@ == add_project_message_of(name@, local_path@, opt_view(*drive_warning)),
{
    let base = String::from_str("已建立專案：").concat(name).concat("（本地：").concat(
        local_path,
    ).concat("）");
    match drive_warning {
        Some(w) => base.concat("；Drive 同步失敗：").concat(w.as_str()),
        None => base,
    }
}

/// An entry with these four fields.
pub fn project_entry(project_id: &str, project_name: &str, folder_id: &str, local_path: &str) -> (r:
    ProjectEntry)
    ensures
        r.project_id@ == project_id@,
        r.project_name@ == project_name@,
        r.folder_id@ == folder_id@,
        r.local_path@ == local_path@,
{
    ProjectEntry {
        project_id: String::from_str(project_id),
        project_name: String::from_str(project_name),
        folder_id: String::from_str(folder_id),
        local_path: String::from_str(local_path),
    }
}

/// `d` is a project with these fields, no sections, and no material.
pub open spec fn is_fresh_project(
    d: ProjectData,
    project_id: Seq<char>,
    project_name: Seq<char>,
    folder_id: Seq<char>,
    created_at: Seq<char>,
    updated_at: Seq<char>,
) -> bool {
    &&& d.project.project_id@ == project_id
    &&& d.project.project_name@ == project_name
    &&& d.project.folder_id@ == folder_id
    &&& d.project.created_at@ == created_at
    &&& d.project.updated_at@ == updated_at
    &&& d.project.sections@.len() == 0
    &&& d.papers@.len() == 0
    &&& d.algorithms@.len() == 0
    &&& d.images@.len() == 0
    &&& d.tables@.len() == 0
    &&& d.notes@.len() == 0
}

/// A new project with no sections and no material.
pub fn new_project_data(
    project_id: &str,
    project_name: &str,
    folder_id: &str,
    created_at: String,
    updated_at: String,
) -> (r: ProjectData)
    ensures
        is_fresh_project(r, project_id@, project_name@, folder_id@, created_at@, updated_at@),
{
    ProjectData {
        project: Project {
            project_id: String::from_str(project_id),
            project_name: String::from_str(project_name),
            folder_id: String::from_str(folder_id),
            sections: Vec::new(),
            created_at,
            updated_at,
        },
        papers: Vec::new(),
        algorithms: Vec::new(),
        images: Vec::new(),
        tables: Vec::new(),
        notes: Vec::new(),
    }
}

/// The data of a project that has no `project.json` yet: the entry's
/// identity, created and updated now.
pub fn empty_project_data(entry: &ProjectEntry, now: String) -> (r: ProjectData)
    ensures
        is_fresh_project(
            r,
            entry.project_id@,
            entry.project_name@,
            entry.folder_id@,
            now@,
            now@,
        ),
{
    let created = now.clone();
    new_project_data(
        entry.project_id.as_str(),
        entry.project_name.as_str(),
        entry.folder_id.as_str(),
        created,
        now,
    )
}

/// What `POST /local-add-project` asks for.
#[derive(Clone, Debug)]
pub struct LocalAddProjectRequest {
    pub project_name: String,
    pub local_path: String,
}

/// The check of `POST /local-add-project`: a name and a path are needed.
/// When they are given, the folder to use: the path trimmed.
pub fn local_add_project(req: &LocalAddProjectRequest) -> (r: Result<String, StatusReply>)
    ensures
        is_blank(req.project_name@) || is_blank(req.local_path@) ==> (r matches Err(rep)
            && reply_is(rep, 400, false, false, false, "專案名稱和本地路徑不能為空"@, None)),
        !is_blank(req.project_name@) && !is_blank(req.local_path@) ==> (r matches Ok(p) && p@
            == trimmed(req.local_path@)),
{
    if blank(req.project_name.as_str()) || blank(req.local_path.as_str()) {
        return Err(
            reply(
                400,
                false,
                false,
                false,
                String::from_str("專案名稱和本地路徑不能為空"),
                None,
            ),
        );
    }
    Ok(trim(req.local_path.as_str()))
}

/// The answer when the path given for a local project is not a folder.
pub fn not_a_folder_reply(path: &str) -> (r: StatusReply)
    ensures
        reply_is(r, 400, false, false, false, "路徑不是資料夾: "@ + path@, None),
{
    reply(400, false, false, false, String::from_str("路徑不是資料夾: ").concat(path), None)
}

/// The marker a project without a Drive folder has in place of a folder id.
pub open spec fn local_marker() -> Seq<char> {
    "local:"@
}

/// The entry of a project kept only on this machine: its folder id is
/// `local:` followed by its folder.
pub fn local_project_entry(project_id: &str, project_name: &str, folder: &str) -> (r: ProjectEntry)
    ensures
        r.project_id@ == project_id@,
        r.project_name@ == project_name@,
        r.folder_id@ == local_marker() + folder@,
        r.local_path@ == folder@,
{
    let marker = String::from_str("local:").concat(folder);
    project_entry(project_id, project_name, marker.as_str(), folder)
}

/// The answer once a local project's `project.json` was written, or not.
pub fn local_add_project_reply(project_name: &str, saved: &Result<(), String>) -> (r: StatusReply)
    ensures
        saved matches Err(e) ==> reply_is(
            r,
            500,
            false,
            false,
            false,
            "無法保存項目數據: "@ + e@,
            None,
        ),
        saved is Ok ==> reply_is(
            r,
            200,
            true,
            false,
            false,
            "已建立本地專案: "@ + project_name@,
            None,
        ),
{
    match saved {
        Err(e) => reply(
            500,
            false,
            false,
            false,
            String::from_str("無法保存項目數據: ").concat(e.as_str()),
            None,
        ),
        Ok(_) => reply(
            200,
            true,
            false,
            false,
            String::from_str("已建立本地專案: ").concat(project_name),
            None,
        ),
    }
}

/// The check shared by deleting, saving and syncing a project: its id and
/// its local folder are needed. Nothing when they are given.
pub fn check_entry(entry: &ProjectEntry) -> (r: Option<StatusReply>)
    ensures
        r is None <==> !is_blank(entry.project_id@) && !is_blank(entry.local_path@),
        r matches Some(rep) ==> reply_is(
            rep,
            400,
            false,
            false,
            false,
            "缺少 project_id 或 local_path"@,
            None,
        ),
{
    if blank(entry.project_id.as_str()) || blank(entry.local_path.as_str()) {
        Some(reply(400, false, false, false, String::from_str("缺少 project_id 或 local_path"), None))
    } else {
        None
    }
}

/// A project has a Drive folder: its folder id is not blank and not a local
/// marker.
pub open spec fn has_drive_folder(folder_id: Seq<char>) -> bool {
    !has_prefix(folder_id, local_marker()) && !is_blank(folder_id)
}

/// What deleting a project takes.
#[derive(Clone, Debug)]
pub enum DeleteStep {
    /// Answer at once: the request lacks what it needs.
    Refuse(StatusReply),
    /// Only the local folder is removed.
    RemoveLocal,
    /// The Drive `project.json` is first overwritten with a deletion
    /// marker, then the local folder is removed.
    MarkDriveThenRemoveLocal,
}

/// The decision of `POST /delete-project`: refused without an id or a local
/// folder; a project with a Drive folder has its Drive `project.json`
/// overwritten first.
pub fn delete_project(entry: &ProjectEntry) -> (r: DeleteStep)
    ensures
        is_blank(entry.project_id@) || is_blank(entry.local_path@) ==> (r matches DeleteStep::Refuse(
            rep,
        ) && reply_is(rep, 400, false, false, false, "缺少 project_id 或 local_path"@, None)),
        !is_blank(entry.project_id@) && !is_blank(entry.local_path@) && has_drive_folder(
            entry.folder_id@,
        ) ==> r is MarkDriveThenRemoveLocal,
        !is_blank(entry.project_id@) && !is_blank(entry.local_path@) && !has_drive_folder(
            entry.folder_id@,
        ) ==> r is RemoveLocal,
{
    match check_entry(entry) {
        Some(rep) => DeleteStep::Refuse(rep),
        None => {
            proof {
                reveal_strlit("local:");
            }
            if !starts_with(entry.folder_id.as_str(), "local:") && !blank(entry.folder_id.as_str()) {
                DeleteStep::MarkDriveThenRemoveLocal
            } else {
                DeleteStep::RemoveLocal
            }
        },
    }
}

/// A step of deleting a project that failed.
#[derive(Clone, Debug)]
pub enum DeleteFailure {
    /// No usable Drive connection, with the reason.
    NotConnected(String),
    /// The deletion marker was not written or not sent, with the reason.
    MarkNotSent(String),
    /// The local folder could not be removed, with the reason.
    NotRemoved(String),
}

/// The answer once a project was deleted, or a step failed.
pub fn delete_project_reply(outcome: &Result<(), DeleteFailure>) -> (r: StatusReply)
    ensures
        outcome matches Err(DeleteFailure::NotConnected(e)) ==> reply_is(
            r,
            403,
            false,
            true,
            false,
            "移除專案需要先連線 Google Drive: "@ + e@,
            None,
        ),
        outcome matches Err(DeleteFailure::MarkNotSent(e)) ==> reply_is(
            r,
            500,
            false,
            true,
            true,
            "移除專案失敗，空 JSON 尚未覆蓋 Drive: "@ + e@,
            None,
        ),
        outcome matches Err(DeleteFailure::NotRemoved(e)) ==> reply_is(
            r,
            500,
            false,
            false,
            false,
            "移除本地專案資料夾失敗: "@ + e@,
            None,
        ),
        outcome is Ok ==> reply_is(
            r,
            200,
            true,
            false,
            false,
            "已移除本地專案資料夾，Drive PDF 保留，空 JSON 已覆蓋 Drive"@,
            None,
        ),
{
    match outcome {
        Err(DeleteFailure::NotConnected(e)) => reply(
            403,
            false,
            true,
            false,
            String::from_str("移除專案需要先連線 Google Drive: ").concat(e.as_str()),
            None,
        ),
        Err(DeleteFailure::MarkNotSent(e)) => reply(
            500,
            false,
            true,
            true,
            String::from_str("移除專案失敗，空 JSON 尚未覆蓋 Drive: ").concat(e.as_str()),
            None,
        ),
        Err(DeleteFailure::NotRemoved(e)) => reply(
            500,
            false,
            false,
            false,
            String::from_str("移除本地專案資料夾失敗: ").concat(e.as_str()),
            None,
        ),
        Ok(_) => reply(
            200,
            true,
            false,
            false,
            String::from_str("已移除本地專案資料夾，Drive PDF 保留，空 JSON 已覆蓋 Drive"),
            None,
        ),
    }
}

/// The answer once a project's data was written to its folder, or not.
pub fn save_project_local_reply(saved: &Result<(), String>) -> (r: StatusReply)
    ensures
        saved matches Err(e) ==> reply_is(r, 500, false, false, false, "無法保存: "@ + e@, None),
        saved is Ok ==> reply_is(r, 200, true, false, false, "已存到本地專案資料夾"@, None),
{
    match saved {
        Err(e) => reply(500, false, false, false, String::from_str("無法保存: ").concat(e.as_str()), None),
        Ok(_) => reply(200, true, false, false, String::from_str("已存到本地專案資料夾"), None),
    }
}

/// Where a project's files come from when it is synced.
#[derive(Clone, Debug)]
pub enum SyncStep {
    /// Answer at once: the request lacks what it needs.
    Refuse(StatusReply),
    /// A local project: its folder is read as it is.
    Local,
    /// A Drive project: its folder is synced with Drive.
    Drive,
}

/// The decision of `POST /sync-project`: refused without an id or a local
/// folder; a project whose folder id is a local marker is read locally,
/// any other is synced with Drive.
pub fn sync_project(entry: &ProjectEntry) -> (r: SyncStep)
    ensures
        is_blank(entry.project_id@) || is_blank(entry.local_path@) ==> (r matches SyncStep::Refuse(
            rep,
        ) && reply_is(rep, 400, false, false, false, "缺少 project_id 或 local_path"@, None)),
        !is_blank(entry.project_id@) && !is_blank(entry.local_path@) && has_prefix(
            entry.folder_id@,
            local_marker(),
        ) ==> r is Local,
        !is_blank(entry.project_id@) && !is_blank(entry.local_path@) && !has_prefix(
            entry.folder_id@,
            local_marker(),
        ) ==> r is Drive,
{
    match check_entry(entry) {
        Some(rep) => SyncStep::Refuse(rep),
        None => {
            proof {
                reveal_strlit("local:");
            }
            if starts_with(entry.folder_id.as_str(), "local:") {
                SyncStep::Local
            } else {
                SyncStep::Drive
            }
        },
    }
}

/// The answer when syncing a project with Drive failed.
pub fn sync_failed_reply(err: &str) -> (r: StatusReply)
    ensures
        reply_is(r, 500, false, true, true, "同步失敗: "@ + err@, None),
{
    reply(500, false, true, true, String::from_str("同步失敗: ").concat(err), None)
}

/// The check of `POST /upload-project`: an id, a folder id and a local
/// folder are needed. Nothing when they are given.
pub fn upload_project(entry: &ProjectEntry) -> (r: Option<StatusReply>)
    ensures
        r is None <==> !is_blank(entry.project_id@) && !is_blank(entry.folder_id@) && !is_blank(
            entry.local_path@,
        ),
        r matches Some(rep) ==> reply_is(
            rep,
            400,
            false,
            true,
            false,
            "缺少 project_id、folder_id 或 local_path"@,
            None,
        ),
{
    if blank(entry.project_id.as_str()) || blank(entry.folder_id.as_str()) || blank(
        entry.local_path.as_str(),
    ) {
        Some(
            reply(
                400,
                false,
                true,
                false,
                String::from_str("缺少 project_id、folder_id 或 local_path"),
                None,
            ),
        )
    } else {
        None
    }
}

/// The check before uploading: an access token must be held. Unlike the
/// other checks this one refuses only an empty token, not a blank one.
pub fn upload_token_check(settings: &DriveSettings) -> (r: Option<StatusReply>)
    ensures
        r is None <==> settings.access_token@.len() > 0,
        r matches Some(rep) ==> reply_is(rep, 403, false, true, false, "請先連線 Google Drive"@, None),
{
    if chars_of(settings.access_token.as_str()).len() == 0 {
        Some(reply(403, false, true, false, String::from_str("請先連線 Google Drive"), None))
    } else {
        None
    }
}

/// The answer once the project folder was uploaded, or not.
pub fn upload_project_reply(uploaded: &Result<(), String>, settings_path: String) -> (r:
    StatusReply)
    ensures
        uploaded matches Err(e) ==> reply_is(r, 500, false, true, true, "上傳失敗: "@ + e@, None),
        uploaded is Ok ==> reply_is(
            r,
            200,
            true,
            true,
            true,
            "已儲存本地資料夾並上傳 Drive"@,
            Some(settings_path@),
        ),
{
    match uploaded {
        Err(e) => reply(500, false, true, true, String::from_str("上傳失敗: ").concat(e.as_str()), None),
        Ok(_) => reply(
            200,
            true,
            true,
            true,
            String::from_str("已儲存本地資料夾並上傳 Drive"),
            Some(settings_path),
        ),
    }
}

/// Whether a project found at start-up is synced with Drive: only one with
/// a Drive folder id, and only with a Drive connection; the others keep the
/// data found on disk.
pub fn startup_syncs(entry: &ProjectEntry, connected: bool) -> (b: bool)
    ensures
        b == (!has_prefix(entry.folder_id@, local_marker()) && connected),
{
    proof {
        reveal_strlit("local:");
    }
    !starts_with(entry.folder_id.as_str(), "local:") && connected
}

/// The line that records a project whose start-up sync failed.
pub fn sync_failure_line(project_name: &str, err: &str) -> (r: String)
    ensures
        r@ == project_name@ + ": "@ + err@,
{
    String::from_str(project_name).concat(": ").concat(err)
}

/// Texts joined with a separator between each two.
pub open spec fn joined(parts: Seq<Seq<char>>, sep: Seq<char>) -> Seq<char>
    decreases parts.len(),
{
    if parts.len() == 0 {
        seq![]
    } else if parts.len() == 1 {
        parts[0]
    } else {
        joined(parts.drop_last(), sep) + sep + parts.last()
    }
}

/// `parts.join(sep)`.
pub fn join_texts(parts: &Vec<String>, sep: &str) -> (r: String)
    ensures
        r@ == joined(views(parts@), sep@),
{
    if parts.len() == 0 {
        return String::new();
    }
    let mut r = parts[0].clone();
    let mut i: usize = 1;
    assert(views(parts@.subrange(0, 1)) =~= seq![parts@[0]@]);
    while i < parts.len()
        invariant
            1 <= i <= parts.len(),
            r@ == joined(views(parts@.subrange(0, i as int)), sep@),
        decreases parts.len() - i,
    {
        assert(views(parts@.subrange(0, i + 1)).drop_last() =~= views(parts@.subrange(0, i as int)));
        r = r.concat(sep).concat(parts[i].as_str());
        i = i + 1;
    }
    assert(parts@.subrange(0, parts@.len() as int) =~= parts@);
    r
}

/// The message after start-up: how many projects were loaded, and which
/// failed to sync.
pub open spec fn startup_message_of(count: nat, failures: Seq<Seq<char>>) -> Seq<char> {
    if failures.len() == 0 {
        "已掃描並載入 "@ + decimal(count) + " 個專案"@
    } else {
        "已載入 "@ + decimal(count) + " 個專案；同步失敗："@ + joined(failures, "; "@)
    }
}

/// `已掃描並載入 {n} 個專案`, or `已載入 {n} 個專案；同步失敗：` and the
/// failures joined with `; `.
pub fn startup_message(count: usize, failures: &Vec<String>) -> (r: String)
    ensures
        r@ == startup_message_of(count as nat, views(failures@)),
{
    let n = decimal_text(count as u64);
    if failures.len() == 0 {
        String::from_str("已掃描並載入 ").concat(n.as_str()).concat(" 個專案")
    } else {
        let list = join_texts(failures, "; ");
        String::from_str("已載入 ").concat(n.as_str()).concat(" 個專案；同步失敗：").concat(
            list.as_str(),
        )
    }
}

/// The settings to talk to Drive with: refused as permission denied
/// without a token.
pub fn require_authenticated(settings: DriveSettings) -> (r: Result<DriveSettings, DriveError>)
    ensures
        settings.is_authenticated() ==> r == Ok::<DriveSettings, DriveError>(settings),
        !settings.is_authenticated() ==> (r matches Err(e) && e.kind
            == DriveErrorKind::PermissionDenied && e.message@ == "請先連線 Google Drive"@),
{
    if settings.authenticated() {
        Ok(settings)
    } else {
        Err(
            DriveError {
                kind: DriveErrorKind::PermissionDenied,
                message: String::from_str("請先連線 Google Drive"),
            },
        )
    }
}

/// A query parameter an endpoint needs is missing.
pub fn missing_param_error(name: &str) -> (e: DriveError)
    ensures
        e.kind == DriveErrorKind::InvalidInput,
        e.message@ == name@ + " 參數缺少"@,
{
    DriveError {
        kind: DriveErrorKind::InvalidInput,
        message: String::from_str(name).concat(" 參數缺少"),
    }
}

/// A path that should be a folder is not one.
pub fn not_a_folder_error(path: &str) -> (e: DriveError)
    ensures
        e.kind == DriveErrorKind::NotFound,
        e.message@ == "路徑不是資料夾: "@ + path@,
{
    DriveError {
        kind: DriveErrorKind::NotFound,
        message: String::from_str("路徑不是資料夾: ").concat(path),
    }
}

/// The project's Drive `project.json` marks it deleted, so it is not
/// synced.
pub fn deleted_on_drive_error() -> (e: DriveError)
    ensures
        e.kind == DriveErrorKind::NotFound,
        e.message@ == "Drive project.json 是已刪除標記，略過同步"@,
{
    DriveError {
        kind: DriveErrorKind::NotFound,
        message: String::from_str("Drive project.json 是已刪除標記，略過同步"),
    }
}

/// The project's local folder is not there to upload.
pub fn missing_workspace_error(path: &str) -> (e: DriveError)
    ensures
        e.kind == DriveErrorKind::NotFound,
        e.message@ == "找不到本地專案資料夾: "@ + path@,
{
    DriveError {
        kind: DriveErrorKind::NotFound,
        message: String::from_str("找不到本地專案資料夾: ").concat(path),
    }
}

/// Where a file of the Drive folder is written in the project folder: under
/// its name made safe.
pub fn download_target(workspace: &str, name: &str) -> (r: String)
    ensures
        is_joined(r@, workspace@, sanitized(name@)),
{
    let safe = sanitize_filename(name);
    proof {
        sanitize_is_safe_and_idempotent(name@);
    }
    join_path(workspace, safe.as_str())
}

/// A project's data with the identity its entry records: id, name and
/// folder id taken from the entry, everything else kept.
pub fn adopt_entry(data: ProjectData, entry: &ProjectEntry) -> (r: ProjectData)
    ensures
        r.project.project_id@ == entry.project_id@,
        r.project.project_name@ == entry.project_name@,
        r.project.folder_id@ == entry.folder_id@,
        r.project.sections == data.project.sections,
        r.project.created_at == data.project.created_at,
        r.project.updated_at == data.project.updated_at,
        r.papers == data.papers,
        r.algorithms == data.algorithms,
        r.images == data.images,
        r.tables == data.tables,
        r.notes == data.notes,
{
    let mut data = data;
    data.project.project_id = entry.project_id.clone();
    data.project.project_name = entry.project_name.clone();
    data.project.folder_id = entry.folder_id.clone();
    data
}

/// The fields of the deletion marker written over a project's
/// `project.json`: the deletion flag, the project's identity and Drive
/// folder, and when it was deleted.
pub open spec fn tombstone_fields(entry: ProjectEntry, deleted_at: Seq<char>) -> Seq<
    (Seq<char>, JsonFieldView),
> {
    seq![
        ("paper_composer_deleted"@, JsonFieldView::Flag(true)),
        ("project_id"@, JsonFieldView::Text(entry.project_id@)),
        ("project_name"@, JsonFieldView::Text(entry.project_name@)),
        ("folder_id"@, JsonFieldView::Text(entry.folder_id@)),
        ("deleted_at"@, JsonFieldView::Text(deleted_at)),
    ]
}

/// The deletion marker, as `serde_json` writes it pretty.
pub open spec fn tombstone_text_of(entry: ProjectEntry, deleted_at: Seq<char>) -> Seq<char> {
    json_object_pretty_of(tombstone_fields(entry, deleted_at))
}

/// The deletion marker for a project, deleted at the given time. Read back,
/// it marks a deleted project.
pub fn tombstone_json(entry: &ProjectEntry, deleted_at: &str) -> (r: String)
    ensures
        r@ == tombstone_text_of(*entry, deleted_at@),
        is_tombstone_text(r@),
{
    let mut fields: Vec<(String, JsonField)> = Vec::new();
    fields.push((String::from_str("paper_composer_deleted"), JsonField::Flag(true)));
    fields.push(text_field("project_id", entry.project_id.as_str()));
    fields.push(text_field("project_name", entry.project_name.as_str()));
    fields.push(text_field("folder_id", entry.folder_id.as_str()));
    fields.push(text_field("deleted_at", deleted_at));
    assert(fields_view(fields@) =~= tombstone_fields(*entry, deleted_at@));
    let r = json_object_pretty(&fields);
    proof {
        reveal_strlit("paper_composer_deleted");
        reveal_strlit("project_id");
        reveal_strlit("project_name");
        reveal_strlit("folder_id");
        reveal_strlit("deleted_at");
        let key = "paper_composer_deleted"@;
        let f = tombstone_fields(*entry, deleted_at@);
        assert(key.len() == 22);
        assert(f.drop_last().drop_last().drop_last().drop_last() =~= seq![
            (key, JsonFieldView::Flag(true)),
        ]);
        assert(flag_of(f.drop_last().drop_last().drop_last().drop_last(), key) == Some(true));
        assert(flag_of(f.drop_last().drop_last().drop_last(), key) == Some(true));
        assert(flag_of(f.drop_last().drop_last(), key) == Some(true));
        assert(flag_of(f.drop_last(), key) == Some(true));
        assert(flag_of(f, key) == Some(true));
    }
    r
}

/// The answer to a project that was added or synced: the project's entry,
/// its data, and the PDFs and JSON files of its folder.
#[derive(Clone, Debug)]
pub struct SyncedReply {
    pub ok: bool,
    pub message: String,
    pub project_id: String,
    pub project_entry: ProjectEntry,
    pub project_data: ProjectData,
    pub pdfs: Vec<DriveAsset>,
    pub jsons: Vec<DriveAsset>,
}

/// `r` is the successful answer with this message and these parts.
pub open spec fn synced_is(
    r: SyncedReply,
    message: Seq<char>,
    entry: ProjectEntry,
    data: ProjectData,
    pdfs: Vec<DriveAsset>,
    jsons: Vec<DriveAsset>,
) -> bool {
    &&& r.ok
    &&& r.message@ == message
    &&& r.project_id@ == entry.project_id@
    &&& r.project_entry == entry
    &&& r.project_data == data
    &&& r.pdfs == pdfs
    &&& r.jsons == jsons
}

fn synced(
    message: String,
    entry: ProjectEntry,
    data: ProjectData,
    pdfs: Vec<DriveAsset>,
    jsons: Vec<DriveAsset>,
) -> (r: SyncedReply)
    ensures
        synced_is(r, message@, entry, data, pdfs, jsons),
{
    let project_id = entry.project_id.clone();
    SyncedReply {
        ok: true,
        message,
        project_id,
        project_entry: entry,
        project_data: data,
        pdfs,
        jsons,
    }
}

/// The answer once a project was added: its entry and data (synced with
/// Drive when that worked), with the reason the sync failed if it did.
pub fn added_project_reply(
    entry: ProjectEntry,
    data: ProjectData,
    pdfs: Vec<DriveAsset>,
    jsons: Vec<DriveAsset>,
    drive_warning: &Option<String>,
) -> (r: SyncedReply)
    ensures
        synced_is(
            r,
            add_project_message_of(
                entry.project_name@,
                entry.local_path@,
                opt_view(*drive_warning),
            ),
            entry,
            data,
            pdfs,
            jsons,
        ),
{
    let message = add_project_message(
        entry.project_name.as_str(),
        entry.local_path.as_str(),
        drive_warning,
    );
    synced(message, entry, data, pdfs, jsons)
}

/// The answer once a local project's folder was read.
pub fn local_sync_reply(
    entry: ProjectEntry,
    data: ProjectData,
    pdfs: Vec<DriveAsset>,
    jsons: Vec<DriveAsset>,
) -> (r: SyncedReply)
    ensures
        synced_is(
            r,
            counts_message_of("已讀取本地資料夾："@, pdfs@.len(), jsons@.len()),
            entry,
            data,
            pdfs,
            jsons,
        ),
{
    let message = counts_message("已讀取本地資料夾：", pdfs.len(), jsons.len());
    synced(message, entry, data, pdfs, jsons)
}

/// The answer once a project's folder was synced with Drive.
pub fn drive_sync_reply(
    entry: ProjectEntry,
    data: ProjectData,
    pdfs: Vec<DriveAsset>,
    jsons: Vec<DriveAsset>,
) -> (r: SyncedReply)
    ensures
        synced_is(
            r,
            counts_message_of("同步完成："@, pdfs@.len(), jsons@.len()),
            entry,
            data,
            pdfs,
            jsons,
        ),
{
    let message = counts_message("同步完成：", pdfs.len(), jsons.len());
    synced(message, entry, data, pdfs, jsons)
}

/// The message of a Drive folder's index.
pub fn folder_index_message(pdfs: usize, jsons: usize) -> (r: String)
    ensures
        r@ == counts_message_of("已索引資料夾："@, pdfs as nat, jsons as nat),
{
    counts_message("已索引資料夾：", pdfs, jsons)
}

/// The message of a local folder's index.
pub fn local_folder_index_message(pdfs: usize, jsons: usize) -> (r: String)
    ensures
        r@ == counts_message_of("本地資料夾："@, pdfs as nat, jsons as nat),
{
    counts_message("本地資料夾：", pdfs, jsons)
}

} // verus!
