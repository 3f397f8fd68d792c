//! The order of the steps of the bridge's longer handlers, as state
//! machines: each step takes what the last action came to and gives the
//! next action. The program around the library performs the actions; the
//! order in which they may come is decided and proved here.

use vstd::prelude::*;
use crate::assets::{is_project_tombstone, is_tombstone_text, project_json_probe, sanitized, DriveAsset};
use crate::bridge::{
    adopt_entry, delete_project, delete_project_reply, deleted_on_drive_error, empty_project_data,
    has_drive_folder, reply_is, upload_project, upload_project_reply, upload_token_check,
    DeleteFailure, DeleteStep, StatusReply, add_project, add_project_failure_reply,
    add_project_message_of, added_project_reply, is_fresh_project, new_project_data, project_entry,
    synced_is, AddProjectFailure, AddProjectPlan, AddProjectRequest, SyncedReply,
};
use crate::paths::is_joined;
use crate::storage::WorkspaceSettings;
use crate::config::DriveSettings;
use crate::drive::{DriveError, DriveErrorKind, DriveFile};
use crate::models::{ProjectData, ProjectEntry};
use crate::text::{is_blank, trimmed};

verus! {

/// The settings, field by field.
pub fn copy_settings(s: &DriveSettings) -> (r: DriveSettings)
    ensures
        r == *s,
{
    DriveSettings {
        client_id: s.client_id.clone(),
        client_secret: s.client_secret.clone(),
        redirect_port: s.redirect_port,
        scope: s.scope.clone(),
        access_token: s.access_token.clone(),
        refresh_token: s.refresh_token.clone(),
        expires_at_epoch: s.expires_at_epoch,
    }
}

/// How far uploading a project has come.
#[derive(Clone, Debug)]
pub enum UploadPhase {
    /// The request has been read.
    Start,
    /// The project's data is being written to its `project.json`.
    Saving,
    /// The Drive settings are being read.
    Loading,
    /// The token of these settings is being refreshed.
    Refreshing(DriveSettings),
    /// The project folder is being sent to Drive.
    Uploading,
    /// Nothing more is done.
    Done,
}

/// What happened to the last action of an upload.
#[derive(Debug)]
pub enum UploadEvent {
    /// The request has been read.
    Begin,
    /// Whether `project.json` was written.
    Saved(bool),
    /// The Drive settings read.
    SettingsLoaded(DriveSettings),
    /// The refreshed settings, if the refresh worked.
    Refreshed(Option<DriveSettings>),
    /// Whether the project folder was sent, or why not.
    Uploaded(Result<(), String>),
}

/// The next thing to do in an upload.
#[derive(Clone, Debug)]
pub enum UploadAction {
    /// Answer and stop.
    Answer(StatusReply),
    /// Write the project's data to its `project.json`.
    SaveLocal,
    /// Read the Drive settings.
    LoadSettings,
    /// Refresh the token of these settings.
    Refresh(DriveSettings),
    /// Send the project folder with these settings, after storing them when
    /// the flag is set (they are freshly refreshed).
    Upload(DriveSettings, bool),
    /// Stop without answering: writing `project.json` failed.
    Stop,
}

/// The upload of a project: checked, saved locally, then sent to Drive.
pub struct UploadFlow {
    phase: UploadPhase,
    saved: bool,
}

/// The entry names a project, a Drive folder and a local folder.
pub open spec fn upload_entry_complete(entry: ProjectEntry) -> bool {
    !is_blank(entry.project_id@) && !is_blank(entry.folder_id@) && !is_blank(entry.local_path@)
}

impl UploadFlow {
    /// Past the local save, the save has succeeded.
    #[verifier::type_invariant]
    spec fn inv(self) -> bool {
        (self.phase is Loading || self.phase is Refreshing || self.phase is Uploading) ==> self.saved
    }

    pub closed spec fn phase(self) -> UploadPhase {
        self.phase
    }

    /// The project's `project.json` has been written.
    pub closed spec fn saved(self) -> bool {
        self.saved
    }

    /// An upload that has just been asked for.
    pub fn new() -> (r: Self)
        ensures
            r.phase() is Start,
            !r.saved(),
    {
        UploadFlow { phase: UploadPhase::Start, saved: false }
    }

    /// The next action of an upload, given what the last one came to:
    /// refuse an incomplete entry; write `project.json` and stop silently
    /// if that fails; refuse without an access token; refresh the token;
    /// send the folder (with the refreshed settings if the refresh worked,
    /// else the ones read); answer with the outcome. The folder is only
    /// ever sent after `project.json` was written.
    pub fn step(self, entry: &ProjectEntry, event: UploadEvent, settings_path: &str) -> (r: (
        UploadFlow,
        UploadAction,
    ))
        ensures
            r.1 is Upload ==> self.saved(),
            r.0.saved() <==> (self.saved() || (self.phase() is Saving && event matches UploadEvent::Saved(true))),
            self.phase() is Start && event is Begin && !upload_entry_complete(*entry) ==> (r.1 matches UploadAction::Answer(rep)
                && r.0.phase() is Done && reply_is(
                rep,
                400,
                false,
                true,
                false,
                "缺少 project_id、folder_id 或 local_path"@,
                None,
            )),
            self.phase() is Start && event is Begin && upload_entry_complete(*entry) ==> (r.0.phase() is Saving
                && r.1 is SaveLocal),
            self.phase() is Saving ==> (event matches UploadEvent::Saved(true) ==> (r.0.phase() is Loading
                && r.1 is LoadSettings)),
            self.phase() is Saving ==> (event matches UploadEvent::Saved(false) ==> (r.0.phase() is Done
                && r.1 is Stop)),
            self.phase() is Loading ==> (event matches UploadEvent::SettingsLoaded(s) ==> (
            s.access_token@.len() == 0 ==> (r.1 matches UploadAction::Answer(rep) && r.0.phase() is Done
                && reply_is(rep, 403, false, true, false, "請先連線 Google Drive"@, None)))),
            self.phase() is Loading ==> (event matches UploadEvent::SettingsLoaded(s) ==> (
            s.access_token@.len() > 0 ==> (r.0.phase() == UploadPhase::Refreshing(s) && r.1
                == UploadAction::Refresh(s)))),
            self.phase() matches UploadPhase::Refreshing(kept) ==> (event matches UploadEvent::Refreshed(
                Some(n),
            ) ==> (r.0.phase() is Uploading && r.1 == UploadAction::Upload(n, true))),
            self.phase() matches UploadPhase::Refreshing(kept) ==> (event matches UploadEvent::Refreshed(None)
                ==> (r.0.phase() is Uploading && r.1 == UploadAction::Upload(kept, false))),
            self.phase() is Uploading ==> (event matches UploadEvent::Uploaded(res) ==> (r.1 matches UploadAction::Answer(rep)
                && r.0.phase() is Done && (res matches Err(e) ==> reply_is(
                rep,
                500,
                false,
                true,
                true,
                "上傳失敗: "@ + e@,
                None,
            )) && (res is Ok ==> reply_is(
                rep,
                200,
                true,
                true,
                true,
                "已儲存本地資料夾並上傳 Drive"@,
                Some(settings_path@),
            )))),
            !(self.phase() is Start && event is Begin) && !(self.phase() is Saving && event is Saved)
                && !(self.phase() is Loading && event is SettingsLoaded) && !(self.phase() is Refreshing
                && event is Refreshed) && !(self.phase() is Uploading && event is Uploaded) ==> (
            r.0.phase() is Done && r.1 is Stop),
    {
        proof {
            use_type_invariant(&self);
        }
        let saved = self.saved;
        match (self.phase, event) {
            (UploadPhase::Start, UploadEvent::Begin) => match upload_project(entry) {
                Some(rep) => (UploadFlow { phase: UploadPhase::Done, saved }, UploadAction::Answer(rep)),
                None => (UploadFlow { phase: UploadPhase::Saving, saved }, UploadAction::SaveLocal),
            },
            (UploadPhase::Saving, UploadEvent::Saved(ok)) => if ok {
                (UploadFlow { phase: UploadPhase::Loading, saved: true }, UploadAction::LoadSettings)
            } else {
                (UploadFlow { phase: UploadPhase::Done, saved }, UploadAction::Stop)
            },
            (UploadPhase::Loading, UploadEvent::SettingsLoaded(s)) => match upload_token_check(&s) {
                Some(rep) => (UploadFlow { phase: UploadPhase::Done, saved }, UploadAction::Answer(rep)),
                None => {
                    let copy = copy_settings(&s);
                    (
                        UploadFlow { phase: UploadPhase::Refreshing(s), saved },
                        UploadAction::Refresh(copy),
                    )
                },
            },
            (UploadPhase::Refreshing(kept), UploadEvent::Refreshed(fresh)) => match fresh {
                Some(n) => (UploadFlow { phase: UploadPhase::Uploading, saved }, UploadAction::Upload(n, true)),
                None => (
                    UploadFlow { phase: UploadPhase::Uploading, saved },
                    UploadAction::Upload(kept, false),
                ),
            },
            (UploadPhase::Uploading, UploadEvent::Uploaded(res)) => {
                let rep = upload_project_reply(&res, String::from_str(settings_path));
                (UploadFlow { phase: UploadPhase::Done, saved }, UploadAction::Answer(rep))
            },
            _ => (UploadFlow { phase: UploadPhase::Done, saved }, UploadAction::Stop),
        }
    }
}

/// How far deleting a project has come.
#[derive(Clone, Debug)]
pub enum DeletePhase {
    Start,
    /// The Drive connection is being checked.
    Authenticating,
    /// The deletion marker is being written, to send with these settings.
    Marking(DriveSettings),
    /// The marker is being sent over the Drive `project.json`.
    Sending,
    /// The local folder is being removed.
    Removing,
    Done,
}

/// What happened to the last action of a deletion.
#[derive(Debug)]
pub enum DeleteEvent {
    Begin,
    /// The settings to talk to Drive with, or why there are none.
    Authenticated(Result<DriveSettings, String>),
    /// Where the marker was written, or why it was not.
    MarkerWritten(Result<String, String>),
    /// Whether the marker was sent, or why not.
    MarkerSent(Result<(), String>),
    /// Whether the local folder was removed, or why not.
    Removed(Result<(), String>),
}

/// The next thing to do in a deletion.
#[derive(Clone, Debug)]
pub enum DeleteAction {
    Answer(StatusReply),
    /// Check the Drive connection.
    Authenticate,
    /// Write the deletion marker into the local folder.
    WriteMarker,
    /// Send the marker at this path over the Drive `project.json`.
    SendMarker(DriveSettings, String),
    /// Remove the local folder.
    RemoveLocal,
    /// Stop without answering.
    Stop,
}

/// The deletion of a project: a project with a Drive folder has its Drive
/// `project.json` overwritten with a marker before its local folder goes.
pub struct DeleteFlow {
    phase: DeletePhase,
}

impl DeleteFlow {
    pub closed spec fn phase(self) -> DeletePhase {
        self.phase
    }

    /// A deletion that has just been asked for.
    pub fn new() -> (r: Self)
        ensures
            r.phase() is Start,
    {
        DeleteFlow { phase: DeletePhase::Start }
    }

    /// The next action of a deletion: refuse an incomplete entry; a project
    /// without a Drive folder only loses its local folder; one with a Drive
    /// folder needs a connection, then the marker is written and sent, and
    /// only once it is sent is the local folder removed; answer with the
    /// outcome.
    pub fn step(self, entry: &ProjectEntry, event: DeleteEvent) -> (r: (DeleteFlow, DeleteAction))
        ensures
            r.1 is RemoveLocal ==> ((self.phase() is Start && event is Begin && !has_drive_folder(
                entry.folder_id@,
            )) || (self.phase() is Sending && event matches DeleteEvent::MarkerSent(Ok(_)))),
            r.1 is SendMarker ==> (self.phase() is Marking && event matches DeleteEvent::MarkerWritten(
                Ok(_),
            )),
            r.1 is WriteMarker ==> (self.phase() is Authenticating && event matches DeleteEvent::Authenticated(
                Ok(_),
            )),
            self.phase() is Start && event is Begin ==> (
            (is_blank(entry.project_id@) || is_blank(entry.local_path@)) ==> (r.1 matches DeleteAction::Answer(rep)
                && r.0.phase() is Done && reply_is(
                rep,
                400,
                false,
                false,
                false,
                "缺少 project_id 或 local_path"@,
                None,
            ))),
            self.phase() is Start && event is Begin ==> (
            (!is_blank(entry.project_id@) && !is_blank(entry.local_path@)) ==> (
            has_drive_folder(entry.folder_id@) ==> (r.0.phase() is Authenticating && r.1 is Authenticate))),
            self.phase() is Start && event is Begin ==> (
            (!is_blank(entry.project_id@) && !is_blank(entry.local_path@)) ==> (
            !has_drive_folder(entry.folder_id@) ==> (r.0.phase() is Removing && r.1 is RemoveLocal))),
            self.phase() is Authenticating ==> (event matches DeleteEvent::Authenticated(Ok(st)) ==> (
            r.0.phase() == DeletePhase::Marking(st) && r.1 is WriteMarker)),
            self.phase() is Authenticating ==> (event matches DeleteEvent::Authenticated(Err(e)) ==> (
            r.1 matches DeleteAction::Answer(rep) && r.0.phase() is Done && reply_is(
                rep,
                403,
                false,
                true,
                false,
                "移除專案需要先連線 Google Drive: "@ + e@,
                None,
            ))),
            self.phase() matches DeletePhase::Marking(st) ==> (event matches DeleteEvent::MarkerWritten(
                Ok(path),
            ) ==> (r.0.phase() is Sending && r.1 == DeleteAction::SendMarker(st, path))),
            self.phase() is Marking ==> (event matches DeleteEvent::MarkerWritten(Err(e)) ==> (
            r.1 matches DeleteAction::Answer(rep) && r.0.phase() is Done && reply_is(
                rep,
                500,
                false,
                true,
                true,
                "移除專案失敗，空 JSON 尚未覆蓋 Drive: "@ + e@,
                None,
            ))),
            self.phase() is Sending ==> (event matches DeleteEvent::MarkerSent(Ok(_)) ==> (
            r.0.phase() is Removing && r.1 is RemoveLocal)),
            self.phase() is Sending ==> (event matches DeleteEvent::MarkerSent(Err(e)) ==> (
            r.1 matches DeleteAction::Answer(rep) && r.0.phase() is Done && reply_is(
                rep,
                500,
                false,
                true,
                true,
                "移除專案失敗，空 JSON 尚未覆蓋 Drive: "@ + e@,
                None,
            ))),
            self.phase() is Removing ==> (event matches DeleteEvent::Removed(Err(e)) ==> (
            r.1 matches DeleteAction::Answer(rep) && r.0.phase() is Done && reply_is(
                rep,
                500,
                false,
                false,
                false,
                "移除本地專案資料夾失敗: "@ + e@,
                None,
            ))),
            self.phase() is Removing ==> (event matches DeleteEvent::Removed(Ok(_)) ==> (
            r.1 matches DeleteAction::Answer(rep) && r.0.phase() is Done && reply_is(
                rep,
                200,
                true,
                false,
                false,
                "已移除本地專案資料夾，Drive PDF 保留，空 JSON 已覆蓋 Drive"@,
                None,
            ))),
            !(self.phase() is Start && event is Begin) && !(self.phase() is Authenticating
                && event is Authenticated) && !(self.phase() is Marking && event is MarkerWritten)
                && !(self.phase() is Sending && event is MarkerSent) && !(self.phase() is Removing
                && event is Removed) ==> (r.0.phase() is Done && r.1 is Stop),
    {
        let done = DeleteFlow { phase: DeletePhase::Done };
        match (self.phase, event) {
            (DeletePhase::Start, DeleteEvent::Begin) => match delete_project(entry) {
                DeleteStep::Refuse(rep) => (done, DeleteAction::Answer(rep)),
                DeleteStep::RemoveLocal => (DeleteFlow { phase: DeletePhase::Removing }, DeleteAction::RemoveLocal),
                DeleteStep::MarkDriveThenRemoveLocal => (
                    DeleteFlow { phase: DeletePhase::Authenticating },
                    DeleteAction::Authenticate,
                ),
            },
            (DeletePhase::Authenticating, DeleteEvent::Authenticated(res)) => match res {
                Ok(st) => (DeleteFlow { phase: DeletePhase::Marking(st) }, DeleteAction::WriteMarker),
                Err(e) => (
                    done,
                    DeleteAction::Answer(delete_project_reply(&Err(DeleteFailure::NotConnected(e)))),
                ),
            },
            (DeletePhase::Marking(st), DeleteEvent::MarkerWritten(res)) => match res {
                Ok(path) => (DeleteFlow { phase: DeletePhase::Sending }, DeleteAction::SendMarker(st, path)),
                Err(e) => (
                    done,
                    DeleteAction::Answer(delete_project_reply(&Err(DeleteFailure::MarkNotSent(e)))),
                ),
            },
            (DeletePhase::Sending, DeleteEvent::MarkerSent(res)) => match res {
                Ok(_) => (DeleteFlow { phase: DeletePhase::Removing }, DeleteAction::RemoveLocal),
                Err(e) => (
                    done,
                    DeleteAction::Answer(delete_project_reply(&Err(DeleteFailure::MarkNotSent(e)))),
                ),
            },
            (DeletePhase::Removing, DeleteEvent::Removed(res)) => {
                let outcome = match res {
                    Ok(_) => Ok(()),
                    Err(e) => Err(DeleteFailure::NotRemoved(e)),
                };
                (done, DeleteAction::Answer(delete_project_reply(&outcome)))
            },
            _ => (done, DeleteAction::Stop),
        }
    }
}

/// How far syncing a project folder with Drive has come.
#[derive(Clone, Debug)]
pub enum WorkspaceSyncPhase {
    Start,
    /// The project folder is being made.
    MakingFolder,
    /// The Drive folder is being listed.
    Listing,
    /// The Drive `project.json` is being fetched, to look for a deletion
    /// marker before anything else is fetched; the listing is kept.
    Probing(Vec<DriveFile>),
    /// The PDFs and JSON files of the listing are being fetched.
    Fetching,
    /// The project's data is being read.
    Loading,
    /// The project's data is being written.
    Saving,
    /// The project folder is being sent to Drive.
    Uploading,
    /// The folder's PDFs and JSON files are being listed.
    Collecting,
    Done,
}

/// What happened to the last action of a folder sync.
#[derive(Debug)]
pub enum WorkspaceSyncEvent {
    Begin,
    FolderMade(bool),
    /// The Drive folder's listing, or none when listing failed.
    Listed(Option<Vec<DriveFile>>),
    /// The text of the Drive `project.json` fetched (empty when it could
    /// not be read), or none when fetching it failed.
    ProbeRead(Option<String>),
    Fetched(bool),
    /// The project's data as read, if it could be, and the time now.
    Loaded(Option<ProjectData>, String),
    Saved(bool),
    Uploaded(bool),
    Collected(bool),
}

/// The next thing to do in a folder sync.
#[derive(Debug)]
pub enum WorkspaceSyncAction {
    MakeFolder,
    ListDrive,
    /// Fetch the Drive `project.json` with this id.
    FetchProbe(String),
    /// Fetch the files of this listing that `should_download` picks.
    FetchFiles(Vec<DriveFile>),
    LoadData,
    /// Write this data to the project's `project.json`.
    SaveData(ProjectData),
    UploadFolder,
    CollectAssets,
    /// The sync is done.
    Finish,
    /// The sync fails with the last step's failure.
    Fail,
    /// The sync fails: the project was deleted on Drive.
    Deleted(DriveError),
    /// Stop: no step was under way.
    Stop,
}

/// The sync of a project folder with its Drive folder.
pub struct WorkspaceSync {
    phase: WorkspaceSyncPhase,
}

/// No file of a listing is named `project.json`.
pub open spec fn no_project_json(files: Seq<DriveFile>) -> bool {
    forall|i: int| 0 <= i < files.len() ==> #[trigger] files[i].name@ != "project.json"@
}

impl WorkspaceSync {
    pub closed spec fn phase(self) -> WorkspaceSyncPhase {
        self.phase
    }

    /// A sync that has just been asked for.
    pub fn new() -> (r: Self)
        ensures
            r.phase() is Start,
    {
        WorkspaceSync { phase: WorkspaceSyncPhase::Start }
    }

    /// The next action of a folder sync: make the folder, list Drive, fetch
    /// a listed `project.json` first and stop if it marks the project
    /// deleted, then fetch the PDFs and JSON files, read the data (or start
    /// empty) with the entry's identity, write it, send the folder to Drive
    /// and list the folder's assets. Any failed step ends the sync. Nothing
    /// but the probe is fetched before the deletion marker is ruled out.
    pub fn step(self, entry: &ProjectEntry, event: WorkspaceSyncEvent) -> (r: (
        WorkspaceSync,
        WorkspaceSyncAction,
    ))
        ensures
            r.1 is FetchFiles ==> ((event matches WorkspaceSyncEvent::Listed(Some(files))
                && no_project_json(files@) && self.phase() is Listing) || (
            event matches WorkspaceSyncEvent::ProbeRead(Some(t)) && !is_tombstone_text(t@)
                && self.phase() is Probing)),
            r.1 is UploadFolder ==> (self.phase() is Saving && event matches WorkspaceSyncEvent::Saved(true)),
            self.phase() is Start && event is Begin ==> (r.0.phase() is MakingFolder && r.1 is MakeFolder),
            self.phase() is MakingFolder ==> (event matches WorkspaceSyncEvent::FolderMade(ok) ==> (
            ok ==> (r.0.phase() is Listing && r.1 is ListDrive))),
            self.phase() is Listing ==> (event matches WorkspaceSyncEvent::Listed(Some(files)) ==> (
            no_project_json(files@) ==> (r.0.phase() is Fetching && r.1 == WorkspaceSyncAction::FetchFiles(
                files,
            )))),
            self.phase() is Listing ==> (event matches WorkspaceSyncEvent::Listed(Some(files)) ==> (
            !no_project_json(files@) ==> (r.1 matches WorkspaceSyncAction::FetchProbe(id)
                && r.0.phase() == WorkspaceSyncPhase::Probing(files) && exists|i: int|
                0 <= i < files@.len() && files@[i].name@ == "project.json"@ && id@ == files@[i].id@
                    && forall|j: int| 0 <= j < i ==> #[trigger] files@[j].name@ != "project.json"@))),
            self.phase() matches WorkspaceSyncPhase::Probing(files) ==> (event matches WorkspaceSyncEvent::ProbeRead(
                Some(t),
            ) ==> (!is_tombstone_text(t@) ==> (r.0.phase() is Fetching && r.1
                == WorkspaceSyncAction::FetchFiles(files)))),
            self.phase() is Probing ==> (event matches WorkspaceSyncEvent::ProbeRead(Some(t)) ==> (
            is_tombstone_text(t@) ==> (r.1 matches WorkspaceSyncAction::Deleted(e) && r.0.phase() is Done
                && e.kind == DriveErrorKind::NotFound && e.message@
                == "Drive project.json 是已刪除標記，略過同步"@))),
            self.phase() is Fetching ==> (event matches WorkspaceSyncEvent::Fetched(ok) ==> (ok ==> (
            r.0.phase() is Loading && r.1 is LoadData))),
            self.phase() is Loading ==> (event matches WorkspaceSyncEvent::Loaded(found, now) ==> (
            r.1 matches WorkspaceSyncAction::SaveData(d) && r.0.phase() is Saving
                && d.project.project_id@ == entry.project_id@ && d.project.project_name@
                == entry.project_name@ && d.project.folder_id@ == entry.folder_id@ && (found matches Some(
                f,
            ) ==> (d.project.sections == f.project.sections && d.project.created_at
                == f.project.created_at && d.project.updated_at == f.project.updated_at && d.papers
                == f.papers && d.algorithms == f.algorithms && d.images == f.images && d.tables
                == f.tables && d.notes == f.notes)) && (found is None ==> (d.project.created_at@
                == now@ && d.project.updated_at@ == now@ && d.project.sections@.len() == 0
                && d.papers@.len() == 0 && d.algorithms@.len() == 0 && d.images@.len() == 0
                && d.tables@.len() == 0 && d.notes@.len() == 0)))),
            self.phase() is Saving ==> (event matches WorkspaceSyncEvent::Saved(ok) ==> (ok ==> (
            r.0.phase() is Uploading && r.1 is UploadFolder))),
            self.phase() is Uploading ==> (event matches WorkspaceSyncEvent::Uploaded(ok) ==> (ok ==> (
            r.0.phase() is Collecting && r.1 is CollectAssets))),
            self.phase() is Collecting ==> (event matches WorkspaceSyncEvent::Collected(ok) ==> (ok ==> (
            r.0.phase() is Done && r.1 is Finish))),
            (self.phase() is MakingFolder && event matches WorkspaceSyncEvent::FolderMade(false)) || (
            self.phase() is Listing && event matches WorkspaceSyncEvent::Listed(None)) || (self.phase() is Probing
                && event matches WorkspaceSyncEvent::ProbeRead(None)) || (self.phase() is Fetching
                && event matches WorkspaceSyncEvent::Fetched(false)) || (self.phase() is Saving
                && event matches WorkspaceSyncEvent::Saved(false)) || (self.phase() is Uploading
                && event matches WorkspaceSyncEvent::Uploaded(false)) || (self.phase() is Collecting
                && event matches WorkspaceSyncEvent::Collected(false)) ==> (r.0.phase() is Done && r.1 is Fail),
            !(self.phase() is Start && event is Begin) && !(self.phase() is MakingFolder && event is FolderMade)
                && !(self.phase() is Listing && event is Listed) && !(self.phase() is Probing
                && event is ProbeRead) && !(self.phase() is Fetching && event is Fetched) && !(
            self.phase() is Loading && event is Loaded) && !(self.phase() is Saving && event is Saved)
                && !(self.phase() is Uploading && event is Uploaded) && !(self.phase() is Collecting
                && event is Collected) ==> (r.0.phase() is Done && r.1 is Stop),
    {
        let done = WorkspaceSync { phase: WorkspaceSyncPhase::Done };
        match (self.phase, event) {
            (WorkspaceSyncPhase::Start, WorkspaceSyncEvent::Begin) => (
                WorkspaceSync { phase: WorkspaceSyncPhase::MakingFolder },
                WorkspaceSyncAction::MakeFolder,
            ),
            (WorkspaceSyncPhase::MakingFolder, WorkspaceSyncEvent::FolderMade(ok)) => if ok {
                (WorkspaceSync { phase: WorkspaceSyncPhase::Listing }, WorkspaceSyncAction::ListDrive)
            } else {
                (done, WorkspaceSyncAction::Fail)
            },
            (WorkspaceSyncPhase::Listing, WorkspaceSyncEvent::Listed(listing)) => match listing {
                None => (done, WorkspaceSyncAction::Fail),
                Some(files) => match project_json_probe(&files) {
                    Some(id) => (
                        WorkspaceSync { phase: WorkspaceSyncPhase::Probing(files) },
                        WorkspaceSyncAction::FetchProbe(id),
                    ),
                    None => (
                        WorkspaceSync { phase: WorkspaceSyncPhase::Fetching },
                        WorkspaceSyncAction::FetchFiles(files),
                    ),
                },
            },
            (WorkspaceSyncPhase::Probing(files), WorkspaceSyncEvent::ProbeRead(read)) => match read {
                None => (done, WorkspaceSyncAction::Fail),
                Some(t) => if is_project_tombstone(t.as_str()) {
                    (done, WorkspaceSyncAction::Deleted(deleted_on_drive_error()))
                } else {
                    (
                        WorkspaceSync { phase: WorkspaceSyncPhase::Fetching },
                        WorkspaceSyncAction::FetchFiles(files),
                    )
                },
            },
            (WorkspaceSyncPhase::Fetching, WorkspaceSyncEvent::Fetched(ok)) => if ok {
                (WorkspaceSync { phase: WorkspaceSyncPhase::Loading }, WorkspaceSyncAction::LoadData)
            } else {
                (done, WorkspaceSyncAction::Fail)
            },
            (WorkspaceSyncPhase::Loading, WorkspaceSyncEvent::Loaded(found, now)) => {
                let data = match found {
                    Some(d) => d,
                    None => empty_project_data(entry, now),
                };
                (
                    WorkspaceSync { phase: WorkspaceSyncPhase::Saving },
                    WorkspaceSyncAction::SaveData(adopt_entry(data, entry)),
                )
            },
            (WorkspaceSyncPhase::Saving, WorkspaceSyncEvent::Saved(ok)) => if ok {
                (WorkspaceSync { phase: WorkspaceSyncPhase::Uploading }, WorkspaceSyncAction::UploadFolder)
            } else {
                (done, WorkspaceSyncAction::Fail)
            },
            (WorkspaceSyncPhase::Uploading, WorkspaceSyncEvent::Uploaded(ok)) => if ok {
                (WorkspaceSync { phase: WorkspaceSyncPhase::Collecting }, WorkspaceSyncAction::CollectAssets)
            } else {
                (done, WorkspaceSyncAction::Fail)
            },
            (WorkspaceSyncPhase::Collecting, WorkspaceSyncEvent::Collected(ok)) => if ok {
                (done, WorkspaceSyncAction::Finish)
            } else {
                (done, WorkspaceSyncAction::Fail)
            },
            _ => (done, WorkspaceSyncAction::Stop),
        }
    }
}

/// A project being added: where it goes, its new id and its times.
#[derive(Clone, Debug)]
pub struct NewProject {
    pub plan: AddProjectPlan,
    pub project_id: String,
    pub created_at: String,
    pub updated_at: String,
}

/// How far adding a project has come.
#[derive(Clone, Debug)]
pub enum AddPhase {
    Start,
    /// The workspace folder is being made.
    MakingRoot(NewProject),
    /// The subfolder is being checked for a `project.json`.
    CheckingExisting(NewProject),
    /// The subfolder is being made.
    MakingFolder(NewProject),
    /// The subfolder is being checked to be a folder.
    CheckingDir(NewProject),
    /// The new `project.json` is being written.
    Saving(NewProject),
    /// The new project is being synced with Drive.
    Syncing(NewProject),
    Done,
}

/// How the first sync of a new project went.
#[derive(Debug)]
pub enum FirstSync {
    /// No Drive connection: nothing was synced.
    NotConnected,
    /// The synced data and the folder's PDFs and JSON files.
    Synced(ProjectData, Vec<DriveAsset>, Vec<DriveAsset>),
    /// The sync failed, for this reason.
    Failed(String),
}

/// What happened to the last action of adding a project.
#[derive(Debug)]
pub enum AddEvent {
    /// The settings, the workspace, a new project id and the creation and
    /// update times.
    Begin(DriveSettings, WorkspaceSettings, String, String, String),
    RootMade(Result<(), String>),
    /// Whether the subfolder already holds a `project.json`.
    Existing(bool),
    FolderMade(Result<(), String>),
    /// Whether the subfolder is a folder.
    IsDir(bool),
    Saved(Result<(), String>),
    Synced(FirstSync),
}

/// The next thing to do in adding a project.
#[derive(Debug)]
pub enum AddAction {
    Answer(StatusReply),
    MakeRoot(String),
    CheckExisting(String),
    MakeFolder(String),
    CheckDir(String),
    /// Write this data as the entry's `project.json`.
    Save(ProjectEntry, ProjectData),
    /// Sync the new project with Drive, if connected.
    Sync(ProjectEntry),
    /// Answer that the project was added.
    Added(SyncedReply),
    Stop,
}

/// Adding a project: checked, its folder made under the workspace folder,
/// its `project.json` written, then a first sync tried.
pub struct AddFlow {
    phase: AddPhase,
}

/// The entry of a new project.
pub open spec fn new_entry_is(e: ProjectEntry, n: NewProject, req: AddProjectRequest) -> bool {
    &&& e.project_id@ == n.project_id@
    &&& e.project_name@ == req.project_name@
    &&& e.folder_id@ == req.folder_id@
    &&& e.local_path@ == n.plan.local_path@
}

fn new_entry(n: &NewProject, req: &AddProjectRequest) -> (e: ProjectEntry)
    ensures
        new_entry_is(e, *n, *req),
{
    project_entry(
        n.project_id.as_str(),
        req.project_name.as_str(),
        req.folder_id.as_str(),
        n.plan.local_path.as_str(),
    )
}

fn new_data(n: &NewProject, req: &AddProjectRequest) -> (d: ProjectData)
    ensures
        is_fresh_project(
            d,
            n.project_id@,
            req.project_name@,
            req.folder_id@,
            n.created_at@,
            n.updated_at@,
        ),
{
    new_project_data(
        n.project_id.as_str(),
        req.project_name.as_str(),
        req.folder_id.as_str(),
        n.created_at.clone(),
        n.updated_at.clone(),
    )
}

impl AddFlow {
    pub closed spec fn phase(self) -> AddPhase {
        self.phase
    }

    /// Adding a project that has just been asked for.
    pub fn new() -> (r: Self)
        ensures
            r.phase() is Start,
    {
        AddFlow { phase: AddPhase::Start }
    }

    /// The next action of adding a project: the checks of `add_project`;
    /// make the workspace folder; refuse a subfolder that already holds a
    /// `project.json`; make the subfolder and check it is one; write the new
    /// `project.json`; try a first sync; answer with the project, its data
    /// (the synced data when the sync worked, else the new one) and the
    /// reason a failed sync gave. `project.json` is only ever written into a
    /// subfolder that held none and is a folder.
    pub fn step(self, req: &AddProjectRequest, event: AddEvent) -> (r: (AddFlow, AddAction))
        ensures
            r.1 is Save ==> (event matches AddEvent::IsDir(true) && self.phase() is CheckingDir),
            r.0.phase() is CheckingDir ==> (event matches AddEvent::FolderMade(Ok(_))
                && self.phase() is MakingFolder),
            r.0.phase() is MakingFolder ==> (event matches AddEvent::Existing(false)
                && self.phase() is CheckingExisting),
            self.phase() is Start ==> (event matches AddEvent::Begin(st, ws, id, c, u) ==> (
            (is_blank(req.project_name@) || is_blank(req.folder_id@)) ==> (r.1 matches AddAction::Answer(
                rep,
            ) && r.0.phase() is Done && reply_is(
                rep,
                400,
                false,
                false,
                false,
                "專案名稱、Folder ID 不能為空"@,
                None,
            )))),
            self.phase() is Start ==> (event matches AddEvent::Begin(st, ws, id, c, u) ==> (
            (!is_blank(req.project_name@) && !is_blank(req.folder_id@) && !st.is_authenticated()) ==> (
            r.1 matches AddAction::Answer(rep) && r.0.phase() is Done && reply_is(
                rep,
                403,
                false,
                true,
                false,
                "請先連線 Google Drive"@,
                None,
            )))),
            self.phase() is Start ==> (event matches AddEvent::Begin(st, ws, id, c, u) ==> (
            (!is_blank(req.project_name@) && !is_blank(req.folder_id@) && st.is_authenticated()
                && is_blank(ws.workspace_root@)) ==> (r.1 matches AddAction::Answer(rep)
                && r.0.phase() is Done && reply_is(
                rep,
                400,
                false,
                true,
                true,
                "請先在 Google Drive 設定中填寫工作區總資料夾"@,
                None,
            )))),
            self.phase() is Start ==> (event matches AddEvent::Begin(st, ws, id, c, u) ==> (
            (!is_blank(req.project_name@) && !is_blank(req.folder_id@) && st.is_authenticated()
                && !is_blank(ws.workspace_root@)) ==> (r.0.phase() matches AddPhase::MakingRoot(n)
                && r.1 matches AddAction::MakeRoot(root) && root@ == trimmed(ws.workspace_root@)
                && n.plan.root@ == root@ && n.plan.folder_name@ == sanitized(trimmed(req.project_name@))
                && is_joined(n.plan.local_path@, n.plan.root@, n.plan.folder_name@)
                && n.project_id == id && n.created_at == c && n.updated_at == u))),
            self.phase() matches AddPhase::MakingRoot(n) ==> (event matches AddEvent::RootMade(Ok(_))
                ==> (r.1 matches AddAction::CheckExisting(p) && p@ == n.plan.local_path@
                && r.0.phase() == AddPhase::CheckingExisting(n))),
            self.phase() matches AddPhase::MakingRoot(n) ==> (event matches AddEvent::RootMade(Err(e))
                ==> (r.1 matches AddAction::Answer(rep) && r.0.phase() is Done && reply_is(
                rep,
                500,
                false,
                true,
                true,
                "無法建立工作區總資料夾: "@ + e@,
                None,
            ))),
            self.phase() matches AddPhase::CheckingExisting(n) ==> (event matches AddEvent::Existing(true)
                ==> (r.1 matches AddAction::Answer(rep) && r.0.phase() is Done && reply_is(
                rep,
                400,
                false,
                true,
                true,
                "專案資料夾已存在: "@ + n.plan.local_path@,
                None,
            ))),
            self.phase() matches AddPhase::CheckingExisting(n) ==> (event matches AddEvent::Existing(false)
                ==> (r.1 matches AddAction::MakeFolder(p) && p@ == n.plan.local_path@
                && r.0.phase() == AddPhase::MakingFolder(n))),
            self.phase() matches AddPhase::MakingFolder(n) ==> (event matches AddEvent::FolderMade(Ok(_))
                ==> (r.1 matches AddAction::CheckDir(p) && p@ == n.plan.local_path@
                && r.0.phase() == AddPhase::CheckingDir(n))),
            self.phase() matches AddPhase::MakingFolder(n) ==> (event matches AddEvent::FolderMade(Err(e))
                ==> (r.1 matches AddAction::Answer(rep) && r.0.phase() is Done && reply_is(
                rep,
                500,
                false,
                true,
                true,
                "無法建立本地專案資料夾 "@ + n.plan.local_path@ + ": "@ + e@,
                None,
            ))),
            self.phase() matches AddPhase::CheckingDir(n) ==> (event matches AddEvent::IsDir(false) ==> (
            r.1 matches AddAction::Answer(rep) && r.0.phase() is Done && reply_is(
                rep,
                500,
                false,
                true,
                true,
                "本地專案資料夾建立後仍找不到："@ + n.plan.local_path@,
                None,
            ))),
            self.phase() matches AddPhase::CheckingDir(n) ==> (event matches AddEvent::IsDir(true) ==> (
            r.1 matches AddAction::Save(e, d) && r.0.phase() == AddPhase::Saving(n) && new_entry_is(
                e,
                n,
                *req,
            ) && is_fresh_project(
                d,
                n.project_id@,
                req.project_name@,
                req.folder_id@,
                n.created_at@,
                n.updated_at@,
            ))),
            self.phase() matches AddPhase::Saving(n) ==> (event matches AddEvent::Saved(Err(e)) ==> (
            r.1 matches AddAction::Answer(rep) && r.0.phase() is Done && reply_is(
                rep,
                500,
                false,
                true,
                true,
                "無法保存項目數據: "@ + e@,
                None,
            ))),
            self.phase() matches AddPhase::Saving(n) ==> (event matches AddEvent::Saved(Ok(_)) ==> (
            r.1 matches AddAction::Sync(e) && r.0.phase() == AddPhase::Syncing(n) && new_entry_is(
                e,
                n,
                *req,
            ))),
            self.phase() matches AddPhase::Syncing(n) ==> (event matches AddEvent::Synced(
                FirstSync::Synced(d, pdfs, jsons),
            ) ==> (r.1 matches AddAction::Added(rep) && r.0.phase() is Done && new_entry_is(
                rep.project_entry,
                n,
                *req,
            ) && synced_is(
                rep,
                add_project_message_of(req.project_name@, n.plan.local_path@, None),
                rep.project_entry,
                d,
                pdfs,
                jsons,
            ))),
            self.phase() matches AddPhase::Syncing(n) ==> (event matches AddEvent::Synced(
                FirstSync::NotConnected,
            ) ==> (r.1 matches AddAction::Added(rep) && r.0.phase() is Done && new_entry_is(
                rep.project_entry,
                n,
                *req,
            ) && rep.ok && rep.message@ == add_project_message_of(
                req.project_name@,
                n.plan.local_path@,
                None,
            ) && rep.project_id@ == n.project_id@ && is_fresh_project(
                rep.project_data,
                n.project_id@,
                req.project_name@,
                req.folder_id@,
                n.created_at@,
                n.updated_at@,
            ) && rep.pdfs@.len() == 0 && rep.jsons@.len() == 0)),
            self.phase() matches AddPhase::Syncing(n) ==> (event matches AddEvent::Synced(
                FirstSync::Failed(w),
            ) ==> (r.1 matches AddAction::Added(rep) && r.0.phase() is Done && new_entry_is(
                rep.project_entry,
                n,
                *req,
            ) && rep.ok && rep.message@ == add_project_message_of(
                req.project_name@,
                n.plan.local_path@,
                Some(w@),
            ) && rep.project_id@ == n.project_id@ && is_fresh_project(
                rep.project_data,
                n.project_id@,
                req.project_name@,
                req.folder_id@,
                n.created_at@,
                n.updated_at@,
            ) && rep.pdfs@.len() == 0 && rep.jsons@.len() == 0)),
            !(self.phase() is Start && event is Begin) && !(self.phase() is MakingRoot && event is RootMade)
                && !(self.phase() is CheckingExisting && event is Existing) && !(
            self.phase() is MakingFolder && event is FolderMade) && !(self.phase() is CheckingDir
                && event is IsDir) && !(self.phase() is Saving && event is Saved) && !(
            self.phase() is Syncing && event is Synced) ==> (r.0.phase() is Done && r.1 is Stop),
    {
        let done = AddFlow { phase: AddPhase::Done };
        match (self.phase, event) {
            (AddPhase::Start, AddEvent::Begin(st, ws, id, c, u)) => match add_project(req, &st, &ws) {
                Err(rep) => (done, AddAction::Answer(rep)),
                Ok(plan) => {
                    let root = plan.root.clone();
                    let n = NewProject { plan, project_id: id, created_at: c, updated_at: u };
                    (AddFlow { phase: AddPhase::MakingRoot(n) }, AddAction::MakeRoot(root))
                },
            },
            (AddPhase::MakingRoot(n), AddEvent::RootMade(res)) => match res {
                Ok(_) => {
                    let p = n.plan.local_path.clone();
                    (AddFlow { phase: AddPhase::CheckingExisting(n) }, AddAction::CheckExisting(p))
                },
                Err(e) => (
                    done,
                    AddAction::Answer(
                        add_project_failure_reply(
                            &AddProjectFailure::RootNotCreated(e),
                            n.plan.local_path.as_str(),
                        ),
                    ),
                ),
            },
            (AddPhase::CheckingExisting(n), AddEvent::Existing(exists)) => if exists {
                (
                    done,
                    AddAction::Answer(
                        add_project_failure_reply(
                            &AddProjectFailure::FolderExists,
                            n.plan.local_path.as_str(),
                        ),
                    ),
                )
            } else {
                let p = n.plan.local_path.clone();
                (AddFlow { phase: AddPhase::MakingFolder(n) }, AddAction::MakeFolder(p))
            },
            (AddPhase::MakingFolder(n), AddEvent::FolderMade(res)) => match res {
                Ok(_) => {
                    let p = n.plan.local_path.clone();
                    (AddFlow { phase: AddPhase::CheckingDir(n) }, AddAction::CheckDir(p))
                },
                Err(e) => (
                    done,
                    AddAction::Answer(
                        add_project_failure_reply(
                            &AddProjectFailure::FolderNotCreated(e),
                            n.plan.local_path.as_str(),
                        ),
                    ),
                ),
            },
            (AddPhase::CheckingDir(n), AddEvent::IsDir(is_dir)) => if is_dir {
                let e = new_entry(&n, req);
                let d = new_data(&n, req);
                (AddFlow { phase: AddPhase::Saving(n) }, AddAction::Save(e, d))
            } else {
                (
                    done,
                    AddAction::Answer(
                        add_project_failure_reply(
                            &AddProjectFailure::FolderMissing,
                            n.plan.local_path.as_str(),
                        ),
                    ),
                )
            },
            (AddPhase::Saving(n), AddEvent::Saved(res)) => match res {
                Ok(_) => {
                    let e = new_entry(&n, req);
                    (AddFlow { phase: AddPhase::Syncing(n) }, AddAction::Sync(e))
                },
                Err(e) => (
                    done,
                    AddAction::Answer(
                        add_project_failure_reply(
                            &AddProjectFailure::NotSaved(e),
                            n.plan.local_path.as_str(),
                        ),
                    ),
                ),
            },
            (AddPhase::Syncing(n), AddEvent::Synced(outcome)) => {
                let e = new_entry(&n, req);
                let rep = match outcome {
                    FirstSync::Synced(d, pdfs, jsons) => added_project_reply(e, d, pdfs, jsons, &None),
                    FirstSync::NotConnected => added_project_reply(
                        e,
                        new_data(&n, req),
                        Vec::new(),
                        Vec::new(),
                        &None,
                    ),
                    FirstSync::Failed(w) => added_project_reply(
                        e,
                        new_data(&n, req),
                        Vec::new(),
                        Vec::new(),
                        &Some(w),
                    ),
                };
                (done, AddAction::Added(rep))
            },
            _ => (done, AddAction::Stop),
        }
    }
}

} // verus!
