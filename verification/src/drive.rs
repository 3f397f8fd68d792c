//! Google Drive: the client interface, the requests the REST client sends,
//! the OAuth consent address and the handling of the tokens that come back.

use vstd::prelude::*;
use vstd::utf8::encode_utf8;
use crate::config::DriveSettings;
use crate::json::{fields_view, json_object, json_object_of, text_field, JsonField, JsonFieldView};
use crate::text::{blank, ends_with, has_suffix, is_blank, lowercase, text_eq, to_lowercase};

verus! {

/// A file listed in a Drive folder.
#[derive(Clone, Debug)]
pub struct DriveFile {
    pub id: String,
    pub name: String,
    pub mime_type: String,
    pub modified_time: String,
}

/// The kind of a failure in talking to Drive or to the disk.
#[derive(Clone, Copy, Debug, PartialEq, Eq, Structural)]
pub enum DriveErrorKind {
    Unsupported,
    PermissionDenied,
    NotFound,
    InvalidInput,
    InvalidData,
    Other,
}

/// A failure with its kind and its message.
#[derive(Clone, Debug)]
pub struct DriveError {
    pub kind: DriveErrorKind,
    pub message: String,
}

/// What a Drive client does: fetch a file, put a file into a folder, list
/// the JSON files of a folder. Paths are local file paths as text.
pub trait GoogleDriveClient {
    fn download_file(&self, file_id: &str, target_path: &str) -> Result<(), DriveError>;

    fn upload_to_folder(&self, local_path: &str, folder_id: &str, file_name: &str) -> Result<
        (),
        DriveError,
    >;

    fn upload_file_to_folder(
        &self,
        local_path: &str,
        folder_id: &str,
        file_name: &str,
        mime_type: &str,
    ) -> Result<(), DriveError>;

    fn list_json_files(&self, folder_id: &str) -> Result<Vec<DriveFile>, DriveError>;
}

/// The message of a client that has no Drive behind it.
pub open spec fn not_configured_message() -> Seq<char> {
    "Google Drive API is not configured yet"@
}

/// A failure of a kind not otherwise told apart, with its message: what a
/// failed request or an unreadable reply becomes.
pub fn to_io_error(message: &str) -> (e: DriveError)
    ensures
        e.kind == DriveErrorKind::Other,
        e.message@ == message@,
{
    DriveError { kind: DriveErrorKind::Other, message: String::from_str(message) }
}

/// A client with no Drive behind it: every transfer fails as unsupported and
/// every folder lists empty.
pub struct GoogleDriveStub;

fn not_configured() -> (e: DriveError)
    ensures
        e.kind == DriveErrorKind::Unsupported,
        e.message@ == not_configured_message(),
{
    DriveError {
        kind: DriveErrorKind::Unsupported,
        message: String::from_str("Google Drive API is not configured yet"),
    }
}

impl GoogleDriveClient for GoogleDriveStub {
    fn download_file(&self, _file_id: &str, _target_path: &str) -> (r: Result<(), DriveError>)
        ensures
            r matches Err(e) && e.kind == DriveErrorKind::Unsupported && e.message@
                == not_configured_message(),
    {
        Err(not_configured())
    }

    fn upload_to_folder(&self, _local_path: &str, _folder_id: &str, _file_name: &str) -> (r:
        Result<(), DriveError>)
        ensures
            r matches Err(e) && e.kind == DriveErrorKind::Unsupported && e.message@
                == not_configured_message(),
    {
        Err(not_configured())
    }

    fn upload_file_to_folder(
        &self,
        _local_path: &str,
        _folder_id: &str,
        _file_name: &str,
        _mime_type: &str,
    ) -> (r: Result<(), DriveError>)
        ensures
            r matches Err(e) && e.kind == DriveErrorKind::Unsupported && e.message@
                == not_configured_message(),
    {
        Err(not_configured())
    }

    fn list_json_files(&self, _folder_id: &str) -> (r: Result<Vec<DriveFile>, DriveError>)
        ensures
            r matches Ok(v) && v@.len() == 0,
    {
        Ok(Vec::new())
    }
}

/// A file name ends in `.json` once lowercased, or its type is JSON.
pub open spec fn is_json_file(f: DriveFile) -> bool {
    has_suffix(lowercase(f.name@), ".json"@) || f.mime_type@ == "application/json"@
}

/// Whether a listed file is a JSON file.
pub fn drive_file_is_json(f: &DriveFile) -> (b: bool)
    ensures
        b == is_json_file(*f),
{
    let lower = to_lowercase(f.name.as_str());
    ends_with(lower.as_str(), ".json") || text_eq(f.mime_type.as_str(), "application/json")
}

/// The ids of the JSON files among `files`, in listing order.
pub open spec fn json_file_ids(files: Seq<DriveFile>) -> Seq<Seq<char>>
    decreases files.len(),
{
    if files.len() == 0 {
        seq![]
    } else {
        let rest = json_file_ids(files.drop_last());
        if is_json_file(files.last()) {
            rest.push(files.last().id@)
        } else {
            rest
        }
    }
}

/// A listed file is a JSON file exactly when its name, lowercased, ends in
/// `.json` or its type is `application/json`: such a type makes it one
/// whatever its name.
pub proof fn json_files_by_name_or_type(f: DriveFile)
    ensures
        is_json_file(f) <==> (has_suffix(lowercase(f.name@), ".json"@) || f.mime_type@
            == "application/json"@),
        f.mime_type@ == "application/json"@ ==> is_json_file(f),
{
}

/// One more listed file adds its id to the JSON ids when it is a JSON file,
/// and nothing otherwise.
pub proof fn json_file_ids_of_one_more(files: Seq<DriveFile>, f: DriveFile)
    ensures
        json_file_ids(files.push(f)) == if has_suffix(lowercase(f.name@), ".json"@) || f.mime_type@
            == "application/json"@ {
            json_file_ids(files).push(f.id@)
        } else {
            json_file_ids(files)
        },
{
    assert(files.push(f).drop_last() =~= files);
}

/// The message when no access token is held.
pub open spec fn not_authenticated_message() -> Seq<char> {
    "Google Drive is not authenticated"@
}

/// A client of the Drive REST API with the settings it authenticates with.
/// The requests it sends are built here; sending them is done by the caller.
pub struct GoogleDriveRestClient {
    settings: DriveSettings,
}

impl GoogleDriveRestClient {
    pub closed spec fn settings_view(self) -> DriveSettings {
        self.settings
    }

    /// A client for the given settings.
    pub fn new(settings: DriveSettings) -> (r: Self)
        ensures
            r.settings_view() == settings,
    {
        Self { settings }
    }

    /// The settings the client authenticates with.
    pub fn settings(&self) -> (r: &DriveSettings)
        ensures
            *r == self.settings_view(),
    {
        &self.settings
    }

    /// The access token, refused as permission denied when it is blank.
    pub fn access_token(&self) -> (r: Result<String, DriveError>)
        ensures
            is_blank(self.settings_view().access_token@) ==> (r matches Err(e) && e.kind
                == DriveErrorKind::PermissionDenied && e.message@ == not_authenticated_message()),
            !is_blank(self.settings_view().access_token@) ==> (r matches Ok(t) && t
                == self.settings_view().access_token),
    {
        if blank(self.settings.access_token.as_str()) {
            return Err(
                DriveError {
                    kind: DriveErrorKind::PermissionDenied,
                    message: String::from_str("Google Drive is not authenticated"),
                },
            );
        }
        Ok(self.settings.access_token.clone())
    }

    /// Of a folder's listing, the ids of the JSON files to move to the
    /// trash, in listing order; each is sent as a trash request, and the
    /// number trashed is their count.
    pub fn trash_json_files_in_folder(&self, files: &Vec<DriveFile>) -> (r: Vec<String>)
        ensures
            r@.len() == json_file_ids(files@).len(),
            forall|i: int| 0 <= i < r@.len() ==> #[trigger] r@[i]@ == json_file_ids(files@)[i],
    {
        let mut ids: Vec<String> = Vec::new();
        let mut i: usize = 0;
        while i < files.len()
            invariant
                i <= files.len(),
                ids@.len() == json_file_ids(files@.subrange(0, i as int)).len(),
                forall|k: int|
                    0 <= k < ids@.len() ==> #[trigger] ids@[k]@ == json_file_ids(
                        files@.subrange(0, i as int),
                    )[k],
            decreases files.len() - i,
        {
            let ghost before = files@.subrange(0, i as int);
            assert(files@.subrange(0, i + 1).drop_last() =~= before);
            if drive_file_is_json(&files[i]) {
                ids.push(files[i].id.clone());
            }
            i = i + 1;
        }
        assert(files@.subrange(0, files@.len() as int) =~= files@);
        ids
    }
}


/// The text views of a list of name/value pairs.
pub open spec fn pair_views(v: Seq<(String, String)>) -> Seq<(Seq<char>, Seq<char>)> {
    Seq::new(v.len(), |i: int| (v[i].0@, v[i].1@))
}

/// The value of the first pair named `key`.
pub open spec fn first_value(pairs: Seq<(Seq<char>, Seq<char>)>, key: Seq<char>) -> Option<
    Seq<char>,
>
    decreases pairs.len(),
{
    if pairs.len() == 0 {
        None
    } else if pairs[0].0 == key {
        Some(pairs[0].1)
    } else {
        first_value(pairs.drop_first(), key)
    }
}

/// A lookup finds the value of the earliest pair with the name, and finds
/// nothing exactly when no pair has it.
pub proof fn first_value_is_earliest(pairs: Seq<(Seq<char>, Seq<char>)>, key: Seq<char>, i: int)
    ensures
        0 <= i < pairs.len() && pairs[i].0 == key && (forall|j: int| 0 <= j < i ==> pairs[j].0 != key)
            ==> first_value(pairs, key) == Some(pairs[i].1),
        first_value(pairs, key) is None <==> forall|j: int| 0 <= j < pairs.len() ==> pairs[j].0 != key,
    decreases pairs.len(),
{
    if pairs.len() > 0 {
        first_value_is_earliest(pairs.drop_first(), key, i - 1);
        if 0 <= i < pairs.len() && pairs[i].0 == key && (forall|j: int| 0 <= j < i ==> pairs[j].0 != key) && i > 0 {
            assert(pairs[0].0 != key);
            assert(pairs.drop_first()[i - 1] == pairs[i]);
            assert forall|j: int| 0 <= j < i - 1 implies pairs.drop_first()[j].0 != key by {
                assert(pairs.drop_first()[j] == pairs[j + 1]);
            }
        }
        if pairs[0].0 != key {
            if forall|j: int| 0 <= j < pairs.drop_first().len() ==> pairs.drop_first()[j].0 != key {
                assert forall|j: int| 0 <= j < pairs.len() implies pairs[j].0 != key by {
                    if j > 0 {
                        assert(pairs[j] == pairs.drop_first()[j - 1]);
                    }
                }
            }
            if forall|j: int| 0 <= j < pairs.len() ==> pairs[j].0 != key {
                assert forall|j: int| 0 <= j < pairs.drop_first().len() implies pairs.drop_first()[j].0 != key by {
                    assert(pairs.drop_first()[j] == pairs[j + 1]);
                }
            }
        }
    }
}

/// The value of the first pair named `key`.
pub fn find_value(pairs: &Vec<(String, String)>, key: &str) -> (r: Option<String>)
    ensures
        r is None <==> first_value(pair_views(pairs@), key@) is None,
        r matches Some(v) ==> first_value(pair_views(pairs@), key@) == Some(v@),
{
    let ghost all = pair_views(pairs@);
    assert(all.subrange(0, all.len() as int) =~= all);
    let mut i: usize = 0;
    while i < pairs.len()
        invariant
            i <= pairs.len(),
            all == pair_views(pairs@),
            first_value(all, key@) == first_value(all.subrange(i as int, all.len() as int), key@),
        decreases pairs.len() - i,
    {
        let ghost rest = all.subrange(i as int, all.len() as int);
        assert(rest.drop_first() =~= all.subrange(i + 1, all.len() as int));
        assert(rest[0] == (pairs@[i as int].0@, pairs@[i as int].1@));
        if text_eq(pairs[i].0.as_str(), key) {
            return Some(pairs[i].1.clone());
        }
        i = i + 1;
    }
    assert(all.subrange(i as int, all.len() as int) =~= Seq::<(Seq<char>, Seq<char>)>::empty());
    None
}

/// What the `url` crate makes of `base` with `pairs` appended to its query,
/// each name and value form-urlencoded.
pub uninterp spec fn url_with_query_of(base: Seq<char>, pairs: Seq<(Seq<char>, Seq<char>)>) -> Seq<
    char,
>;

/// `Url::parse(base)` with the pairs appended through `query_pairs_mut`,
/// then written out. The contract names the result as a function of the base
/// and the pairs. The base is the consent address, which parses.
#[verifier::external_body]
fn url_with_query(base: &str, pairs: &Vec<(String, String)>) -> (r: String)
    requires
        base@ == oauth_consent_endpoint(),
    ensures
        r@ == url_with_query_of(base@, pair_views(pairs@)),
{
    let mut url = url::Url::parse(base).unwrap();
    url.query_pairs_mut().extend_pairs(pairs.iter());
    url.to_string()
}

/// The query pairs of a URL as the `url` crate parses it, or nothing where it
/// does not parse.
pub uninterp spec fn url_query_pairs_of(url: Seq<char>) -> Option<Seq<(Seq<char>, Seq<char>)>>;

/// `Url::parse(url)` and its `query_pairs`, decoded. The contract names the
/// result as a function of the text.
#[verifier::external_body]
fn url_query_pairs(url: &str) -> (r: Option<Vec<(String, String)>>)
    ensures
        r is None <==> url_query_pairs_of(url@) is None,
        r matches Some(v) ==> url_query_pairs_of(url@) == Some(pair_views(v@)),
{
    match url::Url::parse(url) {
        Ok(u) => Some(u.query_pairs().map(|(k, v)| (k.into_owned(), v.into_owned())).collect()),
        Err(_) => None,
    }
}

/// Google's OAuth consent address.
pub open spec fn oauth_consent_endpoint() -> Seq<char> {
    "https://accounts.google.com/o/oauth2/v2/auth"@
}

/// The query of the consent request, in this order: client id, redirect
/// address, response type `code`, scope, offline access, consent prompt.
pub open spec fn consent_pairs(settings: DriveSettings) -> Seq<(Seq<char>, Seq<char>)> {
    seq![
        ("client_id"@, settings.client_id@),
        ("redirect_uri"@, settings.redirect_uri_text()),
        ("response_type"@, "code"@),
        ("scope"@, settings.scope@),
        ("access_type"@, "offline"@),
        ("prompt"@, "consent"@),
    ]
}

fn pair(name: &str, value: &str) -> (r: (String, String))
    ensures
        r.0@ == name@,
        r.1@ == value@,
{
    (String::from_str(name), String::from_str(value))
}

/// The address of Google's consent page for these settings.
pub fn authorization_url(settings: &DriveSettings) -> (r: String)
    ensures
        r@ == url_with_query_of(oauth_consent_endpoint(), consent_pairs(*settings)),
{
    let redirect = settings.redirect_uri();
    let mut pairs: Vec<(String, String)> = Vec::new();
    pairs.push(pair("client_id", settings.client_id.as_str()));
    pairs.push(pair("redirect_uri", redirect.as_str()));
    pairs.push(pair("response_type", "code"));
    pairs.push(pair("scope", settings.scope.as_str()));
    pairs.push(pair("access_type", "offline"));
    pairs.push(pair("prompt", "consent"));
    assert(pair_views(pairs@) =~= consent_pairs(*settings));
    url_with_query("https://accounts.google.com/o/oauth2/v2/auth", &pairs)
}

/// The code a consent redirect carries: the first `code` pair of the query of
/// the target in the request's first line, read as a URL on this machine.
pub open spec fn oauth_code_of(request: Seq<char>) -> Option<Seq<char>> {
    match crate::http::request_line_of(request) {
        Some((_, target)) => match url_query_pairs_of("http://127.0.0.1"@ + target) {
            Some(pairs) => first_value(pairs, "code"@),
            None => None,
        },
        None => None,
    }
}

/// The authorization code in the request the consent page redirects with.
pub fn parse_oauth_code(request: &str) -> (r: Option<String>)
    ensures
        r is None <==> oauth_code_of(request@) is None,
        r matches Some(c) ==> oauth_code_of(request@) == Some(c@),
{
    match crate::http::request_line(request) {
        Some((_, target)) => {
            let url = String::from_str("http://127.0.0.1").concat(target.as_str());
            match url_query_pairs(url.as_str()) {
                Some(pairs) => find_value(&pairs, "code"),
                None => None,
            }
        },
        None => None,
    }
}

/// The consent redirect carried no authorization code.
pub fn missing_code_error() -> (e: DriveError)
    ensures
        e.kind == DriveErrorKind::InvalidData,
        e.message@ == "OAuth redirect did not contain a code"@,
{
    DriveError {
        kind: DriveErrorKind::InvalidData,
        message: String::from_str("OAuth redirect did not contain a code"),
    }
}

/// The form that trades an authorization code for tokens.
pub open spec fn code_exchange_pairs(settings: DriveSettings, code: Seq<char>) -> Seq<
    (Seq<char>, Seq<char>),
> {
    seq![
        ("code"@, code),
        ("client_id"@, settings.client_id@),
        ("client_secret"@, settings.client_secret@),
        ("redirect_uri"@, settings.redirect_uri_text()),
        ("grant_type"@, "authorization_code"@),
    ]
}

/// The form posted to Google's token endpoint for an authorization code.
pub fn code_exchange_form(settings: &DriveSettings, code: &str) -> (r: Vec<(String, String)>)
    ensures
        pair_views(r@) == code_exchange_pairs(*settings, code@),
{
    let redirect = settings.redirect_uri();
    let mut pairs: Vec<(String, String)> = Vec::new();
    pairs.push(pair("code", code));
    pairs.push(pair("client_id", settings.client_id.as_str()));
    pairs.push(pair("client_secret", settings.client_secret.as_str()));
    pairs.push(pair("redirect_uri", redirect.as_str()));
    pairs.push(pair("grant_type", "authorization_code"));
    assert(pair_views(pairs@) =~= code_exchange_pairs(*settings, code@));
    pairs
}

/// The form that asks for a fresh access token.
pub open spec fn refresh_pairs(settings: DriveSettings) -> Seq<(Seq<char>, Seq<char>)> {
    seq![
        ("client_id"@, settings.client_id@),
        ("client_secret"@, settings.client_secret@),
        ("refresh_token"@, settings.refresh_token@),
        ("grant_type"@, "refresh_token"@),
    ]
}

/// The form to post for a fresh access token; none when the refresh token is
/// blank, in which case the settings stay as they are.
pub fn refresh_form(settings: &DriveSettings) -> (r: Option<Vec<(String, String)>>)
    ensures
        r is None <==> is_blank(settings.refresh_token@),
        r matches Some(v) ==> pair_views(v@) == refresh_pairs(*settings),
{
    if blank(settings.refresh_token.as_str()) {
        return None;
    }
    let mut pairs: Vec<(String, String)> = Vec::new();
    pairs.push(pair("client_id", settings.client_id.as_str()));
    pairs.push(pair("client_secret", settings.client_secret.as_str()));
    pairs.push(pair("refresh_token", settings.refresh_token.as_str()));
    pairs.push(pair("grant_type", "refresh_token"));
    assert(pair_views(pairs@) =~= refresh_pairs(*settings));
    Some(pairs)
}

/// The lifetime assumed for an access token whose lifetime is not given.
pub const DEFAULT_TOKEN_LIFETIME: i64 = 3600;

/// The expiry time of a token issued at `now`.
pub open spec fn expiry_of(now: i64, expires_in: Option<i64>) -> int {
    now + match expires_in {
        Some(s) => s,
        None => DEFAULT_TOKEN_LIFETIME,
    }
}

/// The settings after the consent flow: the new access token, the refresh
/// token if one came, and the expiry time.
pub fn with_granted_tokens(
    settings: DriveSettings,
    access_token: String,
    refresh_token: Option<String>,
    expires_in: Option<i64>,
    now: i64,
) -> (r: DriveSettings)
    requires
        i64::MIN <= expiry_of(now, expires_in) <= i64::MAX,
    ensures
        r.access_token == access_token,
        r.refresh_token == match refresh_token {
            Some(t) => t,
            None => settings.refresh_token,
        },
        r.expires_at_epoch == expiry_of(now, expires_in),
        r.client_id == settings.client_id,
        r.client_secret == settings.client_secret,
        r.redirect_port == settings.redirect_port,
        r.scope == settings.scope,
{
    let mut settings = settings;
    settings.access_token = access_token;
    if let Some(t) = refresh_token {
        settings.refresh_token = t;
    }
    let lifetime = match expires_in {
        Some(s) => s,
        None => DEFAULT_TOKEN_LIFETIME,
    };
    settings.expires_at_epoch = now + lifetime;
    settings
}

/// The settings after a refresh: the new access token and its expiry time;
/// the refresh token stays.
pub fn with_refreshed_token(
    settings: DriveSettings,
    access_token: String,
    expires_in: Option<i64>,
    now: i64,
) -> (r: DriveSettings)
    requires
        i64::MIN <= expiry_of(now, expires_in) <= i64::MAX,
    ensures
        r.access_token == access_token,
        r.expires_at_epoch == expiry_of(now, expires_in),
        r.refresh_token == settings.refresh_token,
        r.client_id == settings.client_id,
        r.client_secret == settings.client_secret,
        r.redirect_port == settings.redirect_port,
        r.scope == settings.scope,
{
    with_granted_tokens(settings, access_token, None, expires_in, now)
}


/// The `Authorization` header value for a token.
pub fn bearer(token: &str) -> (r: String)
    ensures
        r@ == "Bearer "@ + token@,
{
    String::from_str("Bearer ").concat(token)
}

/// The address that serves a file's content.
pub fn download_url(file_id: &str) -> (r: String)
    ensures
        r@ == "https://www.googleapis.com/drive/v3/files/"@ + file_id@ + "?alt=media"@,
{
    String::from_str("https://www.googleapis.com/drive/v3/files/").concat(file_id).concat(
        "?alt=media",
    )
}

/// The address of one file's metadata, which a trash request patches.
pub fn file_url(file_id: &str) -> (r: String)
    ensures
        r@ == "https://www.googleapis.com/drive/v3/files/"@ + file_id@,
{
    String::from_str("https://www.googleapis.com/drive/v3/files/").concat(file_id)
}

/// The search for the files of a folder that are not in the trash.
pub fn list_files_query(folder_id: &str) -> (r: String)
    ensures
        r@ == "'"@ + folder_id@ + "' in parents and trashed = false"@,
{
    String::from_str("'").concat(folder_id).concat("' in parents and trashed = false")
}

/// The search for the JSON files of a folder that are not in the trash.
pub fn list_json_query(folder_id: &str) -> (r: String)
    ensures
        r@ == "'"@ + folder_id@ + "' in parents and trashed = false and name contains '.json'"@,
{
    String::from_str("'").concat(folder_id).concat(
        "' in parents and trashed = false and name contains '.json'",
    )
}

/// `s` with a backslash before each single quote.
pub open spec fn escape_quotes(s: Seq<char>) -> Seq<char>
    decreases s.len(),
{
    if s.len() == 0 {
        seq![]
    } else {
        escape_quotes(s.drop_last()) + if s.last() == '\'' {
            seq!['\\', '\'']
        } else {
            seq![s.last()]
        }
    }
}

/// Escaping quotes works character by character: escaping two texts one
/// after the other gives the escape of the two together.
pub proof fn escape_quotes_of_concat(a: Seq<char>, b: Seq<char>)
    ensures
        escape_quotes(a + b) == escape_quotes(a) + escape_quotes(b),
    decreases b.len(),
{
    if b.len() == 0 {
        assert(a + b =~= a);
        assert(escape_quotes(a) + escape_quotes(b) =~= escape_quotes(a));
    } else {
        escape_quotes_of_concat(a, b.drop_last());
        assert((a + b).drop_last() =~= a + b.drop_last());
        assert((a + b).last() == b.last());
        let tail = if b.last() == '\'' { seq!['\\', '\''] } else { seq![b.last()] };
        assert(escape_quotes(a) + escape_quotes(b.drop_last()) + tail =~= escape_quotes(a) + (
        escape_quotes(b.drop_last()) + tail));
    }
}

/// A single quote is written as a backslash and the quote; a text without
/// single quotes is kept as it is.
pub proof fn escape_quotes_touches_only_quotes(s: Seq<char>)
    ensures
        escape_quotes(seq!['\'']) == seq!['\\', '\''],
        (forall|i: int| 0 <= i < s.len() ==> s[i] != '\'') ==> escape_quotes(s) == s,
    decreases s.len(),
{
    let q: Seq<char> = seq!['\''];
    assert(q.drop_last() =~= Seq::<char>::empty());
    assert(q.last() == '\'');
    assert(escape_quotes(q.drop_last()) =~= Seq::<char>::empty());
    assert(escape_quotes(q) == escape_quotes(q.drop_last()) + seq!['\\', '\'']);
    assert(Seq::<char>::empty() + seq!['\\', '\''] =~= seq!['\\', '\'']);
    if s.len() > 0 {
        escape_quotes_touches_only_quotes(s.drop_last());
        if forall|i: int| 0 <= i < s.len() ==> s[i] != '\'' {
            assert(s.last() == s[s.len() - 1]);
            assert forall|i: int| 0 <= i < s.drop_last().len() implies s.drop_last()[i] != '\'' by {
                assert(s.drop_last()[i] == s[i]);
            }
            assert(s.drop_last() + seq![s.last()] =~= s);
        }
    }
}

/// `s.replace('\'', "\\'")`.
pub fn escape_single_quotes(s: &str) -> (r: String)
    ensures
        r@ == escape_quotes(s@),
{
    let chars = crate::text::chars_of(s);
    let mut r = String::new();
    let mut i: usize = 0;
    while i < chars.len()
        invariant
            chars@ == s@,
            i <= chars.len(),
            r@ == escape_quotes(chars@.subrange(0, i as int)),
        decreases chars.len() - i,
    {
        assert(chars@.subrange(0, i + 1).drop_last() =~= chars@.subrange(0, i as int));
        if chars[i] == '\'' {
            r = r.concat("\\'");
            proof {
                reveal_strlit("\\'");
            }
            assert(r@ =~= escape_quotes(chars@.subrange(0, i + 1)));
        } else {
            crate::text::push_char(&mut r, chars[i]);
            assert(r@ =~= escape_quotes(chars@.subrange(0, i + 1)));
        }
        i = i + 1;
    }
    assert(chars@.subrange(0, chars@.len() as int) =~= chars@);
    r
}

/// The search for a file of a given name in a folder, not in the trash.
pub fn find_file_query(folder_id: &str, name: &str) -> (r: String)
    ensures
        r@ == "'"@ + folder_id@ + "' in parents and trashed = false and name = '"@ + escape_quotes(
            name@,
        ) + "'"@,
{
    let escaped = escape_single_quotes(name);
    String::from_str("'").concat(folder_id).concat(
        "' in parents and trashed = false and name = '",
    ).concat(escaped.as_str()).concat("'")
}

/// The id of the first file of a listing.
pub fn first_file_id(files: &Vec<DriveFile>) -> (r: Option<String>)
    ensures
        files@.len() == 0 ==> r is None,
        files@.len() > 0 ==> (r matches Some(id) && id@ == files@[0].id@),
{
    if files.len() == 0 {
        None
    } else {
        Some(files[0].id.clone())
    }
}

/// The fields of an upload's metadata: a new file gets the folder as its
/// parent, an existing one is only renamed.
pub open spec fn upload_fields(file_name: Seq<char>, folder_id: Seq<char>, existing: bool) -> Seq<
    (Seq<char>, JsonFieldView),
> {
    if existing {
        seq![("name"@, JsonFieldView::Text(file_name))]
    } else {
        seq![
            ("name"@, JsonFieldView::Text(file_name)),
            ("parents"@, JsonFieldView::TextList(seq![folder_id])),
        ]
    }
}

/// The metadata part of an upload, as compact JSON.
pub open spec fn upload_metadata_of(file_name: Seq<char>, folder_id: Seq<char>, existing: bool) -> Seq<
    char,
> {
    json_object_of(upload_fields(file_name, folder_id, existing))
}

/// The metadata part of an upload.
pub fn upload_metadata(file_name: &str, folder_id: &str, existing: bool) -> (r: String)
    ensures
        r@ == upload_metadata_of(file_name@, folder_id@, existing),
{
    let mut fields: Vec<(String, JsonField)> = Vec::new();
    fields.push(text_field("name", file_name));
    if !existing {
        let mut parents: Vec<String> = Vec::new();
        parents.push(String::from_str(folder_id));
        fields.push((String::from_str("parents"), JsonField::TextList(parents)));
        assert(Seq::new(parents@.len(), |i: int| parents@[i]@) =~= seq![folder_id@]);
    }
    proof {
        reveal_strlit("name");
        reveal_strlit("parents");
    }
    assert(fields_view(fields@) =~= upload_fields(file_name@, folder_id@, existing));
    json_object(&fields)
}

/// The content type of an upload request.
pub fn multipart_content_type() -> (r: String)
    ensures
        r@ == "multipart/related; boundary=papercomposer-boundary"@,
{
    String::from_str("multipart/related; boundary=papercomposer-boundary")
}

/// The text before the file's bytes in an upload.
pub open spec fn multipart_head(metadata: Seq<char>, mime_type: Seq<char>) -> Seq<char> {
    "--papercomposer-boundary\r\nContent-Type: application/json; charset=UTF-8\r\n\r\n"@ + metadata
        + "\r\n--papercomposer-boundary\r\nContent-Type: "@ + mime_type + "\r\n\r\n"@
}

/// The text after the file's bytes in an upload.
pub open spec fn multipart_tail() -> Seq<char> {
    "\r\n--papercomposer-boundary--\r\n"@
}

/// The body of an upload: the metadata part, then the file's bytes as a part
/// of the given type.
pub fn multipart_body(metadata: &str, mime_type: &str, content: &[u8]) -> (r: Vec<u8>)
    ensures
        r@ == encode_utf8(multipart_head(metadata@, mime_type@)) + content@ + encode_utf8(
            multipart_tail(),
        ),
{
    let head = String::from_str(
        "--papercomposer-boundary\r\nContent-Type: application/json; charset=UTF-8\r\n\r\n",
    ).concat(metadata).concat("\r\n--papercomposer-boundary\r\nContent-Type: ").concat(
        mime_type,
    ).concat("\r\n\r\n");
    let tail = String::from_str("\r\n--papercomposer-boundary--\r\n");
    let mut body: Vec<u8> = Vec::new();
    body.extend_from_slice(head.as_str().as_bytes());
    body.extend_from_slice(content);
    body.extend_from_slice(tail.as_str().as_bytes());
    body
}

/// Where an upload goes: onto the existing file, or as a new file.
pub fn upload_url(existing_id: &Option<String>) -> (r: String)
    ensures
        existing_id matches Some(id) ==> r@ == "https://www.googleapis.com/upload/drive/v3/files/"@
            + id@ + "?uploadType=multipart"@,
        existing_id is None ==> r@ == "https://www.googleapis.com/upload/drive/v3/files?uploadType=multipart"@,
{
    match existing_id {
        Some(id) => String::from_str("https://www.googleapis.com/upload/drive/v3/files/").concat(
            id.as_str(),
        ).concat("?uploadType=multipart"),
        None => String::from_str(
            "https://www.googleapis.com/upload/drive/v3/files?uploadType=multipart",
        ),
    }
}

/// How an upload is sent: onto an existing file, or as a new one.
#[derive(Clone, Copy, Debug, PartialEq, Eq, Structural)]
pub enum UploadMethod {
    Patch,
    Post,
}

/// An upload ready to send: its method, address, content type and body.
#[derive(Clone, Debug)]
pub struct UploadRequest {
    pub method: UploadMethod,
    pub url: String,
    pub content_type: String,
    pub body: Vec<u8>,
}

/// The upload of a file's bytes into a Drive folder: a file of that name
/// already there (`existing_id`) is overwritten with a PATCH and keeps its
/// place, otherwise a new file is POSTed with the folder as its parent.
pub fn upload_request(
    file_name: &str,
    folder_id: &str,
    mime_type: &str,
    content: &[u8],
    existing_id: &Option<String>,
) -> (r: UploadRequest)
    ensures
        r.method == (if existing_id is Some {
            UploadMethod::Patch
        } else {
            UploadMethod::Post
        }),
        existing_id matches Some(id) ==> r.url@ == "https://www.googleapis.com/upload/drive/v3/files/"@
            + id@ + "?uploadType=multipart"@,
        existing_id is None ==> r.url@ == "https://www.googleapis.com/upload/drive/v3/files?uploadType=multipart"@,
        r.content_type@ == "multipart/related; boundary=papercomposer-boundary"@,
        r.body@ == encode_utf8(
            multipart_head(
                upload_metadata_of(file_name@, folder_id@, existing_id is Some),
                mime_type@,
            ),
        ) + content@ + encode_utf8(multipart_tail()),
{
    let existing = existing_id.is_some();
    let metadata = upload_metadata(file_name, folder_id, existing);
    let body = multipart_body(metadata.as_str(), mime_type, content);
    let method = if existing {
        UploadMethod::Patch
    } else {
        UploadMethod::Post
    };
    UploadRequest {
        method,
        url: upload_url(existing_id),
        content_type: multipart_content_type(),
        body,
    }
}

} // verus!
