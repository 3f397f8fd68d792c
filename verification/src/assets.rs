//! The files of a project folder and of its Drive folder: which are PDFs and
//! JSON, which to fetch, which to send, and how a folder is summed up.

use vstd::prelude::*;
use crate::drive::{drive_file_is_json, is_json_file, DriveFile};
use crate::json::{json_bool_member, json_bool_member_of};
use crate::numeric::{decimal, decimal_text};
use crate::order::{arranged, is_stable_sort, permute, stable_order, views};
use crate::text::{
    chars_of, ends_with, has_prefix, has_suffix, lowercase, push_char, starts_with, text_eq,
    to_lowercase,
};

verus! {

/// The characters a file name may not hold on the systems the app runs on.
pub open spec fn is_forbidden_in_file_name(c: char) -> bool {
    c == '/' || c == '\\' || c == ':' || c == '*' || c == '?' || c == '"' || c == '<' || c == '>'
        || c == '|'
}

/// `name` with each forbidden character replaced by `_`.
pub open spec fn sanitized(name: Seq<char>) -> Seq<char> {
    Seq::new(name.len(), |i: int| if is_forbidden_in_file_name(name[i]) { '_' } else { name[i] })
}

/// Making a name safe keeps its length, turns each of the nine characters
/// `/ \ : * ? " < > |` into `_`, and keeps every other character as it is.
pub proof fn sanitized_replaces_only_forbidden(name: Seq<char>)
    ensures
        sanitized(name).len() == name.len(),
        forall|i: int| 0 <= i < name.len() ==> {
            let c = name[i];
            if c == '|' || c == '>' || c == '<' || c == '"' || c == '?' || c == '*' || c == ':'
                || c == '\\' || c == '/' {
                #[trigger] sanitized(name)[i] == '_'
            } else {
                sanitized(name)[i] == c
            }
        },
{
}

/// A file name made safe: each of `/ \ : * ? " < > |` becomes `_`, every
/// other character stays.
pub fn sanitize_filename(name: &str) -> (r: String)
    ensures
        r@ == sanitized(name@),
{
    let chars = chars_of(name);
    let mut r = String::new();
    let mut i: usize = 0;
    while i < chars.len()
        invariant
            chars@ == name@,
            i <= chars.len(),
            r@ == sanitized(chars@.subrange(0, i as int)),
        decreases chars.len() - i,
    {
        let c = chars[i];
        let d = if c == '/' || c == '\\' || c == ':' || c == '*' || c == '?' || c == '"' || c == '<'
            || c == '>' || c == '|' {
            '_'
        } else {
            c
        };
        push_char(&mut r, d);
        assert(r@ =~= sanitized(chars@.subrange(0, i + 1)));
        i = i + 1;
    }
    assert(chars@.subrange(0, chars@.len() as int) =~= chars@);
    r
}

/// Sanitizing keeps the length, leaves no forbidden character, and a
/// sanitized name is its own sanitized form.
pub proof fn sanitize_is_safe_and_idempotent(name: Seq<char>)
    ensures
        sanitized(name).len() == name.len(),
        forall|i: int|
            0 <= i < name.len() ==> !is_forbidden_in_file_name(#[trigger] sanitized(name)[i]),
        sanitized(sanitized(name)) == sanitized(name),
{
    assert(sanitized(sanitized(name)) =~= sanitized(name));
}

/// The prefix of the app's own scratch files in a project folder.
pub open spec fn internal_prefix() -> Seq<char> {
    ".paper_composer_"@
}

/// A scratch file of the app, never listed nor sent.
pub fn is_internal_workspace_file(name: &str) -> (b: bool)
    ensures
        b == has_prefix(name@, internal_prefix()),
{
    starts_with(name, ".paper_composer_")
}

/// The first bytes of every PDF file: `%PDF-`.
pub open spec fn pdf_magic() -> Seq<u8> {
    seq![37u8, 80u8, 68u8, 70u8, 45u8]
}

/// A local file is a PDF when its lowercased name ends in `.pdf`, or when
/// its first five bytes (if it has five) are `%PDF-`.
pub open spec fn is_local_pdf(name: Seq<char>, header: Option<Seq<u8>>) -> bool {
    has_suffix(lowercase(name), ".pdf"@) || (header matches Some(h) && h == pdf_magic())
}

/// Whether a local file is a PDF, given its name and its first five bytes
/// (none when it is shorter or cannot be read).
pub fn is_local_pdf_file(name: &str, header: &Option<Vec<u8>>) -> (b: bool)
    ensures
        b == is_local_pdf(name@, match header {
            Some(h) => Some(h@),
            None => None,
        }),
{
    let lower = to_lowercase(name);
    if ends_with(lower.as_str(), ".pdf") {
        return true;
    }
    match header {
        Some(h) => {
            let ok = h.len() == 5 && h[0] == 37u8 && h[1] == 80u8 && h[2] == 68u8 && h[3] == 70u8
                && h[4] == 45u8;
            assert(ok ==> h@ =~= pdf_magic());
            ok
        },
        None => false,
    }
}

/// A listed Drive file is a PDF: its lowercased name ends in `.pdf` or its
/// type is PDF.
pub open spec fn is_pdf_file(f: DriveFile) -> bool {
    has_suffix(lowercase(f.name@), ".pdf"@) || f.mime_type@ == "application/pdf"@
}

/// A listed file is a PDF exactly when its name, lowercased, ends in `.pdf`
/// or its type is `application/pdf`: such a type makes it one whatever its
/// name.
pub proof fn pdf_files_by_name_or_type(f: DriveFile)
    ensures
        is_pdf_file(f) <==> (has_suffix(lowercase(f.name@), ".pdf"@) || f.mime_type@
            == "application/pdf"@),
        f.mime_type@ == "application/pdf"@ ==> is_pdf_file(f),
{
}

/// A local file is a PDF when its lowercased name ends in `.pdf`, whatever
/// it holds, or when its first five bytes are `%PDF-`, whatever its name;
/// otherwise it is not.
pub proof fn local_pdf_by_name_or_content(name: Seq<char>, header: Option<Seq<u8>>)
    ensures
        has_suffix(lowercase(name), ".pdf"@) ==> is_local_pdf(name, header),
        header == Some(seq![0x25u8, 0x50u8, 0x44u8, 0x46u8, 0x2du8]) ==> is_local_pdf(name, header),
        !has_suffix(lowercase(name), ".pdf"@) && header != Some(seq![0x25u8, 0x50u8, 0x44u8, 0x46u8, 0x2du8])
            ==> !is_local_pdf(name, header),
{
    assert(pdf_magic() =~= seq![0x25u8, 0x50u8, 0x44u8, 0x46u8, 0x2du8]);
}

/// Whether a listed Drive file is a PDF.
pub fn drive_file_is_pdf(f: &DriveFile) -> (b: bool)
    ensures
        b == is_pdf_file(*f),
{
    let lower = to_lowercase(f.name.as_str());
    ends_with(lower.as_str(), ".pdf") || text_eq(f.mime_type.as_str(), "application/pdf")
}

/// A Drive file the project folder mirrors: a PDF or a JSON file.
pub open spec fn is_synced_kind(f: DriveFile) -> bool {
    is_pdf_file(f) || is_json_file(f)
}

/// A file of a Drive folder is fetched into the project folder when it is a
/// PDF or JSON file, unless it is a PDF already there, or it is the
/// project's own `project.json` already there.
pub open spec fn should_download_file(f: DriveFile, target_exists: bool) -> bool {
    &&& is_synced_kind(f)
    &&& !(is_pdf_file(f) && target_exists)
    &&& !(target_exists && sanitized(f.name@) == "project.json"@)
}

/// Whether to fetch a file of the Drive folder, given whether the file it
/// would be written to exists.
pub fn should_download(f: &DriveFile, target_exists: bool) -> (b: bool)
    ensures
        b == should_download_file(*f, target_exists),
{
    let is_pdf = drive_file_is_pdf(f);
    let is_json = drive_file_is_json(f);
    if !is_pdf && !is_json {
        return false;
    }
    if is_pdf && target_exists {
        return false;
    }
    let target = sanitize_filename(f.name.as_str());
    if target_exists && text_eq(target.as_str(), "project.json") {
        return false;
    }
    true
}

/// The id of the listed `project.json`, fetched first to see whether the
/// project was deleted.
pub fn project_json_probe(files: &Vec<DriveFile>) -> (r: Option<String>)
    ensures
        r is None <==> forall|i: int| 0 <= i < files@.len() ==> #[trigger] files@[i].name@
            != "project.json"@,
        r matches Some(id) ==> exists|i: int|
            0 <= i < files@.len() && files@[i].name@ == "project.json"@ && id@ == files@[i].id@
                && forall|j: int| 0 <= j < i ==> #[trigger] files@[j].name@ != "project.json"@,
{
    let mut i: usize = 0;
    while i < files.len()
        invariant
            i <= files.len(),
            forall|j: int| 0 <= j < i ==> #[trigger] files@[j].name@ != "project.json"@,
        decreases files.len() - i,
    {
        if text_eq(files[i].name.as_str(), "project.json") {
            return Some(files[i].id.clone());
        }
        i = i + 1;
    }
    None
}

/// The JSON content type of uploads.
pub open spec fn json_upload_type() -> Seq<char> {
    "application/json; charset=UTF-8"@
}

/// What a file of the project folder is sent to Drive as, if at all:
/// scratch files never; a file whose lowercased name ends in `.json`
/// (`project.json` among them) as JSON; a PDF, by name or content, as PDF;
/// nothing else. A file Drive already holds under that name is sent too, as
/// an update of the file there.
pub open spec fn upload_type_of(name: Seq<char>, local_pdf: bool) -> Option<Seq<char>> {
    if has_prefix(name, internal_prefix()) {
        None
    } else if has_suffix(lowercase(name), ".json"@) {
        Some(json_upload_type())
    } else if local_pdf {
        Some("application/pdf"@)
    } else {
        None
    }
}

/// The content type a file of the project folder is uploaded with, if it is
/// uploaded; `local_pdf` says whether the file is a PDF by name or content.
pub fn upload_type(name: &str, local_pdf: bool) -> (r: Option<String>)
    ensures
        r is None <==> upload_type_of(name@, local_pdf) is None,
        r matches Some(t) ==> upload_type_of(name@, local_pdf) == Some(t@),
{
    if is_internal_workspace_file(name) {
        return None;
    }
    let lower = to_lowercase(name);
    if ends_with(lower.as_str(), ".json") {
        return Some(String::from_str("application/json; charset=UTF-8"));
    }
    if local_pdf {
        return Some(String::from_str("application/pdf"));
    }
    None
}

/// What a file of a project folder is when listed: a PDF, a JSON file, or
/// neither (scratch files included).
#[derive(Clone, Copy, Debug, PartialEq, Eq, Structural)]
pub enum LocalAssetKind {
    Pdf,
    Json,
    Skip,
}

/// Scratch files are skipped; PDFs by name or content are PDFs; other files
/// whose lowercased name ends in `.json` are JSON; the rest is skipped.
pub open spec fn local_asset_kind_of(name: Seq<char>, local_pdf: bool) -> LocalAssetKind {
    if has_prefix(name, internal_prefix()) {
        LocalAssetKind::Skip
    } else if local_pdf {
        LocalAssetKind::Pdf
    } else if has_suffix(lowercase(name), ".json"@) {
        LocalAssetKind::Json
    } else {
        LocalAssetKind::Skip
    }
}

/// How a file of a project folder is listed.
pub fn local_asset_kind(name: &str, local_pdf: bool) -> (r: LocalAssetKind)
    ensures
        r == local_asset_kind_of(name@, local_pdf),
{
    if is_internal_workspace_file(name) {
        LocalAssetKind::Skip
    } else if local_pdf {
        LocalAssetKind::Pdf
    } else {
        let lower = to_lowercase(name);
        if ends_with(lower.as_str(), ".json") {
            LocalAssetKind::Json
        } else {
            LocalAssetKind::Skip
        }
    }
}


/// A file found in a folder: its id (a Drive id or a local path), its name
/// and its modification time in RFC 3339.
#[derive(Clone, Debug)]
pub struct DriveAsset {
    pub id: String,
    pub name: String,
    pub modified_time: String,
}

/// The text views of an asset.
pub open spec fn asset_view(a: DriveAsset) -> (Seq<char>, Seq<char>, Seq<char>) {
    (a.id@, a.name@, a.modified_time@)
}

pub open spec fn asset_views(v: Seq<DriveAsset>) -> Seq<(Seq<char>, Seq<char>, Seq<char>)> {
    Seq::new(v.len(), |i: int| asset_view(v[i]))
}

/// The PDFs of a Drive listing, in listing order, as assets.
pub open spec fn pdf_assets_of(files: Seq<DriveFile>) -> Seq<(Seq<char>, Seq<char>, Seq<char>)>
    decreases files.len(),
{
    if files.len() == 0 {
        seq![]
    } else {
        let rest = pdf_assets_of(files.drop_last());
        let f = files.last();
        if is_pdf_file(f) {
            rest.push((f.id@, f.name@, f.modified_time@))
        } else {
            rest
        }
    }
}

/// The JSON files of a Drive listing, in listing order.
pub open spec fn json_files_of(files: Seq<DriveFile>) -> Seq<DriveFile>
    decreases files.len(),
{
    if files.len() == 0 {
        seq![]
    } else {
        let rest = json_files_of(files.drop_last());
        if is_json_file(files.last()) {
            rest.push(files.last())
        } else {
            rest
        }
    }
}

fn copy_file(f: &DriveFile) -> (r: DriveFile)
    ensures
        r == *f,
{
    DriveFile {
        id: f.id.clone(),
        name: f.name.clone(),
        mime_type: f.mime_type.clone(),
        modified_time: f.modified_time.clone(),
    }
}

/// The PDFs of a Drive folder listing.
pub fn pdf_assets(files: &Vec<DriveFile>) -> (r: Vec<DriveAsset>)
    ensures
        asset_views(r@) == pdf_assets_of(files@),
{
    let mut r: Vec<DriveAsset> = Vec::new();
    let mut i: usize = 0;
    while i < files.len()
        invariant
            i <= files.len(),
            asset_views(r@) == pdf_assets_of(files@.subrange(0, i as int)),
        decreases files.len() - i,
    {
        assert(files@.subrange(0, i + 1).drop_last() =~= files@.subrange(0, i as int));
        let ghost before = r@;
        if drive_file_is_pdf(&files[i]) {
            let f = &files[i];
            r.push(
                DriveAsset {
                    id: f.id.clone(),
                    name: f.name.clone(),
                    modified_time: f.modified_time.clone(),
                },
            );
            assert(asset_views(r@) =~= asset_views(before).push(
                (f.id@, f.name@, f.modified_time@),
            )) by {
                assert(r@.len() == before.len() + 1);
                assert forall|j: int| 0 <= j < before.len() implies asset_views(r@)[j]
                    == asset_views(before)[j] by {
                    assert(r@[j] == before[j]);
                }
            }
        }
        i = i + 1;
    }
    assert(files@.subrange(0, files@.len() as int) =~= files@);
    r
}

/// The JSON files of a Drive folder listing.
pub fn json_files(files: &Vec<DriveFile>) -> (r: Vec<DriveFile>)
    ensures
        r@ == json_files_of(files@),
{
    let mut r: Vec<DriveFile> = Vec::new();
    let mut i: usize = 0;
    while i < files.len()
        invariant
            i <= files.len(),
            r@ == json_files_of(files@.subrange(0, i as int)),
        decreases files.len() - i,
    {
        assert(files@.subrange(0, i + 1).drop_last() =~= files@.subrange(0, i as int));
        if drive_file_is_json(&files[i]) {
            r.push(copy_file(&files[i]));
        }
        i = i + 1;
    }
    assert(files@.subrange(0, files@.len() as int) =~= files@);
    r
}

/// The scratch name a JSON file of a Drive folder is fetched to: its
/// sanitized name with `.json` added.
pub fn json_scratch_name(name: &str) -> (r: String)
    ensures
        r@ == sanitized(name@) + ".json"@,
{
    sanitize_filename(name).concat(".json")
}

/// For the folder summary, a JSON file by its exact name or its type.
pub open spec fn counts_as_json(f: DriveFile) -> bool {
    has_suffix(f.name@, ".json"@) || f.mime_type@ == "application/json"@
}

/// For the folder summary, a PDF by its exact name or its type.
pub open spec fn counts_as_pdf(f: DriveFile) -> bool {
    has_suffix(f.name@, ".pdf"@) || f.mime_type@ == "application/pdf"@
}

/// For the folder summary, an image by its type.
pub open spec fn counts_as_image(f: DriveFile) -> bool {
    has_prefix(f.mime_type@, "image/"@)
}

pub open spec fn count_json(files: Seq<DriveFile>) -> nat
    decreases files.len(),
{
    if files.len() == 0 {
        0
    } else {
        count_json(files.drop_last()) + if counts_as_json(files.last()) {
            1nat
        } else {
            0nat
        }
    }
}

pub open spec fn count_pdf(files: Seq<DriveFile>) -> nat
    decreases files.len(),
{
    if files.len() == 0 {
        0
    } else {
        count_pdf(files.drop_last()) + if counts_as_pdf(files.last()) {
            1nat
        } else {
            0nat
        }
    }
}

pub open spec fn count_image(files: Seq<DriveFile>) -> nat
    decreases files.len(),
{
    if files.len() == 0 {
        0
    } else {
        count_image(files.drop_last()) + if counts_as_image(files.last()) {
            1nat
        } else {
            0nat
        }
    }
}

proof fn lemma_counts_bounded(files: Seq<DriveFile>)
    ensures
        count_json(files) <= files.len(),
        count_pdf(files) <= files.len(),
        count_image(files) <= files.len(),
    decreases files.len(),
{
    if files.len() > 0 {
        lemma_counts_bounded(files.drop_last());
    }
}

/// A listed file adds one to the image count when its type starts with
/// `image/` (such as `image/jpeg` or `image/png`), and nothing otherwise.
pub proof fn image_count_of_one_more(files: Seq<DriveFile>, f: DriveFile)
    ensures
        count_image(files.push(f)) == count_image(files) + if has_prefix(f.mime_type@, "image/"@) {
            1nat
        } else {
            0nat
        },
{
    assert(files.push(f).drop_last() =~= files);
}

/// A listed file adds one to the JSON count when its name ends in `.json`
/// or its type is `application/json`, and nothing otherwise.
pub proof fn json_count_of_one_more(files: Seq<DriveFile>, f: DriveFile)
    ensures
        count_json(files.push(f)) == count_json(files) + if has_suffix(f.name@, ".json"@)
            || f.mime_type@ == "application/json"@ {
            1nat
        } else {
            0nat
        },
{
    assert(files.push(f).drop_last() =~= files);
}

/// A listed file adds one to the PDF count when its name ends in `.pdf` or
/// its type is `application/pdf`, and nothing otherwise.
pub proof fn pdf_count_of_one_more(files: Seq<DriveFile>, f: DriveFile)
    ensures
        count_pdf(files.push(f)) == count_pdf(files) + if has_suffix(f.name@, ".pdf"@)
            || f.mime_type@ == "application/pdf"@ {
            1nat
        } else {
            0nat
        },
{
    assert(files.push(f).drop_last() =~= files);
}

/// An empty listing counts nothing.
pub proof fn counts_of_empty_listing()
    ensures
        count_json(Seq::<DriveFile>::empty()) == 0,
        count_pdf(Seq::<DriveFile>::empty()) == 0,
        count_image(Seq::<DriveFile>::empty()) == 0,
{
}

/// The summary of a Drive folder.
#[derive(Clone, Debug)]
pub struct FolderSummary {
    pub ok: bool,
    pub message: String,
    pub total: usize,
    pub json_count: usize,
    pub pdf_count: usize,
    pub image_count: usize,
    pub other_count: usize,
}

/// The message of a folder summary; it notes when no JSON file is there yet.
pub open spec fn summary_message_of(json: nat, pdf: nat, image: nat) -> Seq<char> {
    if json == 0 {
        "資料夾內：PDF "@ + decimal(pdf) + "、JSON 0、影像 "@ + decimal(image) + "；尚無 project.json"@
    } else {
        "資料夾內：JSON "@ + decimal(json) + "、PDF "@ + decimal(pdf) + "、影像 "@ + decimal(image)
    }
}

/// The counts of JSON files, PDFs and images of a Drive folder listing, and
/// of what is left once they are taken away (never below 0; a file can count
/// twice).
pub fn summarize_folder(files: &Vec<DriveFile>) -> (r: FolderSummary)
    requires
        files@.len() <= usize::MAX / 3,
    ensures
        r.ok,
        r.total == files@.len(),
        r.json_count == count_json(files@),
        r.pdf_count == count_pdf(files@),
        r.image_count == count_image(files@),
        r.json_count + r.pdf_count + r.image_count >= r.total ==> r.other_count == 0,
        r.json_count + r.pdf_count + r.image_count < r.total ==> r.other_count == r.total - (
        r.json_count + r.pdf_count + r.image_count),
        r.message@ == summary_message_of(
            count_json(files@),
            count_pdf(files@),
            count_image(files@),
        ),
{
    let mut json: usize = 0;
    let mut pdf: usize = 0;
    let mut image: usize = 0;
    let mut i: usize = 0;
    while i < files.len()
        invariant
            i <= files.len(),
            json == count_json(files@.subrange(0, i as int)),
            pdf == count_pdf(files@.subrange(0, i as int)),
            image == count_image(files@.subrange(0, i as int)),
        decreases files.len() - i,
    {
        proof {
            assert(files@.subrange(0, i + 1).drop_last() =~= files@.subrange(0, i as int));
            lemma_counts_bounded(files@.subrange(0, i as int));
        }
        let f = &files[i];
        if ends_with(f.name.as_str(), ".json") || text_eq(f.mime_type.as_str(), "application/json") {
            json = json + 1;
        }
        if ends_with(f.name.as_str(), ".pdf") || text_eq(f.mime_type.as_str(), "application/pdf") {
            pdf = pdf + 1;
        }
        if starts_with(f.mime_type.as_str(), "image/") {
            image = image + 1;
        }
        i = i + 1;
    }
    assert(files@.subrange(0, files@.len() as int) =~= files@);
    proof {
        lemma_counts_bounded(files@);
    }
    let counted = json + pdf + image;
    let total = files.len();
    let other = if counted >= total {
        0
    } else {
        total - counted
    };
    let message = if json == 0 {
        String::from_str("資料夾內：PDF ").concat(decimal_text(pdf as u64).as_str()).concat(
            "、JSON 0、影像 ",
        ).concat(decimal_text(image as u64).as_str()).concat("；尚無 project.json")
    } else {
        String::from_str("資料夾內：JSON ").concat(decimal_text(json as u64).as_str()).concat(
            "、PDF ",
        ).concat(decimal_text(pdf as u64).as_str()).concat("、影像 ").concat(
            decimal_text(image as u64).as_str(),
        )
    };
    FolderSummary {
        ok: true,
        message,
        total,
        json_count: json,
        pdf_count: pdf,
        image_count: image,
        other_count: other,
    }
}

/// A message that counts PDFs and JSON files after a lead-in.
pub open spec fn counts_message_of(lead: Seq<char>, pdfs: nat, jsons: nat) -> Seq<char> {
    lead + "PDF "@ + decimal(pdfs) + " 個，JSON "@ + decimal(jsons) + " 個"@
}

/// `{lead}PDF {pdfs} 個，JSON {jsons} 個`.
pub fn counts_message(lead: &str, pdfs: usize, jsons: usize) -> (r: String)
    ensures
        r@ == counts_message_of(lead@, pdfs as nat, jsons as nat),
{
    String::from_str(lead).concat("PDF ").concat(decimal_text(pdfs as u64).as_str()).concat(
        " 個，JSON ",
    ).concat(decimal_text(jsons as u64).as_str()).concat(" 個")
}

/// What `chrono` writes, in RFC 3339, for a UTC time given in seconds since
/// 1970; nothing for a time it cannot represent.
pub uninterp spec fn utc_rfc3339_of(secs: i64) -> Option<Seq<char>>;

/// `DateTime::<Utc>::from_timestamp(secs, 0)` written with `to_rfc3339`. The
/// contract names the result as a function of the seconds.
#[verifier::external_body]
fn utc_rfc3339(secs: i64) -> (r: Option<String>)
    ensures
        r is None <==> utc_rfc3339_of(secs) is None,
        r matches Some(t) ==> utc_rfc3339_of(secs) == Some(t@),
{
    chrono::DateTime::<chrono::Utc>::from_timestamp(secs, 0).map(|dt| dt.to_rfc3339())
}

/// The modification time of a file as listed: its seconds since 1970 (taken
/// as an `i64`, as `as i64` does) in RFC 3339, or empty when the time is not
/// known or not representable.
pub open spec fn modified_text_of(secs: Option<u64>) -> Seq<char> {
    match secs {
        Some(s) => match utc_rfc3339_of(s as i64) {
            Some(t) => t,
            None => seq![],
        },
        None => seq![],
    }
}

/// The modification time of a file as listed.
pub fn modified_time_text(secs: Option<u64>) -> (r: String)
    ensures
        r@ == modified_text_of(secs),
{
    match secs {
        Some(s) => {
            let signed = s as i64;
            match utc_rfc3339(signed) {
                Some(t) => t,
                None => String::new(),
            }
        },
        None => String::new(),
    }
}

/// A `project.json` text marks a deleted project when its top-level
/// `paper_composer_deleted` is `true`.
pub open spec fn is_tombstone_text(text: Seq<char>) -> bool {
    json_bool_member_of(text, "paper_composer_deleted"@) == Some(true)
}

/// Whether a `project.json` text marks a deleted project.
pub fn is_project_tombstone(text: &str) -> (b: bool)
    ensures
        b == is_tombstone_text(text@),
{
    match json_bool_member(text, "paper_composer_deleted") {
        Some(b) => b,
        None => false,
    }
}

/// A file found in a project folder, with what the listing needs of it:
/// its path, its name, whether it is a plain file, its first five bytes
/// (none when it is shorter or cannot be read) and its modification time.
#[derive(Clone, Debug)]
pub struct LocalFile {
    pub path: String,
    pub name: String,
    pub is_file: bool,
    pub header: Option<Vec<u8>>,
    pub modified_secs: Option<u64>,
}

/// The byte view of an optional header.
pub open spec fn header_view(h: Option<Vec<u8>>) -> Option<Seq<u8>> {
    match h {
        Some(v) => Some(v@),
        None => None,
    }
}

/// How a found file is listed: folders and other non-files are skipped.
pub open spec fn local_kind(f: LocalFile) -> LocalAssetKind {
    if f.is_file {
        local_asset_kind_of(f.name@, is_local_pdf(f.name@, header_view(f.header)))
    } else {
        LocalAssetKind::Skip
    }
}

/// A found file as an asset: its path as id, its name, its modification
/// time.
pub open spec fn local_asset_of(f: LocalFile) -> (Seq<char>, Seq<char>, Seq<char>) {
    (f.path@, f.name@, modified_text_of(f.modified_secs))
}

/// The found files listed as `kind`, in the order they were found.
pub open spec fn listed_of(files: Seq<LocalFile>, kind: LocalAssetKind) -> Seq<
    (Seq<char>, Seq<char>, Seq<char>),
>
    decreases files.len(),
{
    if files.len() == 0 {
        seq![]
    } else {
        let rest = listed_of(files.drop_last(), kind);
        if local_kind(files.last()) == kind {
            rest.push(local_asset_of(files.last()))
        } else {
            rest
        }
    }
}

fn found_kind(f: &LocalFile) -> (r: LocalAssetKind)
    ensures
        r == local_kind(*f),
{
    if f.is_file {
        let pdf = is_local_pdf_file(f.name.as_str(), &f.header);
        local_asset_kind(f.name.as_str(), pdf)
    } else {
        LocalAssetKind::Skip
    }
}

fn push_listed(v: &mut Vec<DriveAsset>, f: &LocalFile)
    ensures
        asset_views(final(v)@) == asset_views(old(v)@).push(local_asset_of(*f)),
{
    let ghost before = v@;
    v.push(
        DriveAsset {
            id: f.path.clone(),
            name: f.name.clone(),
            modified_time: modified_time_text(f.modified_secs),
        },
    );
    assert(asset_views(v@) =~= asset_views(before).push(local_asset_of(*f))) by {
        assert forall|j: int| 0 <= j < before.len() implies asset_views(v@)[j] == asset_views(
            before,
        )[j] by {
            assert(v@[j] == before[j]);
        }
    }
}

/// The PDFs and the JSON files among the files found in a folder, in the
/// order they were found. Folders and scratch files are left out.
pub fn index_local_files(files: &Vec<LocalFile>) -> (r: (Vec<DriveAsset>, Vec<DriveAsset>))
    ensures
        asset_views(r.0@) == listed_of(files@, LocalAssetKind::Pdf),
        asset_views(r.1@) == listed_of(files@, LocalAssetKind::Json),
{
    let mut pdfs: Vec<DriveAsset> = Vec::new();
    let mut jsons: Vec<DriveAsset> = Vec::new();
    let mut i: usize = 0;
    while i < files.len()
        invariant
            i <= files.len(),
            asset_views(pdfs@) == listed_of(files@.subrange(0, i as int), LocalAssetKind::Pdf),
            asset_views(jsons@) == listed_of(files@.subrange(0, i as int), LocalAssetKind::Json),
        decreases files.len() - i,
    {
        assert(files@.subrange(0, i + 1).drop_last() =~= files@.subrange(0, i as int));
        let kind = found_kind(&files[i]);
        match kind {
            LocalAssetKind::Pdf => push_listed(&mut pdfs, &files[i]),
            LocalAssetKind::Json => push_listed(&mut jsons, &files[i]),
            LocalAssetKind::Skip => {},
        }
        i = i + 1;
    }
    assert(files@.subrange(0, files@.len() as int) =~= files@);
    (pdfs, jsons)
}

/// The names of a list of assets.
pub open spec fn asset_names(s: Seq<(Seq<char>, Seq<char>, Seq<char>)>) -> Seq<Seq<char>> {
    Seq::new(s.len(), |i: int| s[i].1)
}

/// Assets sorted by name, stably.
pub fn sort_assets(v: Vec<DriveAsset>) -> (r: Vec<DriveAsset>)
    ensures
        is_stable_sort(asset_views(r@), asset_views(v@), asset_names(asset_views(v@))),
{
    let mut names: Vec<String> = Vec::new();
    let mut i: usize = 0;
    while i < v.len()
        invariant
            i <= v.len(),
            names@.len() == i,
            forall|k: int| 0 <= k < i ==> #[trigger] names@[k]@ == v@[k].name@,
        decreases v.len() - i,
    {
        names.push(v[i].name.clone());
        i = i + 1;
    }
    assert(views(names@) =~= asset_names(asset_views(v@)));
    let order = stable_order(&names);
    let ghost vs = v@;
    let r = permute(v, &order);
    assert(arranged(asset_views(r@), asset_views(vs), order@)) by {
        assert forall|k: int| 0 <= k < r@.len() implies #[trigger] asset_views(r@)[k]
            == asset_views(vs)[order@[k] as int] by {
            assert(r@[k] == vs[order@[k] as int]);
        }
    }
    r
}

/// The PDFs and the JSON files of a project folder, each sorted by name.
pub fn collect_local_assets(files: &Vec<LocalFile>) -> (r: (Vec<DriveAsset>, Vec<DriveAsset>))
    ensures
        is_stable_sort(
            asset_views(r.0@),
            listed_of(files@, LocalAssetKind::Pdf),
            asset_names(listed_of(files@, LocalAssetKind::Pdf)),
        ),
        is_stable_sort(
            asset_views(r.1@),
            listed_of(files@, LocalAssetKind::Json),
            asset_names(listed_of(files@, LocalAssetKind::Json)),
        ),
{
    let (pdfs, jsons) = index_local_files(files);
    (sort_assets(pdfs), sort_assets(jsons))
}

/// A PDF already in the project folder is never fetched again.
pub proof fn existing_pdfs_are_not_downloaded(f: DriveFile)
    requires
        is_pdf_file(f),
    ensures
        !should_download_file(f, true),
{
}

/// A `project.json` already in the project folder is never overwritten from
/// Drive.
pub proof fn existing_project_json_is_kept(f: DriveFile)
    requires
        sanitized(f.name@) == "project.json"@,
    ensures
        !should_download_file(f, true),
{
}

/// A JSON file of the Drive folder that is not a PDF is fetched, so the
/// local copy takes Drive's latest content, unless it is the project's own
/// `project.json` already there; a file that is neither PDF nor JSON never
/// is.
pub proof fn json_files_follow_drive(f: DriveFile, target_exists: bool)
    ensures
        is_json_file(f) && !is_pdf_file(f) ==> (should_download_file(f, target_exists) <==> !(
        target_exists && sanitized(f.name@) == "project.json"@)),
        !is_json_file(f) && !is_pdf_file(f) ==> !should_download_file(f, target_exists),
{
}

/// What is sent to Drive when a project folder is uploaded: scratch files
/// never; `project.json` always, as JSON; every other JSON file as JSON and
/// every PDF as PDF, whether Drive holds it already (it is then updated) or
/// not; nothing else.
pub proof fn upload_rules(name: Seq<char>, local_pdf: bool)
    ensures
        has_prefix(name, internal_prefix()) ==> upload_type_of(name, local_pdf) is None,
        !has_prefix(name, internal_prefix()) && lowercase(name) == "project.json"@
            ==> upload_type_of(name, local_pdf) == Some(json_upload_type()),
        !has_prefix(name, internal_prefix()) && has_suffix(lowercase(name), ".json"@)
            ==> upload_type_of(name, local_pdf) == Some(json_upload_type()),
        !has_prefix(name, internal_prefix()) && !has_suffix(lowercase(name), ".json"@) && local_pdf
            ==> upload_type_of(name, local_pdf) == Some("application/pdf"@),
        !has_suffix(lowercase(name), ".json"@) && !local_pdf ==> upload_type_of(name, local_pdf)
            is None,
{
    reveal_strlit("project.json");
    reveal_strlit(".json");
    let p = "project.json"@;
    assert(p.subrange(p.len() - 5, p.len() as int) =~= ".json"@);
}

/// Neither scratch files nor anything but plain files are ever listed from
/// a project folder, and what is listed is a PDF or a JSON file by the
/// listing's rule.
pub proof fn listing_leaves_out_scratch_files(files: Seq<LocalFile>, kind: LocalAssetKind, i: int)
    requires
        kind != LocalAssetKind::Skip,
        0 <= i < listed_of(files, kind).len(),
    ensures
        exists|j: int|
            0 <= j < files.len() && #[trigger] local_asset_of(files[j]) == listed_of(files, kind)[i]
                && files[j].is_file && !has_prefix(files[j].name@, internal_prefix())
                && local_kind(files[j]) == kind,
    decreases files.len(),
{
    let rest = listed_of(files.drop_last(), kind);
    if i < rest.len() {
        listing_leaves_out_scratch_files(files.drop_last(), kind, i);
        let j = choose|j: int|
            0 <= j < files.drop_last().len() && #[trigger] local_asset_of(files.drop_last()[j])
                == rest[i] && files.drop_last()[j].is_file && !has_prefix(
                files.drop_last()[j].name@,
                internal_prefix(),
            ) && local_kind(files.drop_last()[j]) == kind;
        assert(files[j] == files.drop_last()[j]);
        assert(local_asset_of(files[j]) == listed_of(files, kind)[i]);
    } else {
        let j = files.len() - 1;
        assert(local_asset_of(files[j]) == listed_of(files, kind)[i]);
    }
}

} // verus!
