//! Assets: uploading a file, and asking whether the server has it.

use vstd::prelude::*;

use crate::api::client::{ApiError, ImmichClient};
use crate::clock;
use crate::clock::{rfc3339_text, Timestamp};
use crate::paths;
use crate::text;
use crate::text::{concat2, str_eq, to_lowercase};
use crate::upload::item;
use crate::upload::item::UploadResult;

verus! {

broadcast use vstd::seq::group_seq_axioms;

/// Where files are uploaded to.
pub const ASSETS_PATH: &'static str = "/api/assets";

/// Where the server is asked which assets it has.
pub const BULK_CHECK_PATH: &'static str = "/api/assets/bulk-upload-check";

/// Bytes of a file that are held in memory at a time.
pub const UPLOAD_CHUNK_SIZE: usize = 65536;

/// The part of an upload that holds the file.
pub const FILE_PART: &'static str = "assetData";

// ── Duplicates ──────────────────────────────────────────────────────────────

/// The server's answer for one asset.
#[derive(Debug)]
pub struct BulkCheckResult {
    /// The id of the asset on this device.
    pub id: String,
    /// `accept`, or `reject` where the server has the asset.
    pub action: String,
    /// The id of the asset on the server, where it has the asset.
    pub asset_id: Option<String>,
}

impl BulkCheckResult {
    /// Whether the server has the asset.
    pub open spec fn rejects(self) -> bool {
        self.action@ == "reject"@
    }

    /// Whether the server has the asset.
    pub fn is_duplicate(&self) -> (r: bool)
        ensures
            r == self.rejects(),
    {
        str_eq(&self.action, "reject")
    }
}

/// What the answers of the server mean for the assets, in order.
pub fn check_duplicates(results: Vec<BulkCheckResult>) -> (r: Vec<item::BulkCheckResult>)
    ensures
        r@.len() == results@.len(),
        forall|i: int|
            0 <= i < r@.len() ==> (#[trigger] r@[i]).id == results@[i].id && r@[i].exists
                == results@[i].rejects() && r@[i].asset_id == results@[i].asset_id,
{
    let mut r: Vec<item::BulkCheckResult> = Vec::new();
    let mut i: usize = 0;
    while i < results.len()
        invariant
            i <= results@.len(),
            r@.len() == i,
            forall|j: int|
                0 <= j < i ==> (#[trigger] r@[j]).id == results@[j].id && r@[j].exists
                    == results@[j].rejects() && r@[j].asset_id == results@[j].asset_id,
        decreases results@.len() - i,
    {
        let x: &BulkCheckResult = &results[i];
        r.push(
            item::BulkCheckResult {
                id: x.id.clone(),
                exists: x.is_duplicate(),
                asset_id: text::clone_opt(&x.asset_id),
            },
        );
        i += 1;
    }
    r
}

// ── Upload ──────────────────────────────────────────────────────────────────

/// A field of an upload.
#[derive(Debug)]
pub struct FormField {
    pub name: &'static str,
    pub value: String,
}

/// The contents of a [`FormField`].
pub struct FieldView {
    pub name: Seq<char>,
    pub value: Seq<char>,
}

/// The contents of several [`FormField`]s.
pub open spec fn field_views(v: Seq<FormField>) -> Seq<FieldView> {
    v.map_values(|f: FormField| FieldView { name: f.name@, value: f.value@ })
}

/// An upload: where it goes, and what is sent along with the file.
#[derive(Debug)]
pub struct UploadForm {
    pub url: String,
    /// The name of the file.
    pub file_name: String,
    /// The kind of the file.
    pub mime: &'static str,
    /// What is sent after the file, in order.
    pub fields: Vec<FormField>,
}

/// The name under which a file is sent.
pub open spec fn sent_name(path: Seq<char>) -> Seq<char> {
    match paths::path_file_name(path) {
        Some(n) => n,
        None => "asset"@,
    }
}

/// What is sent after the file, in order.
pub open spec fn upload_fields(
    device_asset_id: Seq<char>,
    device_id: Seq<char>,
    created_at: Seq<char>,
    modified_at: Seq<char>,
) -> Seq<FieldView> {
    seq![
        FieldView { name: "deviceAssetId"@, value: device_asset_id },
        FieldView { name: "deviceId"@, value: device_id },
        FieldView { name: "fileCreatedAt"@, value: created_at },
        FieldView { name: "fileModifiedAt"@, value: modified_at },
        FieldView { name: "isFavorite"@, value: "false"@ },
    ]
}

/// The upload of a file. `None` where one of its times cannot be written.
pub fn upload_asset(
    client: &ImmichClient,
    file_path: &str,
    device_asset_id: &str,
    device_id: &str,
    created_at: Timestamp,
    modified_at: Timestamp,
) -> (r: Option<UploadForm>)
    ensures
        r is Some == (clock::representable(created_at.secs, created_at.nanos)
            && clock::representable(modified_at.secs, modified_at.nanos)),
        r matches Some(f) ==> {
            &&& f.url@ == client@.base_url + ASSETS_PATH@
            &&& f.file_name@ == sent_name(file_path@)
            &&& f.mime@ == mime_of(lowered_extension(file_path@))
            &&& clock::rfc3339_of(created_at) is Some
            &&& clock::rfc3339_of(modified_at) is Some
            &&& field_views(f.fields@) == upload_fields(
                device_asset_id@,
                device_id@,
                clock::rfc3339_of(created_at)->0,
                clock::rfc3339_of(modified_at)->0,
            )
        },
{
    let created: String = match rfc3339_text(created_at) {
        Some(t) => t,
        None => {
            return None;
        },
    };
    let modified: String = match rfc3339_text(modified_at) {
        Some(t) => t,
        None => {
            return None;
        },
    };
    let file_name: String = match paths::file_name(file_path) {
        Some(n) => n,
        None => "asset".to_owned(),
    };
    let mut fields: Vec<FormField> = Vec::new();
    fields.push(FormField { name: "deviceAssetId", value: device_asset_id.to_owned() });
    fields.push(FormField { name: "deviceId", value: device_id.to_owned() });
    fields.push(FormField { name: "fileCreatedAt", value: created });
    fields.push(FormField { name: "fileModifiedAt", value: modified });
    fields.push(FormField { name: "isFavorite", value: "false".to_owned() });
    assert(field_views(fields@) =~= upload_fields(
        device_asset_id@,
        device_id@,
        clock::rfc3339_of(created_at)->0,
        clock::rfc3339_of(modified_at)->0,
    ));
    Some(
        UploadForm {
            url: client.url(ASSETS_PATH),
            file_name,
            mime: mime_from_extension(file_path),
            fields,
        },
    )
}

/// What a successful upload means. The server answers 200 for a file that it
/// has, and 201 for a new one.
pub fn upload_result(status: u16, asset_id: String) -> (r: UploadResult)
    ensures
        r.asset_id == asset_id,
        r.is_duplicate == (status == 200),
{
    UploadResult { asset_id, is_duplicate: status == 200 }
}

/// What could not be done with a file.
#[derive(Debug, Clone, Copy, PartialEq, Eq, Structural)]
pub enum FileStep {
    Stat,
    Open,
}

/// The error of an upload whose file cannot be read.
pub fn file_error(step: FileStep, detail: &str) -> (r: ApiError)
    ensures
        r matches ApiError::Unexpected(m) && m@ == (match step {
            FileStep::Stat => "failed to stat file: "@,
            FileStep::Open => "failed to open file: "@,
        }) + detail@,
{
    match step {
        FileStep::Stat => ApiError::Unexpected(concat2("failed to stat file: ", detail)),
        FileStep::Open => ApiError::Unexpected(concat2("failed to open file: ", detail)),
    }
}

// ── Kinds of files ──────────────────────────────────────────────────────────

/// The extension of a path in lower case; empty where there is none.
pub open spec fn lowered_extension(path: Seq<char>) -> Seq<char> {
    text::lowercase_text(
        match paths::path_extension(path) {
            Some(e) => e,
            None => ""@,
        },
    )
}

/// The kind of a file with this extension.
pub open spec fn mime_of(ext: Seq<char>) -> Seq<char> {
    if ext == "jpg"@ || ext == "jpeg"@ {
        "image/jpeg"@
    } else if ext == "png"@ {
        "image/png"@
    } else if ext == "gif"@ {
        "image/gif"@
    } else if ext == "webp"@ {
        "image/webp"@
    } else if ext == "heic"@ || ext == "heif"@ {
        "image/heic"@
    } else if ext == "avif"@ {
        "image/avif"@
    } else if ext == "tiff"@ || ext == "tif"@ {
        "image/tiff"@
    } else if ext == "bmp"@ {
        "image/bmp"@
    } else if ext == "mp4"@ || ext == "m4v"@ {
        "video/mp4"@
    } else if ext == "mov"@ {
        "video/quicktime"@
    } else if ext == "avi"@ {
        "video/x-msvideo"@
    } else if ext == "mkv"@ {
        "video/x-matroska"@
    } else if ext == "webm"@ {
        "video/webm"@
    } else if ext == "3gp"@ {
        "video/3gpp"@
    } else if ext == "mts"@ || ext == "m2ts"@ {
        "video/mp2t"@
    } else {
        "application/octet-stream"@
    }
}

/// The kind of a file, by its extension. Raw images are sent as plain bytes; the
/// server knows them.
pub fn mime_from_extension(path: &str) -> (r: &'static str)
    ensures
        r@ == mime_of(lowered_extension(path@)),
{
    let ext: String = match paths::extension(path) {
        Some(e) => to_lowercase(&e),
        None => to_lowercase(""),
    };
    if str_eq(&ext, "jpg") || str_eq(&ext, "jpeg") {
        "image/jpeg"
    } else if str_eq(&ext, "png") {
        "image/png"
    } else if str_eq(&ext, "gif") {
        "image/gif"
    } else if str_eq(&ext, "webp") {
        "image/webp"
    } else if str_eq(&ext, "heic") || str_eq(&ext, "heif") {
        "image/heic"
    } else if str_eq(&ext, "avif") {
        "image/avif"
    } else if str_eq(&ext, "tiff") || str_eq(&ext, "tif") {
        "image/tiff"
    } else if str_eq(&ext, "bmp") {
        "image/bmp"
    } else if str_eq(&ext, "mp4") || str_eq(&ext, "m4v") {
        "video/mp4"
    } else if str_eq(&ext, "mov") {
        "video/quicktime"
    } else if str_eq(&ext, "avi") {
        "video/x-msvideo"
    } else if str_eq(&ext, "mkv") {
        "video/x-matroska"
    } else if str_eq(&ext, "webm") {
        "video/webm"
    } else if str_eq(&ext, "3gp") {
        "video/3gpp"
    } else if str_eq(&ext, "mts") || str_eq(&ext, "m2ts") {
        "video/mp2t"
    } else {
        "application/octet-stream"
    }
}

// ── Laws ────────────────────────────────────────────────────────────────────

/// An asset that the server rejects is there already, and only such a one.
pub proof fn law_rejected_asset_is_there(r: BulkCheckResult)
    ensures
        r.rejects() <==> r.action@ == "reject"@,
{
}

/// A file is sent under its own name.
pub proof fn law_file_is_sent_under_its_name(path: Seq<char>, name: Seq<char>)
    ensures
        paths::path_file_name(path) == Some(name) ==> sent_name(path) == name,
        paths::path_file_name(path) is None ==> sent_name(path) == "asset"@,
{
}

/// With a file go its id and that of the device, both its times, and that it is no
/// favourite, and nothing else.
pub proof fn law_fields_of_an_upload(
    device_asset_id: Seq<char>,
    device_id: Seq<char>,
    created_at: Seq<char>,
    modified_at: Seq<char>,
)
    ensures
        ({
            let f = upload_fields(device_asset_id, device_id, created_at, modified_at);
            &&& f.len() == 5
            &&& f[0].name == "deviceAssetId"@ && f[0].value == device_asset_id
            &&& f[1].name == "deviceId"@ && f[1].value == device_id
            &&& f[2].name == "fileCreatedAt"@ && f[2].value == created_at
            &&& f[3].name == "fileModifiedAt"@ && f[3].value == modified_at
            &&& f[4].name == "isFavorite"@ && f[4].value == "false"@
        }),
{
}

/// The kind of a file goes by its extension, in whatever case it is written.
pub proof fn law_kind_goes_by_the_extension(path: Seq<char>, ext: Seq<char>)
    ensures
        paths::path_extension(path) == Some(ext) ==> lowered_extension(path)
            == text::lowercase_text(ext),
        paths::path_extension(path) is None ==> lowered_extension(path) == text::lowercase_text(
            ""@,
        ),
{
}

/// Every kind of picture and film is sent as what it is, and anything else as
/// plain bytes.
pub proof fn law_files_are_sent_as_what_they_are(ext: Seq<char>)
    ensures
        ext == "jpg"@ || ext == "jpeg"@ ==> mime_of(ext) == "image/jpeg"@,
        ext == "png"@ ==> mime_of(ext) == "image/png"@,
        ext == "gif"@ ==> mime_of(ext) == "image/gif"@,
        ext == "webp"@ ==> mime_of(ext) == "image/webp"@,
        ext == "heic"@ || ext == "heif"@ ==> mime_of(ext) == "image/heic"@,
        ext == "avif"@ ==> mime_of(ext) == "image/avif"@,
        ext == "tiff"@ || ext == "tif"@ ==> mime_of(ext) == "image/tiff"@,
        ext == "bmp"@ ==> mime_of(ext) == "image/bmp"@,
        ext == "mp4"@ || ext == "m4v"@ ==> mime_of(ext) == "video/mp4"@,
        ext == "mov"@ ==> mime_of(ext) == "video/quicktime"@,
        ext == "avi"@ ==> mime_of(ext) == "video/x-msvideo"@,
        ext == "mkv"@ ==> mime_of(ext) == "video/x-matroska"@,
        ext == "webm"@ ==> mime_of(ext) == "video/webm"@,
        ext == "3gp"@ ==> mime_of(ext) == "video/3gpp"@,
        ext == "mts"@ || ext == "m2ts"@ ==> mime_of(ext) == "video/mp2t"@,
        ext != "jpg"@ && ext != "jpeg"@ && ext != "png"@ && ext != "gif"@ && ext != "webp"@ && ext != "heic"@ && ext != "heif"@ && ext != "avif"@ && ext != "tiff"@ && ext != "tif"@ && ext != "bmp"@ && ext != "mp4"@ && ext != "m4v"@ && ext != "mov"@ && ext != "avi"@ && ext != "mkv"@ && ext != "webm"@ && ext != "3gp"@ && ext != "mts"@ && ext != "m2ts"@
            ==> mime_of(ext) == "application/octet-stream"@,
{
    reveal_strlit("jpg");
    assert("jpg"@.len() == 3);
    reveal_strlit("jpeg");
    assert("jpeg"@.len() == 4);
    reveal_strlit("png");
    assert("png"@.len() == 3);
    reveal_strlit("gif");
    assert("gif"@.len() == 3);
    reveal_strlit("webp");
    assert("webp"@.len() == 4);
    reveal_strlit("heic");
    assert("heic"@.len() == 4);
    reveal_strlit("heif");
    assert("heif"@.len() == 4);
    reveal_strlit("avif");
    assert("avif"@.len() == 4);
    reveal_strlit("tiff");
    assert("tiff"@.len() == 4);
    reveal_strlit("tif");
    assert("tif"@.len() == 3);
    reveal_strlit("bmp");
    assert("bmp"@.len() == 3);
    reveal_strlit("mp4");
    assert("mp4"@.len() == 3);
    reveal_strlit("m4v");
    assert("m4v"@.len() == 3);
    reveal_strlit("mov");
    assert("mov"@.len() == 3);
    reveal_strlit("avi");
    assert("avi"@.len() == 3);
    reveal_strlit("mkv");
    assert("mkv"@.len() == 3);
    reveal_strlit("webm");
    assert("webm"@.len() == 4);
    reveal_strlit("3gp");
    assert("3gp"@.len() == 3);
    reveal_strlit("mts");
    assert("mts"@.len() == 3);
    reveal_strlit("m2ts");
    assert("m2ts"@.len() == 4);
    assert("png"@[0] != "jpg"@[0]);
    assert("gif"@[0] != "jpg"@[0]);
    assert("gif"@[0] != "png"@[0]);
    assert("webp"@[0] != "jpeg"@[0]);
    assert("heic"@[0] != "jpeg"@[0]);
    assert("heic"@[0] != "webp"@[0]);
    assert("heif"@[0] != "jpeg"@[0]);
    assert("heif"@[0] != "webp"@[0]);
    assert("avif"@[0] != "jpeg"@[0]);
    assert("avif"@[0] != "webp"@[0]);
    assert("avif"@[0] != "heic"@[0]);
    assert("avif"@[0] != "heif"@[0]);
    assert("tiff"@[0] != "jpeg"@[0]);
    assert("tiff"@[0] != "webp"@[0]);
    assert("tiff"@[0] != "heic"@[0]);
    assert("tiff"@[0] != "heif"@[0]);
    assert("tiff"@[0] != "avif"@[0]);
    assert("tif"@[0] != "jpg"@[0]);
    assert("tif"@[0] != "png"@[0]);
    assert("tif"@[0] != "gif"@[0]);
    assert("bmp"@[0] != "jpg"@[0]);
    assert("bmp"@[0] != "png"@[0]);
    assert("bmp"@[0] != "gif"@[0]);
    assert("bmp"@[0] != "tif"@[0]);
    assert("mp4"@[0] != "jpg"@[0]);
    assert("mp4"@[0] != "png"@[0]);
    assert("mp4"@[0] != "gif"@[0]);
    assert("mp4"@[0] != "tif"@[0]);
    assert("mp4"@[0] != "bmp"@[0]);
    assert("m4v"@[0] != "jpg"@[0]);
    assert("m4v"@[0] != "png"@[0]);
    assert("m4v"@[0] != "gif"@[0]);
    assert("m4v"@[0] != "tif"@[0]);
    assert("m4v"@[0] != "bmp"@[0]);
    assert("mov"@[0] != "jpg"@[0]);
    assert("mov"@[0] != "png"@[0]);
    assert("mov"@[0] != "gif"@[0]);
    assert("mov"@[0] != "tif"@[0]);
    assert("mov"@[0] != "bmp"@[0]);
    assert("mov"@[1] != "mp4"@[1]);
    assert("mov"@[1] != "m4v"@[1]);
    assert("avi"@[0] != "jpg"@[0]);
    assert("avi"@[0] != "png"@[0]);
    assert("avi"@[0] != "gif"@[0]);
    assert("avi"@[0] != "tif"@[0]);
    assert("avi"@[0] != "bmp"@[0]);
    assert("avi"@[0] != "mp4"@[0]);
    assert("avi"@[0] != "m4v"@[0]);
    assert("avi"@[0] != "mov"@[0]);
    assert("mkv"@[0] != "jpg"@[0]);
    assert("mkv"@[0] != "png"@[0]);
    assert("mkv"@[0] != "gif"@[0]);
    assert("mkv"@[0] != "tif"@[0]);
    assert("mkv"@[0] != "bmp"@[0]);
    assert("mkv"@[1] != "mp4"@[1]);
    assert("mkv"@[1] != "m4v"@[1]);
    assert("mkv"@[1] != "mov"@[1]);
    assert("mkv"@[0] != "avi"@[0]);
    assert("webm"@[0] != "jpeg"@[0]);
    assert("webm"@[3] != "webp"@[3]);
    assert("webm"@[0] != "heic"@[0]);
    assert("webm"@[0] != "heif"@[0]);
    assert("webm"@[0] != "avif"@[0]);
    assert("webm"@[0] != "tiff"@[0]);
    assert("3gp"@[0] != "jpg"@[0]);
    assert("3gp"@[0] != "png"@[0]);
    assert("3gp"@[0] != "gif"@[0]);
    assert("3gp"@[0] != "tif"@[0]);
    assert("3gp"@[0] != "bmp"@[0]);
    assert("3gp"@[0] != "mp4"@[0]);
    assert("3gp"@[0] != "m4v"@[0]);
    assert("3gp"@[0] != "mov"@[0]);
    assert("3gp"@[0] != "avi"@[0]);
    assert("3gp"@[0] != "mkv"@[0]);
    assert("mts"@[0] != "jpg"@[0]);
    assert("mts"@[0] != "png"@[0]);
    assert("mts"@[0] != "gif"@[0]);
    assert("mts"@[0] != "tif"@[0]);
    assert("mts"@[0] != "bmp"@[0]);
    assert("mts"@[1] != "mp4"@[1]);
    assert("mts"@[1] != "m4v"@[1]);
    assert("mts"@[1] != "mov"@[1]);
    assert("mts"@[0] != "avi"@[0]);
    assert("mts"@[1] != "mkv"@[1]);
    assert("mts"@[0] != "3gp"@[0]);
    assert("m2ts"@[0] != "jpeg"@[0]);
    assert("m2ts"@[0] != "webp"@[0]);
    assert("m2ts"@[0] != "heic"@[0]);
    assert("m2ts"@[0] != "heif"@[0]);
    assert("m2ts"@[0] != "avif"@[0]);
    assert("m2ts"@[0] != "tiff"@[0]);
    assert("m2ts"@[0] != "webm"@[0]);
}

} // verus!
