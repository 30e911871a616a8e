//! The asset record, its parts, the service's error type and the
//! classification of uploads by content type.

use vstd::prelude::*;
use vstd::string::*;
use crate::text::{has_infix, has_prefix, starts_with, contains, same_text};

verus! {

/// A point in time in UTC: whole seconds since the Unix epoch and the
/// nanoseconds past that second.
#[derive(Clone, Copy, Debug, PartialEq, Eq, Structural)]
pub struct Timestamp {
    pub seconds: i64,
    pub nanos: u32,
}

/// A time as `chrono::Utc::now` gives it: not before the Unix epoch, and
/// with fewer than a second's nanoseconds.
pub open spec fn is_clock_time(t: Timestamp) -> bool {
    t.seconds >= 0 && t.nanos < 1_000_000_000
}

/// `chrono::Utc::now`: the current time of the machine's clock, taken
/// apart into seconds and nanoseconds. The contract claims what the
/// `chrono` source gives every result: `Utc::now` builds it from the time
/// since the Unix epoch (it panics on a clock set before it) and the
/// nanoseconds within that second. Which time comes back depends on when
/// the call is made and is left unsaid.
#[verifier::external_body]
pub(crate) fn current_time() -> (t: Timestamp)
    ensures
        is_clock_time(t),
{
    let now = chrono::Utc::now();
    Timestamp { seconds: now.timestamp(), nanos: now.timestamp_subsec_nanos() }
}

/// What kind of content an asset holds.
#[derive(Clone, Copy, Debug, PartialEq, Eq, Structural)]
pub enum AssetType {
    Image,
    Document,
    Video,
}

/// Who may see an asset.
#[derive(Clone, Copy, Debug, PartialEq, Eq, Structural)]
pub enum AssetVisibility {
    Public,
    Private,
}

/// Object keys of an image and of its resized renditions, longest side
/// 1200, 800 and 400 pixels.
#[derive(Clone, Debug, PartialEq, Eq)]
pub struct ImageVersions {
    pub original: String,
    pub v1200: Option<String>,
    pub v800: Option<String>,
    pub v400: Option<String>,
}

/// The stored description of an uploaded file.
#[derive(Clone, Debug, PartialEq, Eq)]
pub struct Asset {
    pub id: String,
    pub tenant_id: String,
    pub asset_type: AssetType,
    pub filename: String,
    pub mime_type: String,
    pub size: u64,
    pub path: String,
    pub url: String,
    pub versions: Option<ImageVersions>,
    pub visibility: AssetVisibility,
    pub uploaded_by: String,
    pub created_at: Timestamp,
    pub updated_at: Timestamp,
}

/// Why a request on assets failed.
#[derive(Clone, Debug, PartialEq, Eq)]
pub enum AssetError {
    AssetNotFound,
    StorageError(String),
    DatabaseError(String),
    InvalidType,
    Internal,
}

/// Query of the listing endpoint: the tenant, and optionally the type.
#[derive(Clone, Debug, PartialEq, Eq)]
pub struct ListParams {
    pub tenant_id: String,
    pub asset_type: Option<String>,
}

/// The renditions of an asset as the versions endpoint reports them.
#[derive(Clone, Debug, PartialEq, Eq)]
pub struct AssetVersionResponse {
    pub id: String,
    pub filename: String,
    pub mime_type: String,
    pub asset_type: AssetType,
    pub visibility: AssetVisibility,
    pub fallback_url: String,
    pub versions: ImageVersions,
}

/// The asset type that a declared content type gives: `image/...` is an
/// image, `application/pdf` or anything naming `word` a document,
/// `video/...` a video, and everything else a document.
pub open spec fn type_for_content(content_type: Seq<char>) -> AssetType {
    if has_prefix(content_type, "image/"@) {
        AssetType::Image
    } else if content_type == "application/pdf"@ || has_infix(content_type, "word"@) {
        AssetType::Document
    } else if has_prefix(content_type, "video/"@) {
        AssetType::Video
    } else {
        AssetType::Document
    }
}

/// Classifies an upload by its declared content type.
pub fn classify_content_type(content_type: &str) -> (t: AssetType)
    ensures
        t == type_for_content(content_type@),
{
    if starts_with(content_type, "image/") {
        AssetType::Image
    } else if same_text(content_type, "application/pdf") || contains(content_type, "word") {
        AssetType::Document
    } else if starts_with(content_type, "video/") {
        AssetType::Video
    } else {
        AssetType::Document
    }
}

/// A copy of a text value with the same characters.
pub fn copy_text(s: &String) -> (r: String)
    ensures
        r == *s,
{
    s.clone()
}

/// A copy of an optional text value.
pub fn copy_opt_text(s: &Option<String>) -> (r: Option<String>)
    ensures
        r == *s,
{
    match s {
        Some(t) => Some(t.clone()),
        None => None,
    }
}

impl ImageVersions {
    /// Versions that name only the original, with no rendition.
    pub fn original_only(original: String) -> (v: ImageVersions)
        ensures
            v.original == original,
            v.v1200 is None,
            v.v800 is None,
            v.v400 is None,
    {
        ImageVersions { original, v1200: None, v800: None, v400: None }
    }

    /// A field-for-field copy.
    pub fn duplicate(&self) -> (r: ImageVersions)
        ensures
            r == *self,
    {
        ImageVersions {
            original: copy_text(&self.original),
            v1200: copy_opt_text(&self.v1200),
            v800: copy_opt_text(&self.v800),
            v400: copy_opt_text(&self.v400),
        }
    }
}

/// A copy of optional versions.
pub fn copy_opt_versions(v: &Option<ImageVersions>) -> (r: Option<ImageVersions>)
    ensures
        r == *v,
{
    match v {
        Some(x) => Some(x.duplicate()),
        None => None,
    }
}

impl Asset {
    /// A field-for-field copy.
    pub fn duplicate(&self) -> (r: Asset)
        ensures
            r == *self,
    {
        Asset {
            id: copy_text(&self.id),
            tenant_id: copy_text(&self.tenant_id),
            asset_type: self.asset_type,
            filename: copy_text(&self.filename),
            mime_type: copy_text(&self.mime_type),
            size: self.size,
            path: copy_text(&self.path),
            url: copy_text(&self.url),
            versions: copy_opt_versions(&self.versions),
            visibility: self.visibility,
            uploaded_by: copy_text(&self.uploaded_by),
            created_at: self.created_at,
            updated_at: self.updated_at,
        }
    }
}

impl AssetError {
    /// The HTTP status that answers this error.
    pub open spec fn status_of(self) -> u16 {
        match self {
            AssetError::AssetNotFound => 404,
            AssetError::StorageError(_) => 500,
            AssetError::DatabaseError(_) => 500,
            AssetError::InvalidType => 400,
            AssetError::Internal => 500,
        }
    }

    /// The human-readable text of this error.
    pub open spec fn text_of(self) -> Seq<char> {
        match self {
            AssetError::AssetNotFound => "Asset not found"@,
            AssetError::StorageError(s) => "Storage error: "@ + s@,
            AssetError::DatabaseError(s) => "Database error: "@ + s@,
            AssetError::InvalidType => "Invalid asset type"@,
            AssetError::Internal => "Internal server error"@,
        }
    }

    /// The HTTP status code of the reply to this error.
    pub fn status_code(&self) -> (code: u16)
        ensures
            code == self.status_of(),
    {
        match self {
            AssetError::AssetNotFound => 404,
            AssetError::StorageError(_) => 500,
            AssetError::DatabaseError(_) => 500,
            AssetError::InvalidType => 400,
            AssetError::Internal => 500,
        }
    }

    /// The message of this error, as it is shown to clients.
    pub fn message(&self) -> (m: String)
        ensures
            m@ == self.text_of(),
    {
        match self {
            AssetError::AssetNotFound => String::from_str("Asset not found"),
            AssetError::StorageError(s) => {
                let mut m = String::from_str("Storage error: ");
                m.append(s.as_str());
                m
            },
            AssetError::DatabaseError(s) => {
                let mut m = String::from_str("Database error: ");
                m.append(s.as_str());
                m
            },
            AssetError::InvalidType => String::from_str("Invalid asset type"),
            AssetError::Internal => String::from_str("Internal server error"),
        }
    }

    /// The error that a failed database operation gives: a duplicate key
    /// (command error code 11000) is reported as such, any other failure
    /// by the text of the failure.
    pub fn from_database_failure(code: Option<i32>, text: String) -> (e: AssetError)
        ensures
            code == Some(11000i32) ==> (e matches AssetError::DatabaseError(m) && m@
                == "Duplicate key"@),
            code != Some(11000i32) ==> e == AssetError::DatabaseError(text),
    {
        match code {
            Some(c) => {
                if c == 11000 {
                    AssetError::DatabaseError(String::from_str("Duplicate key"))
                } else {
                    AssetError::DatabaseError(text)
                }
            },
            None => AssetError::DatabaseError(text),
        }
    }
}

#[verifier::external_type_specification]
#[verifier::external_body]
pub struct ExMongoError(mongodb::error::Error);

/// Reads a `mongodb::error::Error`: the code of a command error (the
/// `ErrorKind::Command` variant's `code`), `None` for any other kind, and
/// the error's `Display` text. The contract claims only what the error
/// type's `Display` format shows: the text begins with `Kind: `, followed
/// by the kind. Which code and which kind an error carries depends on what
/// the database answered and is left unsaid.
#[verifier::external_body]
fn database_failure_parts(err: &mongodb::error::Error) -> (parts: (Option<i32>, String))
    ensures
        has_prefix(parts.1@, "Kind: "@),
{
    let code = match err.kind.as_ref() {
        mongodb::error::ErrorKind::Command(e) => Some(e.code),
        _ => None,
    };
    (code, err.to_string())
}

impl AssetError {
    /// The error that a failure of the record store gives: always a
    /// database error, whose text is `Duplicate key` for a duplicate key
    /// (see `from_database_failure`) and otherwise the failure's own text,
    /// which begins with `Kind: ` and names the kind of failure.
    pub fn from_database_error(err: mongodb::error::Error) -> (e: AssetError)
        ensures
            e matches AssetError::DatabaseError(m) && (m@ == "Duplicate key"@ || has_prefix(
                m@,
                "Kind: "@,
            )),
    {
        let (code, text) = database_failure_parts(&err);
        AssetError::from_database_failure(code, text)
    }
}

#[verifier::external_type_specification]
#[verifier::external_body]
pub struct ExAnyhowError(anyhow::Error);

/// Any failure that reaches the service as a general error is reported
/// as an internal error.
impl From<anyhow::Error> for AssetError {
    fn from(err: anyhow::Error) -> (e: AssetError) {
        AssetError::Internal
    }
}

impl vstd::std_specs::convert::FromSpecImpl<anyhow::Error> for AssetError {
    open spec fn obeys_from_spec() -> bool {
        true
    }

    open spec fn from_spec(err: anyhow::Error) -> AssetError {
        AssetError::Internal
    }
}

/// Every content type beginning with `image/` is an image, and only those;
/// a video is what begins with `video/` and does not name `word`; a PDF
/// is a document; everything else is a document too.
pub proof fn law_classification(content_type: Seq<char>)
    ensures
        type_for_content(content_type) == AssetType::Image <==> has_prefix(content_type, "image/"@),
        type_for_content(content_type) == AssetType::Video <==> (has_prefix(
            content_type,
            "video/"@,
        ) && !has_infix(content_type, "word"@)),
        content_type == "application/pdf"@ ==> type_for_content(content_type)
            == AssetType::Document,
        type_for_content(content_type) == AssetType::Document <==> (!has_prefix(
            content_type,
            "image/"@,
        ) && !(has_prefix(content_type, "video/"@) && !has_infix(content_type, "word"@))),
{
    reveal_strlit("application/pdf");
    reveal_strlit("image/");
    reveal_strlit("video/");
    if content_type == "application/pdf"@ {
        assert(content_type.subrange(0, 6)[0] == 'a');
        assert(!has_prefix(content_type, "image/"@)) by {
            if has_prefix(content_type, "image/"@) {
                assert(content_type.subrange(0, 6)[0] == "image/"@[0]);
            }
        }
        assert(!has_prefix(content_type, "video/"@)) by {
            if has_prefix(content_type, "video/"@) {
                assert(content_type.subrange(0, 6)[0] == "video/"@[0]);
            }
        }
    }
    if has_prefix(content_type, "video/"@) {
        assert(!has_prefix(content_type, "image/"@)) by {
            if has_prefix(content_type, "image/"@) {
                assert(content_type.subrange(0, 6)[0] == "video/"@[0]);
                assert(content_type.subrange(0, 6)[0] == "image/"@[0]);
            }
        }
        assert(content_type != "application/pdf"@) by {
            if content_type == "application/pdf"@ {
                assert(content_type.subrange(0, 6)[0] == "video/"@[0]);
            }
        }
    }
}

} // verus!
