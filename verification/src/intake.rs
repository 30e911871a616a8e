//! The fields of the asset upload form and what each of them sets.

use vstd::prelude::*;
use vstd::string::*;
use crate::text::same_text;
use crate::domain::{AssetError, AssetVisibility};

verus! {

/// The role of a form field, by its name.
#[derive(Clone, Copy, Debug, PartialEq, Eq, Structural)]
pub enum FieldRole {
    TenantId,
    UserId,
    Private,
    File,
    Other,
}

/// The role of a field named `name`; a field without a name has none.
pub open spec fn role_of(name: Seq<char>) -> FieldRole {
    if name == "tenant_id"@ {
        FieldRole::TenantId
    } else if name == "user_id"@ {
        FieldRole::UserId
    } else if name == "private"@ {
        FieldRole::Private
    } else if name == "file"@ {
        FieldRole::File
    } else {
        FieldRole::Other
    }
}

/// The role of a form field; a field without a name counts as named ``.
pub fn field_role(name: Option<&str>) -> (r: FieldRole)
    ensures
        r == role_of(
            match name {
                Some(n) => n@,
                None => ""@,
            },
        ),
{
    let n = match name {
        Some(n) => n,
        None => "",
    };
    if same_text(n, "tenant_id") {
        FieldRole::TenantId
    } else if same_text(n, "user_id") {
        FieldRole::UserId
    } else if same_text(n, "private") {
        FieldRole::Private
    } else if same_text(n, "file") {
        FieldRole::File
    } else {
        FieldRole::Other
    }
}

/// What reading the next field of the upload form gave.
#[derive(Clone, Debug, PartialEq, Eq)]
pub enum FormRead {
    /// A field, with its name where it has one.
    Field { name: Option<String> },
    /// The form has no more fields.
    NoMoreFields,
    /// The form could not be read further.
    Broken,
}

/// What to do after reading the upload form.
#[derive(Clone, Copy, Debug, PartialEq, Eq, Structural)]
pub enum FormTask {
    /// Read the field's text and hand it to `accept_text` with this role.
    ReadText(FieldRole),
    /// Read the field as the file and hand it to `accept_file`.
    ReadFile,
    /// Pass over the field and read the next one.
    Skip,
    /// Stop reading: the form is over, and what it gave so far stands.
    Stop,
}

/// The task for a read of the upload form: a field is read by its role,
/// and both the end of the form and a form that cannot be read further
/// stop the reading.
pub open spec fn task_of(read: FormRead) -> FormTask {
    match read {
        FormRead::Field { name } => {
            let role = role_of(
                match name {
                    Some(n) => n@,
                    None => ""@,
                },
            );
            match role {
                FieldRole::File => FormTask::ReadFile,
                FieldRole::Other => FormTask::Skip,
                _ => FormTask::ReadText(role),
            }
        },
        FormRead::NoMoreFields => FormTask::Stop,
        FormRead::Broken => FormTask::Stop,
    }
}

/// Decides what to do after reading the upload form.
pub fn form_task(read: &FormRead) -> (t: FormTask)
    ensures
        t == task_of(*read),
{
    match read {
        FormRead::Field { name } => {
            let n = match name {
                Some(n) => Some(n.as_str()),
                None => None,
            };
            let role = field_role(n);
            match role {
                FieldRole::File => FormTask::ReadFile,
                FieldRole::Other => FormTask::Skip,
                _ => FormTask::ReadText(role),
            }
        },
        FormRead::NoMoreFields => FormTask::Stop,
        FormRead::Broken => FormTask::Stop,
    }
}

/// What an upload form has given so far.
#[derive(Clone, Debug, PartialEq, Eq)]
pub struct UploadForm {
    pub tenant_id: String,
    pub uploaded_by: String,
    pub visibility: AssetVisibility,
    pub filename: String,
    pub content_type: String,
    pub data: Vec<u8>,
}

/// `text` when present, else `fallback`.
fn text_or(text: Option<String>, fallback: &str) -> (s: String)
    ensures
        s@ == match text {
            Some(t) => t@,
            None => fallback@,
        },
{
    match text {
        Some(t) => t,
        None => String::from_str(fallback),
    }
}

impl UploadForm {
    /// A form before any field: tenant `default`, uploader `system`,
    /// public, and no file.
    pub fn new() -> (f: UploadForm)
        ensures
            f.tenant_id@ == "default"@,
            f.uploaded_by@ == "system"@,
            f.visibility == AssetVisibility::Public,
            f.filename@ == Seq::<char>::empty(),
            f.content_type@ == Seq::<char>::empty(),
            f.data@ == Seq::<u8>::empty(),
    {
        UploadForm {
            tenant_id: String::from_str("default"),
            uploaded_by: String::from_str("system"),
            visibility: AssetVisibility::Public,
            filename: String::new(),
            content_type: String::new(),
            data: Vec::new(),
        }
    }

    /// Takes the text of a `tenant_id`, `user_id` or `private` field
    /// (`None` where the text could not be read). A missing tenant is
    /// `default`, a missing user `system`; the asset becomes private only
    /// when `private` reads `true`. Other fields leave the form as it is.
    pub fn accept_text(&mut self, role: FieldRole, text: Option<String>)
        ensures
            final(self).filename == old(self).filename,
            final(self).content_type == old(self).content_type,
            final(self).data@ == old(self).data@,
            final(self).tenant_id@ == if role == FieldRole::TenantId {
                match text {
                    Some(t) => t@,
                    None => "default"@,
                }
            } else {
                old(self).tenant_id@
            },
            final(self).uploaded_by@ == if role == FieldRole::UserId {
                match text {
                    Some(t) => t@,
                    None => "system"@,
                }
            } else {
                old(self).uploaded_by@
            },
            final(self).visibility == if role == FieldRole::Private && (text matches Some(t)
                && t@ == "true"@) {
                AssetVisibility::Private
            } else {
                old(self).visibility
            },
    {
        match role {
            FieldRole::TenantId => {
                self.tenant_id = text_or(text, "default");
            },
            FieldRole::UserId => {
                self.uploaded_by = text_or(text, "system");
            },
            FieldRole::Private => {
                let yes = match &text {
                    Some(t) => same_text(t.as_str(), "true"),
                    None => false,
                };
                if yes {
                    self.visibility = AssetVisibility::Private;
                }
            },
            _ => {},
        }
    }

    /// Takes the `file` field: its file name (`unknown` when it has none),
    /// its content type (`application/octet-stream` when it has none) and
    /// its bytes (none where they could not be read).
    pub fn accept_file(
        &mut self,
        file_name: Option<String>,
        content_type: Option<String>,
        data: Option<Vec<u8>>,
    )
        ensures
            final(self).tenant_id == old(self).tenant_id,
            final(self).uploaded_by == old(self).uploaded_by,
            final(self).visibility == old(self).visibility,
            final(self).filename@ == match file_name {
                Some(f) => f@,
                None => "unknown"@,
            },
            final(self).content_type@ == match content_type {
                Some(c) => c@,
                None => "application/octet-stream"@,
            },
            final(self).data@ == match data {
                Some(d) => d@,
                None => Seq::<u8>::empty(),
            },
    {
        self.filename = text_or(file_name, "unknown");
        self.content_type = text_or(content_type, "application/octet-stream");
        self.data = match data {
            Some(d) => d,
            None => Vec::new(),
        };
    }

    /// The completed form; a form that brought no bytes is refused as
    /// an invalid type.
    pub fn finish(self) -> (r: Result<UploadForm, AssetError>)
        ensures
            self.data@.len() == 0 ==> r == Err::<UploadForm, AssetError>(AssetError::InvalidType),
            self.data@.len() != 0 ==> r == Ok::<UploadForm, AssetError>(self),
    {
        if self.data.len() == 0 {
            Err(AssetError::InvalidType)
        } else {
            Ok(self)
        }
    }
}

} // verus!
