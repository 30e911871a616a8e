//! The image upload endpoints kept for older clients (products, images,
//! contents) as a state machine. The caller reads the multipart form and
//! stores objects as the machine asks; the machine checks the form, names
//! the objects, resizes the image and composes the reply.

use vstd::prelude::*;
use vstd::string::*;
use crate::text::{contains, has_infix, same_text};
use crate::imaging::{avif_resizes, is_avif_file, is_rendition_in, resize_image};
use crate::media::{mime_parts, parse_media_type, MediaType};
use crate::ids::{fresh_id, is_v4_uuid_text};
use crate::domain::copy_text;

verus! {

/// The three legacy upload endpoints.
#[derive(Clone, Copy, Debug, PartialEq, Eq, Structural)]
pub enum LegacyTarget {
    Products,
    Images,
    Contents,
}

impl LegacyTarget {
    /// The folder under which the endpoint stores its objects.
    pub open spec fn folder_name(self) -> Seq<char> {
        match self {
            LegacyTarget::Products => "products"@,
            LegacyTarget::Images => "images"@,
            LegacyTarget::Contents => "contents"@,
        }
    }

    /// The bucket used when none is configured.
    pub open spec fn default_bucket_name(self) -> Seq<char> {
        match self {
            LegacyTarget::Products => "images"@,
            LegacyTarget::Images => "images"@,
            LegacyTarget::Contents => "contents"@,
        }
    }

    /// The setting that names the endpoint's bucket.
    pub open spec fn bucket_setting_name(self) -> Seq<char> {
        match self {
            LegacyTarget::Products => "MINIO_BUCKET_PRODUCTS"@,
            LegacyTarget::Images => "MINIO_BUCKET_IMAGES"@,
            LegacyTarget::Contents => "MINIO_BUCKET_CONTENTS"@,
        }
    }

    /// The folder under which the endpoint stores its objects.
    pub fn folder(&self) -> (s: &'static str)
        ensures
            s@ == self.folder_name(),
    {
        match self {
            LegacyTarget::Products => "products",
            LegacyTarget::Images => "images",
            LegacyTarget::Contents => "contents",
        }
    }

    /// The bucket used when none is configured.
    pub fn default_bucket(&self) -> (s: &'static str)
        ensures
            s@ == self.default_bucket_name(),
    {
        match self {
            LegacyTarget::Products => "images",
            LegacyTarget::Images => "images",
            LegacyTarget::Contents => "contents",
        }
    }

    /// The setting that names the endpoint's bucket.
    pub fn bucket_setting(&self) -> (s: &'static str)
        ensures
            s@ == self.bucket_setting_name(),
    {
        match self {
            LegacyTarget::Products => "MINIO_BUCKET_PRODUCTS",
            LegacyTarget::Images => "MINIO_BUCKET_IMAGES",
            LegacyTarget::Contents => "MINIO_BUCKET_CONTENTS",
        }
    }
}

/// The stored variants of a legacy upload, in the order they are stored.
#[derive(Clone, Copy, Debug, PartialEq, Eq, Structural)]
pub enum Variant {
    Original,
    Medium,
    Thumbnail,
}

impl Variant {
    /// The folder name of the variant.
    pub open spec fn name(self) -> Seq<char> {
        match self {
            Variant::Original => "original"@,
            Variant::Medium => "medium"@,
            Variant::Thumbnail => "thumbnail"@,
        }
    }

    /// The box a resized variant fits in; the original is kept as sent.
    pub open spec fn bound(self) -> Option<u32> {
        match self {
            Variant::Original => None,
            Variant::Medium => Some(800),
            Variant::Thumbnail => Some(200),
        }
    }

    /// The variant stored after this one.
    pub open spec fn after(self) -> Option<Variant> {
        match self {
            Variant::Original => Some(Variant::Medium),
            Variant::Medium => Some(Variant::Thumbnail),
            Variant::Thumbnail => None,
        }
    }

    /// The position of the variant in storing order.
    pub open spec fn index(self) -> nat {
        match self {
            Variant::Original => 0,
            Variant::Medium => 1,
            Variant::Thumbnail => 2,
        }
    }

    /// The folder name of the variant.
    pub fn folder(&self) -> (s: &'static str)
        ensures
            s@ == self.name(),
    {
        match self {
            Variant::Original => "original",
            Variant::Medium => "medium",
            Variant::Thumbnail => "thumbnail",
        }
    }

    /// The variant stored after this one.
    pub fn next(&self) -> (v: Option<Variant>)
        ensures
            v == self.after(),
    {
        match self {
            Variant::Original => Some(Variant::Medium),
            Variant::Medium => Some(Variant::Thumbnail),
            Variant::Thumbnail => None,
        }
    }

    /// The box a resized variant fits in.
    pub fn edge(&self) -> (b: Option<u32>)
        ensures
            b == self.bound(),
    {
        match self {
            Variant::Original => None,
            Variant::Medium => Some(800),
            Variant::Thumbnail => Some(200),
        }
    }
}

/// The variant stored at position `i`.
pub open spec fn variant_at(i: int) -> Variant {
    if i == 0 {
        Variant::Original
    } else if i == 1 {
        Variant::Medium
    } else {
        Variant::Thumbnail
    }
}

/// The key of a variant: `{folder}/{variant}/{file id}.{extension}`.
pub open spec fn variant_key_for(folder: Seq<char>, v: Variant, id: Seq<char>, ext: Seq<char>) -> Seq<
    char,
> {
    folder + "/"@ + v.name() + "/"@ + id + "."@ + ext
}

/// Builds `{folder}/{variant}/{file id}.{extension}`.
pub fn variant_key(folder: &str, v: Variant, id: &str, ext: &str) -> (k: String)
    ensures
        k@ == variant_key_for(folder@, v, id@, ext@),
{
    let mut k = String::from_str(folder);
    k.append("/");
    k.append(v.folder());
    k.append("/");
    k.append(id);
    k.append(".");
    k.append(ext);
    k
}

/// The body of a reply: a message, or the keys stored and their bucket.
#[derive(Clone, Debug, PartialEq, Eq)]
pub enum ReplyBody {
    Text(String),
    Stored { keys: Vec<String>, bucket: String },
}

/// An HTTP reply: its status code and body.
#[derive(Clone, Debug, PartialEq, Eq)]
pub struct Reply {
    pub status: u16,
    pub body: ReplyBody,
}

/// `r` answers with `status` and the message `text`.
pub open spec fn is_text_reply(r: Reply, status: u16, text: Seq<char>) -> bool {
    &&& r.status == status
    &&& r.body matches ReplyBody::Text(t)
    &&& t@ == text
}

/// A reply with a message.
pub fn text_reply(status: u16, text: String) -> (r: Reply)
    ensures
        r.status == status,
        r.body == ReplyBody::Text(text),
{
    Reply { status, body: ReplyBody::Text(text) }
}

/// `prefix` followed by `rest`.
fn joined(prefix: &str, rest: &str) -> (s: String)
    ensures
        s@ == prefix@ + rest@,
{
    let mut s = String::from_str(prefix);
    s.append(rest);
    s
}

/// What reading the multipart form gave.
#[derive(Clone, Debug, PartialEq, Eq)]
pub enum FormEvent {
    /// A field, with its name and declared content type where it has them.
    Field { name: Option<String>, content_type: Option<String> },
    /// The form has no more fields.
    NoMoreFields,
    /// The form could not be read; the text of the failure.
    Broken(String),
}

/// Which step of a legacy upload is under way.
#[derive(Clone, Copy, Debug, PartialEq, Eq, Structural)]
pub enum PublishPhase {
    FirstField,
    LaterField,
    ReadingFile,
    Storing(Variant),
    Done,
}

/// What the caller is asked to do next.
#[derive(Debug)]
pub enum PublishAction {
    /// Read the next field of the form.
    NextField,
    /// Read the content of the current field, the file.
    ReadFile,
    /// Put `data` into the bucket under `key`, declared as `content_type`.
    Store { key: String, data: Vec<u8>, content_type: String },
    /// Answer the request.
    Reply(Reply),
}

/// A legacy image upload in progress.
pub struct Publish {
    pub folder: String,
    pub bucket: String,
    pub content_type: String,
    pub ext: String,
    pub file_id: String,
    pub data: Vec<u8>,
    pub keys: Vec<String>,
    pub phase: PublishPhase,
}

impl Publish {
    /// The upload is over and `a` answers with `status` and `text`.
    pub open spec fn answered(self, a: PublishAction, status: u16, text: Seq<char>) -> bool {
        &&& self.phase == PublishPhase::Done
        &&& a matches PublishAction::Reply(r)
        &&& is_text_reply(r, status, text)
    }

    /// The key of variant `v` of this upload.
    pub open spec fn key_of(self, v: Variant) -> Seq<char> {
        variant_key_for(self.folder@, v, self.file_id@, self.ext@)
    }

    /// The keys gathered so far are those of the first `n` variants.
    pub open spec fn keys_upto(self, n: nat) -> bool {
        &&& self.keys@.len() == n
        &&& forall|i: int| 0 <= i < n ==> #[trigger] self.keys@[i]@ == self.key_of(variant_at(i))
    }

    /// Consistency of an upload in progress: while a variant is being
    /// stored, the keys of the variants before it are gathered.
    pub open spec fn wf(self) -> bool {
        self.phase matches PublishPhase::Storing(v) ==> self.keys_upto(v.index())
    }

    /// The upload's destination and file are those of `other`.
    pub open spec fn same_target(self, other: Publish) -> bool {
        self.folder == other.folder && self.bucket == other.bucket
    }

    /// What storing a variant does: `self` is the state before, `after`
    /// the state after it, and `a` the action asked for, given the outcome
    /// of the store. A failed store is refused with 500. After a stored
    /// variant comes the next one, resized from the file; after the last,
    /// the reply lists the keys gathered and the bucket.
    pub open spec fn stored_step(self, outcome: Result<(), String>, after: Publish, a: PublishAction) -> bool {
        &&& after.same_target(self)
        &&& after.file_id == self.file_id
        &&& after.ext == self.ext
        &&& after.content_type == self.content_type
        &&& after.data@ == self.data@
        &&& ({
                let v = self.phase->Storing_0;
                match outcome {
                    Err(_) => after.answered(a, 500, "Failed to upload to storage"@),
                    Ok(_) => {
                        &&& after.keys_upto(v.index() + 1)
                        &&& match v.after() {
                            None => {
                                &&& after.phase == PublishPhase::Done
                                &&& a matches PublishAction::Reply(r)
                                &&& r.status == 200
                                &&& r.body matches ReplyBody::Stored { keys, bucket }
                                &&& keys@ == after.keys@
                                &&& bucket == self.bucket
                            },
                            Some(w) => if !avif_resizes(
                                self.data@,
                                w.bound()->0,
                                w.bound()->0,
                            ) {
                                after.answered(a, 500, "Failed to process image"@)
                            } else {
                                &&& after.phase == PublishPhase::Storing(w)
                                &&& a matches PublishAction::Store { key, data, content_type }
                                &&& key@ == self.key_of(w)
                                &&& is_avif_file(data@)
                                &&& is_rendition_in(data@, w.bound()->0, w.bound()->0)
                                &&& content_type == self.content_type
                            },
                        }
                    },
                }
            })
    }

    /// Starts an upload into `folder` of `bucket`: the first action reads
    /// the first field of the form.
    pub fn begin(folder: String, bucket: String) -> (r: (Publish, PublishAction))
        ensures
            r.0.folder == folder,
            r.0.bucket == bucket,
            r.0.phase == PublishPhase::FirstField,
            r.0.wf(),
            r.1 is NextField,
    {
        let p = Publish {
            folder,
            bucket,
            content_type: String::new(),
            ext: String::new(),
            file_id: String::new(),
            data: Vec::new(),
            keys: Vec::new(),
            phase: PublishPhase::FirstField,
        };
        (p, PublishAction::NextField)
    }

    /// Takes the declared content type of the file field and what parsing
    /// it gave: a text that is no media type is refused with 400, a media
    /// type other than an image with 415; an image is read next.
    pub fn accept_media_type(&mut self, content_type: String, parsed: Option<MediaType>) -> (a:
        PublishAction)
        requires
            old(self).wf(),
        ensures
            final(self).same_target(*old(self)),
            final(self).wf(),
            match parsed {
                None => final(self).answered(a, 400, "Invalid Content-Type"@),
                Some(m) => if m.top_level@ != "image"@ {
                    final(self).answered(a, 415, "Not an image (received: "@ + m.text@ + ")"@)
                } else {
                    &&& final(self).phase == PublishPhase::ReadingFile
                    &&& final(self).content_type == content_type
                    &&& final(self).ext == m.subtype
                    &&& a is ReadFile
                },
            },
    {
        match parsed {
            None => {
                self.phase = PublishPhase::Done;
                PublishAction::Reply(text_reply(400, String::from_str("Invalid Content-Type")))
            },
            Some(m) => {
                if !same_text(m.top_level.as_str(), "image") {
                    self.phase = PublishPhase::Done;
                    let mut msg = joined("Not an image (received: ", m.text.as_str());
                    msg.append(")");
                    PublishAction::Reply(text_reply(415, msg))
                } else {
                    self.content_type = content_type;
                    self.ext = m.subtype;
                    self.phase = PublishPhase::ReadingFile;
                    PublishAction::ReadFile
                }
            },
        }
    }

    /// Takes what reading the form gave. A field named `file` is the
    /// upload: its declared content type (`application/octet-stream` when
    /// it has none) must be an image type. Other fields are passed over.
    /// An empty form, a form without a `file` field, and a form that
    /// cannot be read are refused with 400.
    pub fn on_form(&mut self, event: FormEvent) -> (a: PublishAction)
        requires
            old(self).wf(),
            old(self).phase == PublishPhase::FirstField || old(self).phase
                == PublishPhase::LaterField,
        ensures
            final(self).same_target(*old(self)),
            final(self).wf(),
            match event {
                FormEvent::NoMoreFields => final(self).answered(a, 400,
                    if old(self).phase == PublishPhase::FirstField {
                        "No fields found (ensure you send a 'file' field)"@
                    } else {
                        "file field missing (ensure the field name in Postman is exactly 'file')"@
                    },
                ),
                FormEvent::Broken(e) => final(self).answered(a, 400,
                    if old(self).phase == PublishPhase::FirstField && has_infix(e@, "boundary"@) {
                        "Invalid boundary. In Postman, do NOT set 'Content-Type' manually in Headers. Let Postman handle it automatically when you select 'form-data' in the Body tab."@
                    } else {
                        "Multipart error: "@ + e@
                    },
                ),
                FormEvent::Field { name, content_type } => if name matches Some(n) && n@
                    == "file"@ {
                    let declared = match content_type {
                        Some(c) => c@,
                        None => "application/octet-stream"@,
                    };
                    match mime_parts(declared) {
                        None => final(self).answered(a, 400,
                            "Invalid Content-Type"@,
                        ),
                        Some(parts) => if parts.0 != "image"@ {
                            final(self).answered(a, 415,
                                "Not an image (received: "@ + parts.2 + ")"@,
                            )
                        } else {
                            &&& final(self).phase == PublishPhase::ReadingFile
                            &&& final(self).content_type@ == declared
                            &&& final(self).ext@ == parts.1
                            &&& a is ReadFile
                        },
                    }
                } else {
                    final(self).phase == PublishPhase::LaterField && a is NextField
                },
            },
    {
        match event {
            FormEvent::NoMoreFields => {
                let first = self.phase == PublishPhase::FirstField;
                self.phase = PublishPhase::Done;
                if first {
                    PublishAction::Reply(
                        text_reply(
                            400,
                            String::from_str("No fields found (ensure you send a 'file' field)"),
                        ),
                    )
                } else {
                    PublishAction::Reply(
                        text_reply(
                            400,
                            String::from_str(
                                "file field missing (ensure the field name in Postman is exactly 'file')",
                            ),
                        ),
                    )
                }
            },
            FormEvent::Broken(e) => {
                let first = self.phase == PublishPhase::FirstField;
                self.phase = PublishPhase::Done;
                if first && contains(e.as_str(), "boundary") {
                    PublishAction::Reply(
                        text_reply(
                            400,
                            String::from_str(
                                "Invalid boundary. In Postman, do NOT set 'Content-Type' manually in Headers. Let Postman handle it automatically when you select 'form-data' in the Body tab.",
                            ),
                        ),
                    )
                } else {
                    PublishAction::Reply(text_reply(400, joined("Multipart error: ", e.as_str())))
                }
            },
            FormEvent::Field { name, content_type } => {
                let is_file = match &name {
                    Some(n) => same_text(n.as_str(), "file"),
                    None => false,
                };
                if is_file {
                    let declared = match content_type {
                        Some(c) => c,
                        None => String::from_str("application/octet-stream"),
                    };
                    let parsed = parse_media_type(declared.as_str());
                    self.accept_media_type(declared, parsed)
                } else {
                    self.phase = PublishPhase::LaterField;
                    PublishAction::NextField
                }
            },
        }
    }
    /// Takes the bytes read from the file field, or the text of the
    /// failure to read them (refused with 500).
    pub fn on_file(&mut self, bytes: Result<Vec<u8>, String>) -> (a: PublishAction)
        requires
            old(self).wf(),
            old(self).phase == PublishPhase::ReadingFile,
        ensures
            final(self).same_target(*old(self)),
            final(self).wf(),
            match bytes {
                Err(e) => final(self).answered(a, 500, "Failed to read bytes: "@ + e@),
                Ok(d) => {
                    &&& final(self).phase == PublishPhase::Storing(Variant::Original)
                    &&& is_v4_uuid_text(final(self).file_id@)
                    &&& final(self).content_type == old(self).content_type
                    &&& final(self).ext == old(self).ext
                    &&& final(self).data@ == d@
                    &&& a matches PublishAction::Store { key, data, content_type }
                    &&& key@ == final(self).key_of(Variant::Original)
                    &&& data@ == d@
                    &&& content_type == old(self).content_type
                },
            },
    {
        match bytes {
            Err(e) => {
                self.phase = PublishPhase::Done;
                PublishAction::Reply(text_reply(500, joined("Failed to read bytes: ", e.as_str())))
            },
            Ok(d) => {
                let id = fresh_id();
                self.start_storing(d, id)
            },
        }
    }

    /// Stores the file, as it came, under the identifier `file_id`.
    pub fn start_storing(&mut self, data: Vec<u8>, file_id: String) -> (a: PublishAction)
        ensures
            final(self).same_target(*old(self)),
            final(self).wf(),
            final(self).phase == PublishPhase::Storing(Variant::Original),
            final(self).content_type == old(self).content_type,
            final(self).ext == old(self).ext,
            final(self).file_id == file_id,
            final(self).data@ == data@,
            a matches PublishAction::Store { key, data: d, content_type }
                && key@ == variant_key_for(old(self).folder@, Variant::Original, file_id@, old(self).ext@)
                && d@ == data@ && content_type == old(self).content_type,
    {
        let key = variant_key(self.folder.as_str(), Variant::Original, file_id.as_str(), self.ext.as_str());
        let copy = vstd::slice::slice_to_vec(data.as_slice());
        self.data = data;
        self.file_id = file_id;
        self.keys = Vec::new();
        self.phase = PublishPhase::Storing(Variant::Original);
        PublishAction::Store { key, data: copy, content_type: copy_text(&self.content_type) }
    }

    /// Takes what resizing the file for variant `v` gave: a failure is
    /// refused with 500, resized bytes are stored.
    pub fn store_variant(&mut self, v: Variant, resized: Option<Vec<u8>>) -> (a: PublishAction)
        requires
            old(self).keys_upto(v.index()),
        ensures
            final(self).same_target(*old(self)),
            final(self).wf(),
            final(self).keys@ == old(self).keys@,
            final(self).file_id == old(self).file_id,
            final(self).ext == old(self).ext,
            final(self).content_type == old(self).content_type,
            final(self).data@ == old(self).data@,
            match resized {
                None => final(self).answered(a, 500, "Failed to process image"@),
                Some(b) => {
                    &&& final(self).phase == PublishPhase::Storing(v)
                    &&& a matches PublishAction::Store { key, data, content_type }
                    &&& key@ == old(self).key_of(v)
                    &&& data@ == b@
                    &&& content_type == old(self).content_type
                },
            },
    {
        match resized {
            None => {
                self.phase = PublishPhase::Done;
                PublishAction::Reply(text_reply(500, String::from_str("Failed to process image")))
            },
            Some(b) => {
                let key = variant_key(self.folder.as_str(), v, self.file_id.as_str(), self.ext.as_str());
                self.phase = PublishPhase::Storing(v);
                PublishAction::Store { key, data: b, content_type: copy_text(&self.content_type) }
            },
        }
    }

    /// Takes the outcome of storing the current variant. A failed store
    /// is refused with 500. After the original come the 800 and the 200
    /// pixel renditions, each resized from the file; once all three are
    /// stored the reply lists their keys and the bucket.
    pub fn on_stored(&mut self, outcome: Result<(), String>) -> (a: PublishAction)
        requires
            old(self).wf(),
            old(self).phase is Storing,
        ensures
            final(self).wf(),
            old(self).stored_step(outcome, *final(self), a),
    {
        let v = match self.phase {
            PublishPhase::Storing(v) => v,
            _ => {
                proof {
                    assert(false);
                }
                Variant::Original
            },
        };
        match outcome {
            Err(_) => {
                self.phase = PublishPhase::Done;
                PublishAction::Reply(text_reply(500, String::from_str("Failed to upload to storage")))
            },
            Ok(_) => {
                let key = variant_key(self.folder.as_str(), v, self.file_id.as_str(), self.ext.as_str());
                self.keys.push(key);
                match v.next() {
                    None => {
                        self.phase = PublishPhase::Done;
                        let mut keys: Vec<String> = Vec::new();
                        let mut i: usize = 0;
                        while i < self.keys.len()
                            invariant
                                i <= self.keys@.len(),
                                keys@ == self.keys@.subrange(0, i as int),
                            decreases self.keys@.len() - i,
                        {
                            keys.push(copy_text(&self.keys[i]));
                            assert(keys@ =~= self.keys@.subrange(0, i + 1));
                            i = i + 1;
                        }
                        assert(keys@ =~= self.keys@);
                        PublishAction::Reply(
                            Reply {
                                status: 200,
                                body: ReplyBody::Stored { keys, bucket: copy_text(&self.bucket) },
                            },
                        )
                    },
                    Some(w) => {
                        let edge = match w.edge() {
                            Some(e) => e,
                            None => {
                                proof {
                                    assert(false);
                                }
                                0
                            },
                        };
                        let resized = resize_image(self.data.as_slice(), edge, edge);
                        self.store_variant(w, resized)
                    },
                }
            },
        }
    }
}

/// The three variants of a legacy upload are stored under three
/// different keys, all in the upload's folder.
pub proof fn law_variant_keys_distinct(
    folder: Seq<char>,
    id: Seq<char>,
    ext: Seq<char>,
    v: Variant,
    w: Variant,
)
    ensures
        variant_key_for(folder, v, id, ext) == folder + "/"@ + (v.name() + "/"@ + id + "."@
            + ext),
        v != w ==> variant_key_for(folder, v, id, ext) != variant_key_for(folder, w, id, ext),
{
    reveal_strlit("original");
    reveal_strlit("medium");
    reveal_strlit("thumbnail");
    assert(variant_key_for(folder, v, id, ext) =~= folder + "/"@ + (v.name() + "/"@ + id + "."@
        + ext));
    assert(variant_key_for(folder, w, id, ext) =~= folder + "/"@ + (w.name() + "/"@ + id + "."@
        + ext));
}

/// The variants are stored in the order original, medium, thumbnail, and
/// the thumbnail is the last: the medium follows the original and the
/// thumbnail follows the medium.
pub proof fn law_variant_order()
    ensures
        Variant::Original.after() == Some(Variant::Medium),
        Variant::Medium.after() == Some(Variant::Thumbnail),
        Variant::Thumbnail.after() is None,
        Variant::Medium.bound() == Some(800u32),
        Variant::Thumbnail.bound() == Some(200u32),
        Variant::Original.bound() is None,
{
}

/// A legacy upload answers 200 only once the thumbnail is stored, and the
/// reply then lists exactly three keys, those of the original, the medium
/// and the thumbnail in that order, with the upload's bucket.
pub proof fn law_success_lists_all_three_variants(
    before: Publish,
    outcome: Result<(), String>,
    after: Publish,
    a: PublishAction,
)
    requires
        before.wf(),
        before.phase is Storing,
        before.stored_step(outcome, after, a),
    ensures
        (a matches PublishAction::Reply(r) && r.status == 200) ==> {
            &&& before.phase == PublishPhase::Storing(Variant::Thumbnail)
            &&& outcome is Ok
            &&& a->Reply_0.body matches ReplyBody::Stored { keys, bucket }
            &&& keys@.len() == 3
            &&& keys@[0]@ == before.key_of(Variant::Original)
            &&& keys@[1]@ == before.key_of(Variant::Medium)
            &&& keys@[2]@ == before.key_of(Variant::Thumbnail)
            &&& bucket == before.bucket
        },
{
    if a matches PublishAction::Reply(r) && r.status == 200 {
        let v = before.phase->Storing_0;
        assert(outcome is Ok);
        assert(v.after() is None);
        assert(v == Variant::Thumbnail);
        assert(after.keys_upto(3));
        assert(after.keys@[0]@ == after.key_of(variant_at(0)));
        assert(after.keys@[1]@ == after.key_of(variant_at(1)));
        assert(after.keys@[2]@ == after.key_of(variant_at(2)));
    }
}

/// When a legacy upload asks to store a resized variant, what it stores is
/// an AVIF file of the image scaled to fit that variant's box (800 pixels
/// for the medium, 200 for the thumbnail), under that variant's key.
pub proof fn law_variant_stored_at_its_size(
    before: Publish,
    outcome: Result<(), String>,
    after: Publish,
    a: PublishAction,
    w: Variant,
)
    requires
        before.wf(),
        before.phase is Storing,
        before.stored_step(outcome, after, a),
        after.phase == PublishPhase::Storing(w),
    ensures
        a is Store,
        a->key@ == before.key_of(w),
        w == Variant::Medium ==> is_rendition_in(a->data@, 800, 800),
        w == Variant::Thumbnail ==> is_rendition_in(a->data@, 200, 200),
        w != Variant::Original,
{
}

} // verus!
