//! The upload of a new asset as a state machine. The caller performs each
//! action (storing an object, saving the record) and hands the outcome
//! back; the machine decides what comes next. Resizing of images happens
//! inside the machine.

use vstd::prelude::*;
use vstd::string::*;
use crate::domain::{
    classify_content_type, copy_text, current_time, is_clock_time, type_for_content, Asset, AssetError,
    AssetType, AssetVisibility, ImageVersions,
};
use crate::layout::{
    law_assets_never_share_keys, object_path, path_for, public_url, rank_from, rendition_key, rendition_key_for, url_for,
    Rendition,
};
use crate::imaging::{avif_resizes, is_avif_file, is_rendition_in, resize_image};
use crate::ids::{fresh_id, is_v4_uuid_text};

verus! {

/// Which step of an upload is under way.
#[derive(Clone, Copy, Debug, PartialEq, Eq, Structural)]
pub enum IngestPhase {
    StoringOriginal,
    StoringRendition(Rendition),
    Recording,
    Finished,
}

/// What the caller is asked to do next.
#[derive(Debug)]
pub enum IngestAction {
    /// Put `data` into the bucket under `key`, declared as `content_type`.
    Store { key: String, data: Vec<u8>, content_type: String },
    /// Save the asset record.
    Record(Asset),
    /// The upload is over, with this result.
    Finish(Result<Asset, AssetError>),
}

/// An upload in progress.
pub struct Ingest {
    pub tenant_id: String,
    pub filename: String,
    pub content_type: String,
    pub data: Vec<u8>,
    pub visibility: AssetVisibility,
    pub uploaded_by: String,
    pub base_url: String,
    pub asset_id: String,
    pub asset_type: AssetType,
    pub path: String,
    pub versions: ImageVersions,
    pub record: Option<Asset>,
    pub phase: IngestPhase,
}

/// The rendition slot of `v` that holds the key of `r`.
pub open spec fn slot(v: ImageVersions, r: Rendition) -> Option<String> {
    match r {
        Rendition::W1200 => v.v1200,
        Rendition::W800 => v.v800,
        Rendition::W400 => v.v400,
    }
}

/// The first rendition, from `from` on in production order, whose
/// resizing of `data` succeeds.
pub open spec fn first_rendition(data: Seq<u8>, from: Option<Rendition>) -> Option<Rendition>
    decreases rank_from(from),
{
    match from {
        None => None,
        Some(r) => {
            if avif_resizes(data, r.edge(), r.edge()) {
                Some(r)
            } else {
                first_rendition(data, r.after())
            }
        },
    }
}

/// Where the renditions of an upload of this type start.
pub open spec fn renditions_start(t: AssetType) -> Option<Rendition> {
    if t == AssetType::Image {
        Some(Rendition::W1200)
    } else {
        None
    }
}

impl Ingest {
    /// The key under which rendition `r` of this upload is stored.
    pub open spec fn key_of(self, r: Rendition) -> Seq<char> {
        rendition_key_for(self.tenant_id@, self.asset_id@, r, self.filename@)
    }

    /// `a` is the record of this upload, stamped with clock times.
    pub open spec fn describes(self, a: Asset) -> bool {
        &&& is_clock_time(a.created_at)
        &&& is_clock_time(a.updated_at)
        &&& a.id == self.asset_id
        &&& a.tenant_id == self.tenant_id
        &&& a.asset_type == self.asset_type
        &&& a.filename == self.filename
        &&& a.mime_type == self.content_type
        &&& a.size == self.data@.len()
        &&& a.path == self.path
        &&& a.url@ == url_for(self.base_url@, self.path@)
        &&& a.versions == (if self.asset_type == AssetType::Image {
            Some(self.versions)
        } else {
            None
        })
        &&& a.visibility == self.visibility
        &&& a.uploaded_by == self.uploaded_by
    }

    /// The upload's own facts: what it was asked to store, under which
    /// identity and paths.
    pub open spec fn same_upload(self, other: Ingest) -> bool {
        &&& self.tenant_id == other.tenant_id
        &&& self.filename == other.filename
        &&& self.content_type == other.content_type
        &&& self.data@ == other.data@
        &&& self.visibility == other.visibility
        &&& self.uploaded_by == other.uploaded_by
        &&& self.base_url == other.base_url
        &&& self.asset_id == other.asset_id
        &&& self.asset_type == other.asset_type
        &&& self.path == other.path
    }

    /// The facts that hold at every point of an upload: the type follows
    /// from the content type, the original lies at the upload's path, and
    /// every rendition named lies at its own key.
    pub open spec fn consistent(self) -> bool {
        &&& self.asset_type == type_for_content(self.content_type@)
        &&& self.path@ == path_for(self.tenant_id@, self.asset_id@, self.filename@)
        &&& self.versions.original == self.path
        &&& forall|r: Rendition| #[trigger]
            slot(self.versions, r) matches Some(k) ==> k@ == self.key_of(r)
    }

    /// Consistency of an upload in progress: renditions are only named
    /// once their turn has passed, and a record is at hand once the
    /// upload is being recorded.
    pub open spec fn wf(self) -> bool {
        &&& self.consistent()
        &&& match self.phase {
            IngestPhase::StoringOriginal => forall|r: Rendition| #[trigger]
                slot(self.versions, r) is None,
            IngestPhase::StoringRendition(c) => {
                &&& self.asset_type == AssetType::Image
                &&& forall|r: Rendition| #[trigger]
                    slot(self.versions, r) is Some ==> r.rank() > c.rank()
            },
            IngestPhase::Recording => self.record matches Some(a) && self.describes(a),
            IngestPhase::Finished => true,
        }
    }

    /// After the action `a`, this state goes on from rendition `from`:
    /// it stores the first rendition that resizes, as the AVIF file of the
    /// image scaled to fit that rendition's box, or records the asset when
    /// none is left.
    pub open spec fn moved_on(self, a: IngestAction, from: Option<Rendition>) -> bool {
        match first_rendition(self.data@, from) {
            Some(r) => {
                &&& self.phase == IngestPhase::StoringRendition(r)
                &&& a matches IngestAction::Store { key, data, content_type }
                &&& key@ == self.key_of(r)
                &&& is_avif_file(data@)
                &&& is_rendition_in(data@, r.edge(), r.edge())
                &&& content_type@ == "image/avif"@
            },
            None => {
                &&& self.phase == IngestPhase::Recording
                &&& self.record matches Some(rec)
                &&& a == IngestAction::Record(rec)
            },
        }
    }

    /// What one step does: `self` is the state before, `after` the state
    /// after it, and `a` the action asked for, given the outcome of the
    /// last action.
    pub open spec fn stepped(self, outcome: Result<(), String>, after: Ingest, a: IngestAction) -> bool {
        &&& self.phase == IngestPhase::StoringOriginal ==> match outcome {
            Err(m) => {
                &&& after.phase == IngestPhase::Finished
                &&& after.versions == self.versions
                &&& a == IngestAction::Finish(Err(AssetError::StorageError(m)))
            },
            Ok(_) => after.versions == self.versions && after.moved_on(
                a,
                renditions_start(self.asset_type),
            ),
        }
        &&& self.phase matches IngestPhase::StoringRendition(r) ==> {
            &&& after.moved_on(a, r.after())
            &&& after.versions.original == self.versions.original
            &&& forall|q: Rendition| q != r ==> slot(after.versions, q) == slot(self.versions, q)
            &&& (outcome is Ok <==> slot(after.versions, r) is Some)
        }
        &&& self.phase == IngestPhase::Recording ==> {
            &&& after.phase == IngestPhase::Finished
            &&& after.record == self.record
            &&& after.versions == self.versions
            &&& match outcome {
                Ok(_) => a == IngestAction::Finish(Ok(self.record->0)),
                Err(m) => a == IngestAction::Finish(Err(AssetError::DatabaseError(m))),
            }
        }
    }

    /// Starts an upload under a given asset identifier: the first action
    /// stores the file as it came under `{tenant}/{id}/{file name}`.
    pub fn begin_with_id(
        tenant_id: String,
        filename: String,
        content_type: String,
        data: Vec<u8>,
        visibility: AssetVisibility,
        uploaded_by: String,
        base_url: String,
        asset_id: String,
    ) -> (r: (Ingest, IngestAction))
        ensures
            r.0.wf(),
            r.0.phase == IngestPhase::StoringOriginal,
            r.0.tenant_id == tenant_id,
            r.0.filename == filename,
            r.0.content_type == content_type,
            r.0.data@ == data@,
            r.0.visibility == visibility,
            r.0.uploaded_by == uploaded_by,
            r.0.base_url == base_url,
            r.0.asset_id == asset_id,
            r.0.record is None,
            r.1 matches IngestAction::Store { key, data: d, content_type: c } && key@ == path_for(
                tenant_id@,
                asset_id@,
                filename@,
            ) && d@ == data@ && c@ == content_type@,
    {
        let asset_type = classify_content_type(content_type.as_str());
        let path = object_path(tenant_id.as_str(), asset_id.as_str(), filename.as_str());
        let versions = ImageVersions::original_only(copy_text(&path));
        let action = IngestAction::Store {
            key: copy_text(&path),
            data: vstd::slice::slice_to_vec(data.as_slice()),
            content_type: copy_text(&content_type),
        };
        let ingest = Ingest {
            tenant_id,
            filename,
            content_type,
            data,
            visibility,
            uploaded_by,
            base_url,
            asset_id,
            asset_type,
            path,
            versions,
            record: None,
            phase: IngestPhase::StoringOriginal,
        };
        (ingest, action)
    }

    /// Starts an upload under a fresh random asset identifier.
    pub fn begin(
        tenant_id: String,
        filename: String,
        content_type: String,
        data: Vec<u8>,
        visibility: AssetVisibility,
        uploaded_by: String,
        base_url: String,
    ) -> (r: (Ingest, IngestAction))
        ensures
            r.0.wf(),
            r.0.phase == IngestPhase::StoringOriginal,
            r.0.tenant_id == tenant_id,
            r.0.filename == filename,
            r.0.content_type == content_type,
            r.0.data@ == data@,
            r.0.visibility == visibility,
            r.0.uploaded_by == uploaded_by,
            r.0.base_url == base_url,
            r.0.record is None,
            is_v4_uuid_text(r.0.asset_id@),
            r.1 matches IngestAction::Store { key, data: d, content_type: c } && key@ == path_for(
                tenant_id@,
                r.0.asset_id@,
                filename@,
            ) && d@ == data@ && c@ == content_type@,
    {
        let asset_id = fresh_id();
        Ingest::begin_with_id(
            tenant_id,
            filename,
            content_type,
            data,
            visibility,
            uploaded_by,
            base_url,
            asset_id,
        )
    }

    /// Builds the record of the upload, stamped with the current time, and
    /// asks for it to be saved.
    pub fn record_now(&mut self) -> (a: IngestAction)
        requires
            old(self).consistent(),
        ensures
            final(self).same_upload(*old(self)),
            final(self).versions == old(self).versions,
            final(self).phase == IngestPhase::Recording,
            final(self).record matches Some(rec) && a == IngestAction::Record(rec),
            final(self).wf(),
    {
        let versions = if self.asset_type == AssetType::Image {
            Some(self.versions.duplicate())
        } else {
            None
        };
        let url = public_url(self.base_url.as_str(), self.path.as_str());
        let created_at = current_time();
        let updated_at = current_time();
        let asset = Asset {
            id: copy_text(&self.asset_id),
            tenant_id: copy_text(&self.tenant_id),
            asset_type: self.asset_type,
            filename: copy_text(&self.filename),
            mime_type: copy_text(&self.content_type),
            size: self.data.len() as u64,
            path: copy_text(&self.path),
            url,
            versions,
            visibility: self.visibility,
            uploaded_by: copy_text(&self.uploaded_by),
            created_at,
            updated_at,
        };
        let action = IngestAction::Record(asset.duplicate());
        self.record = Some(asset);
        self.phase = IngestPhase::Recording;
        action
    }

    /// Asks for the resized bytes of rendition `r` to be stored.
    pub fn store_rendition(&mut self, r: Rendition, bytes: Vec<u8>) -> (a: IngestAction)
        requires
            old(self).consistent(),
            old(self).asset_type == AssetType::Image,
            forall|q: Rendition| #[trigger]
                slot(old(self).versions, q) is Some ==> q.rank() > r.rank(),
        ensures
            final(self).same_upload(*old(self)),
            final(self).versions == old(self).versions,
            final(self).record == old(self).record,
            final(self).phase == IngestPhase::StoringRendition(r),
            a matches IngestAction::Store { key, data, content_type } && key@ == old(self).key_of(
                r,
            ) && data@ == bytes@ && content_type@ == "image/avif"@,
            final(self).wf(),
    {
        let key = rendition_key(self.tenant_id.as_str(), self.asset_id.as_str(), r, self.filename.as_str());
        self.phase = IngestPhase::StoringRendition(r);
        IngestAction::Store { key, data: bytes, content_type: String::from_str("image/avif") }
    }
    /// Moves on from the rendition `from`: stores the first rendition that
    /// resizes, or records the asset when none is left.
    fn move_on(&mut self, from: Option<Rendition>) -> (a: IngestAction)
        requires
            old(self).consistent(),
            from is Some ==> old(self).asset_type == AssetType::Image,
            forall|q: Rendition| #[trigger]
                slot(old(self).versions, q) is Some ==> q.rank() > rank_from(from),
        ensures
            final(self).same_upload(*old(self)),
            final(self).versions == old(self).versions,
            final(self).moved_on(a, from),
            final(self).wf(),
    {
        match find_rendition(&self.data, from) {
            Some((r, bytes)) => {
                proof {
                    lemma_first_rendition_after(self.data@, from);
                }
                self.store_rendition(r, bytes)
            },
            None => self.record_now(),
        }
    }

    /// Takes the outcome of the last action (a store or a save) and
    /// decides the next one.
    ///
    /// A failed store of the original ends the upload with a storage
    /// error. Once the original is stored, an image goes through its
    /// renditions in order: a rendition that does not resize is skipped,
    /// and one whose store fails is left out of the record. Then the
    /// record is saved; the upload ends with the asset if the save
    /// succeeds and with a database error if it fails.
    pub fn step(&mut self, outcome: Result<(), String>) -> (a: IngestAction)
        requires
            old(self).wf(),
            old(self).phase != IngestPhase::Finished,
        ensures
            final(self).same_upload(*old(self)),
            final(self).wf(),
            old(self).stepped(outcome, *final(self), a),
    {
        match self.phase {
            IngestPhase::StoringOriginal => {
                match outcome {
                    Err(m) => {
                        self.phase = IngestPhase::Finished;
                        IngestAction::Finish(Err(AssetError::StorageError(m)))
                    },
                    Ok(_) => {
                        let from = if self.asset_type == AssetType::Image {
                            Some(Rendition::W1200)
                        } else {
                            None
                        };
                        self.move_on(from)
                    },
                }
            },
            IngestPhase::StoringRendition(r) => {
                let ghost before = self.versions;
                if outcome.is_ok() {
                    let key = rendition_key(
                        self.tenant_id.as_str(),
                        self.asset_id.as_str(),
                        r,
                        self.filename.as_str(),
                    );
                    match r {
                        Rendition::W1200 => self.versions.v1200 = Some(key),
                        Rendition::W800 => self.versions.v800 = Some(key),
                        Rendition::W400 => self.versions.v400 = Some(key),
                    }
                }
                proof {
                    assert forall|q: Rendition| #[trigger]
                        slot(self.versions, q) is Some implies slot(self.versions, q)->0@
                        == self.key_of(q) by {
                        if q != r {
                            assert(slot(self.versions, q) == slot(before, q));
                        }
                    }
                    assert forall|q: Rendition| #[trigger]
                        slot(self.versions, q) is Some implies q.rank() > rank_from(
                        r.after(),
                    ) by {
                        if q != r {
                            assert(slot(self.versions, q) == slot(before, q));
                        }
                    }
                }
                self.move_on(r.next())
            },
            IngestPhase::Recording => {
                self.phase = IngestPhase::Finished;
                match outcome {
                    Ok(_) => {
                        let asset = match &self.record {
                            Some(rec) => rec.duplicate(),
                            None => {
                                proof {
                                    assert(false);
                                }
                                return IngestAction::Finish(Err(AssetError::Internal));
                            },
                        };
                        IngestAction::Finish(Ok(asset))
                    },
                    Err(m) => IngestAction::Finish(Err(AssetError::DatabaseError(m))),
                }
            },
            IngestPhase::Finished => {
                proof {
                    assert(false);
                }
                IngestAction::Finish(Err(AssetError::Internal))
            },
        }
    }
}

/// The first rendition that resizes comes no earlier than where the
/// search starts.
pub proof fn lemma_first_rendition_after(data: Seq<u8>, from: Option<Rendition>)
    ensures
        first_rendition(data, from) matches Some(r) ==> from is Some && r.rank() <= rank_from(
            from,
        ),
    decreases rank_from(from),
{
    match from {
        None => {},
        Some(r) => {
            if !avif_resizes(data, r.edge(), r.edge()) {
                lemma_first_rendition_after(data, r.after());
            }
        },
    }
}

/// The first rendition from `from` on that resizes, with its bytes.
fn find_rendition(data: &Vec<u8>, from: Option<Rendition>) -> (r: Option<(Rendition, Vec<u8>)>)
    ensures
        r matches Some((x, bytes)) ==> first_rendition(data@, from) == Some(x) && is_avif_file(
            bytes@,
        ) && is_rendition_in(bytes@, x.edge(), x.edge()),
        r is None ==> first_rendition(data@, from) is None,
{
    let mut cur = from;
    loop
        invariant
            first_rendition(data@, cur) == first_rendition(data@, from),
        decreases rank_from(cur),
    {
        match cur {
            None => {
                return None;
            },
            Some(x) => {
                let px = x.edge_px();
                match resize_image(data.as_slice(), px, px) {
                    Some(bytes) => {
                        return Some((x, bytes));
                    },
                    None => {
                        cur = x.next();
                    },
                }
            },
        }
    }
}

/// The first rendition that resizes is one whose resizing succeeds.
pub proof fn lemma_first_rendition_resizes(data: Seq<u8>, from: Option<Rendition>)
    ensures
        first_rendition(data, from) matches Some(r) ==> avif_resizes(data, r.edge(), r.edge()),
    decreases rank_from(from),
{
    match from {
        None => {},
        Some(r) => {
            if !avif_resizes(data, r.edge(), r.edge()) {
                lemma_first_rendition_resizes(data, r.after());
            }
        },
    }
}

/// An upload asks to store a rendition only once resizing it has
/// succeeded, and a rendition comes to be named among the asset's
/// versions only by the successful store of that very rendition.
pub proof fn law_renditions_named_only_when_resized_and_stored(
    before: Ingest,
    outcome: Result<(), String>,
    after: Ingest,
    a: IngestAction,
    r: Rendition,
)
    requires
        before.wf(),
        before.phase != IngestPhase::Finished,
        before.stepped(outcome, after, a),
        after.same_upload(before),
    ensures
        after.phase == IngestPhase::StoringRendition(r) ==> avif_resizes(
            after.data@,
            r.edge(),
            r.edge(),
        ),
        slot(before.versions, r) is None && slot(after.versions, r) is Some ==> before.phase
            == IngestPhase::StoringRendition(r) && outcome is Ok,
{
    match before.phase {
        IngestPhase::StoringOriginal => {
            if outcome is Ok {
                lemma_first_rendition_resizes(after.data@, renditions_start(before.asset_type));
            }
        },
        IngestPhase::StoringRendition(c) => {
            lemma_first_rendition_resizes(after.data@, c.after());
        },
        _ => {},
    }
}

/// An upload succeeds only when saving its record succeeds, and then
/// with that very record, which describes the upload.
pub proof fn law_success_only_with_saved_record(
    before: Ingest,
    outcome: Result<(), String>,
    after: Ingest,
    a: IngestAction,
)
    requires
        before.wf(),
        before.phase != IngestPhase::Finished,
        before.stepped(outcome, after, a),
    ensures
        a matches IngestAction::Finish(Ok(x)) ==> {
            &&& before.phase == IngestPhase::Recording
            &&& outcome is Ok
            &&& before.record == Some(x)
            &&& before.describes(x)
        },
{
}

/// How many steps an upload in this phase has left at most.
pub open spec fn steps_left(p: IngestPhase) -> nat {
    match p {
        IngestPhase::StoringOriginal => 5,
        IngestPhase::StoringRendition(r) => r.rank() + 1,
        IngestPhase::Recording => 1,
        IngestPhase::Finished => 0,
    }
}

/// Every step brings an upload closer to its end: an upload is over after
/// at most five steps, and the step that ends it is the one that answers
/// with its result.
pub proof fn law_upload_progresses(
    before: Ingest,
    outcome: Result<(), String>,
    after: Ingest,
    a: IngestAction,
)
    requires
        before.wf(),
        before.phase != IngestPhase::Finished,
        before.stepped(outcome, after, a),
        after.same_upload(before),
    ensures
        steps_left(after.phase) < steps_left(before.phase),
        (after.phase == IngestPhase::Finished) == (a is Finish),
{
    match before.phase {
        IngestPhase::StoringOriginal => {
            if outcome is Ok {
                lemma_first_rendition_after(after.data@, renditions_start(before.asset_type));
            }
        },
        IngestPhase::StoringRendition(c) => {
            lemma_first_rendition_after(after.data@, c.after());
        },
        _ => {},
    }
}

/// Two uploads of one tenant under different fresh identifiers never
/// store an object under the same key: neither their originals nor any of
/// their renditions collide.
pub proof fn law_uploads_never_share_keys(a: Ingest, b: Ingest, r: Rendition, q: Rendition)
    requires
        a.consistent(),
        b.consistent(),
        a.tenant_id@ == b.tenant_id@,
        is_v4_uuid_text(a.asset_id@),
        is_v4_uuid_text(b.asset_id@),
        a.asset_id@ != b.asset_id@,
    ensures
        a.path@ != b.path@,
        a.key_of(r) != b.key_of(q),
        a.key_of(r) != b.path@,
        b.key_of(q) != a.path@,
{
    law_assets_never_share_keys(
        a.tenant_id@,
        a.asset_id@,
        b.asset_id@,
        a.filename@,
        b.filename@,
        Seq::empty(),
        Seq::empty(),
    );
    assert(a.key_of(r) != b.key_of(q));
    assert(a.key_of(r) != b.path@);
    assert(b.key_of(q) != a.path@);
}

/// When an upload asks to store a rendition, what it stores is an AVIF
/// file of the upload's image scaled to fit that rendition's box, under
/// that rendition's key, declared as `image/avif`.
pub proof fn law_rendition_stored_at_its_size(
    before: Ingest,
    outcome: Result<(), String>,
    after: Ingest,
    a: IngestAction,
    r: Rendition,
)
    requires
        before.wf(),
        before.phase != IngestPhase::Finished,
        before.stepped(outcome, after, a),
        after.phase == IngestPhase::StoringRendition(r),
    ensures
        a is Store,
        a->key@ == after.key_of(r),
        is_rendition_in(a->data@, r.edge(), r.edge()),
        a->content_type@ == "image/avif"@,
{
    match before.phase {
        IngestPhase::StoringOriginal => {
            if outcome is Ok {
                lemma_first_rendition_after(after.data@, renditions_start(before.asset_type));
            }
        },
        IngestPhase::StoringRendition(c) => {
            lemma_first_rendition_after(after.data@, c.after());
        },
        _ => {},
    }
}

} // verus!
