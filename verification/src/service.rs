//! The service's decisions around the record store: lookups, batches,
//! listings, deletion, and the versions view of an asset.

use vstd::prelude::*;
use vstd::string::*;
use crate::text::same_text;
use crate::domain::{copy_text, Asset, AssetError, AssetVersionResponse, ImageVersions};

verus! {

/// The outcome of fetching one asset by id: found, not found, or the
/// text of a failure of the record store (reported as internal).
pub open spec fn lookup_outcome(found: Result<Option<Asset>, String>) -> Result<Asset, AssetError> {
    match found {
        Ok(Some(a)) => Ok(a),
        Ok(None) => Err(AssetError::AssetNotFound),
        Err(_) => Err(AssetError::Internal),
    }
}

/// What a lookup by id answers.
pub fn found_asset(found: Result<Option<Asset>, String>) -> (r: Result<Asset, AssetError>)
    ensures
        r == lookup_outcome(found),
{
    match found {
        Ok(Some(a)) => Ok(a),
        Ok(None) => Err(AssetError::AssetNotFound),
        Err(_) => Err(AssetError::Internal),
    }
}

/// What a batch fetch answers: the assets, or a database error with the
/// text of the failure.
pub fn fetched_batch(fetched: Result<Vec<Asset>, String>) -> (r: Result<Vec<Asset>, AssetError>)
    ensures
        match fetched {
            Ok(v) => r == Ok::<Vec<Asset>, AssetError>(v),
            Err(m) => r == Err::<Vec<Asset>, AssetError>(AssetError::DatabaseError(m)),
        },
{
    match fetched {
        Ok(v) => Ok(v),
        Err(m) => Err(AssetError::DatabaseError(m)),
    }
}

/// What a listing answers: the assets, or an internal error.
pub fn listed_assets(listed: Result<Vec<Asset>, String>) -> (r: Result<Vec<Asset>, AssetError>)
    ensures
        match listed {
            Ok(v) => r == Ok::<Vec<Asset>, AssetError>(v),
            Err(_) => r == Err::<Vec<Asset>, AssetError>(AssetError::Internal),
        },
{
    match listed {
        Ok(v) => Ok(v),
        Err(_) => Err(AssetError::Internal),
    }
}

/// The record-store filter of a listing: the tenant, and the type when
/// one is asked for.
pub fn tenant_filter(tenant_id: &str, asset_type: Option<&str>) -> (f: Vec<(String, String)>)
    ensures
        f@.len() == if asset_type is Some {
            2int
        } else {
            1int
        },
        f@[0].0@ == "tenant_id"@,
        f@[0].1@ == tenant_id@,
        asset_type matches Some(t) ==> f@[1].0@ == "type"@ && f@[1].1@ == t@,
{
    let mut f: Vec<(String, String)> = Vec::new();
    f.push((String::from_str("tenant_id"), String::from_str(tenant_id)));
    match asset_type {
        Some(t) => {
            f.push((String::from_str("type"), String::from_str(t)));
        },
        None => {},
    }
    f
}

/// No later asset of `s` than position `i` has the same id.
pub open spec fn is_last(s: Seq<Asset>, i: int) -> bool {
    forall|j: int| i < j < s.len() ==> #[trigger] s[j].id@ != s[i].id@
}

/// The positions below `n` that hold the last asset of each id, in order.
pub open spec fn last_positions(s: Seq<Asset>, n: nat) -> Seq<int>
    decreases n,
{
    if n == 0 {
        Seq::empty()
    } else {
        let p = last_positions(s, (n - 1) as nat);
        if is_last(s, n - 1) {
            p.push(n - 1)
        } else {
            p
        }
    }
}

/// The assets of `s` that are the last of their id, in order.
pub open spec fn keep_last(s: Seq<Asset>) -> Seq<Asset> {
    last_positions(s, s.len()).map_values(|i: int| s[i])
}

/// The assets of a batch indexed by id: of several assets with one id,
/// the last stands.
pub fn index_by_id(assets: &Vec<Asset>) -> (r: Vec<Asset>)
    ensures
        r@ == keep_last(assets@),
{
    let n = assets.len();
    let mut r: Vec<Asset> = Vec::new();
    let mut i: usize = 0;
    while i < n
        invariant
            n == assets@.len(),
            i <= n,
            r@ == last_positions(assets@, i as nat).map_values(|k: int| assets@[k]),
        decreases n - i,
    {
        let mut j: usize = i + 1;
        let mut last = true;
        while j < n
            invariant
                n == assets@.len(),
                i < j <= n,
                last == forall|k: int| i < k < j ==> #[trigger] assets@[k].id@ != assets@[i as int].id@,
            decreases n - j,
        {
            if same_text(assets[j].id.as_str(), assets[i].id.as_str()) {
                last = false;
            }
            j = j + 1;
        }
        let ghost before = r@;
        if last {
            r.push(assets[i].duplicate());
        }
        proof {
            let p = last_positions(assets@, i as nat);
            assert(last == is_last(assets@, i as int));
            if last {
                assert(r@ =~= p.push(i as int).map_values(|k: int| assets@[k]));
            } else {
                assert(r@ =~= p.map_values(|k: int| assets@[k]));
            }
        }
        i = i + 1;
    }
    r
}

/// Which step of a deletion is under way.
#[derive(Clone, Copy, Debug, PartialEq, Eq, Structural)]
pub enum DeletionPhase {
    Looking,
    RemovingObject,
    RemovingRecord,
    Finished,
}

/// What the caller is asked to do next in a deletion.
#[derive(Debug)]
pub enum DeletionAction {
    /// Fetch the record with this id.
    Fetch(String),
    /// Remove the stored object with this key.
    RemoveObject(String),
    /// Remove the record with this id.
    RemoveRecord(String),
    /// The deletion is over, with this result.
    Finish(Result<(), AssetError>),
}

/// A deletion in progress.
pub struct Deletion {
    pub id: String,
    pub phase: DeletionPhase,
}

impl Deletion {
    /// Starts deleting the asset `id`: its record is fetched first.
    pub fn begin(id: String) -> (r: (Deletion, DeletionAction))
        ensures
            r.0.id == id,
            r.0.phase == DeletionPhase::Looking,
            r.1 == DeletionAction::Fetch(id),
    {
        (Deletion { id: copy_text(&id), phase: DeletionPhase::Looking }, DeletionAction::Fetch(id))
    }

    /// What taking the fetched record does: `self` is the state before,
    /// `after` the state after it, and `a` the action asked for.
    pub open spec fn fetched_step(
        self,
        found: Result<Option<Asset>, String>,
        after: Deletion,
        a: DeletionAction,
    ) -> bool {
        &&& after.id == self.id
        &&& match lookup_outcome(found) {
            Err(e) => after.phase == DeletionPhase::Finished && a == DeletionAction::Finish(Err(e)),
            Ok(asset) => after.phase == DeletionPhase::RemovingObject && a
                == DeletionAction::RemoveObject(asset.path),
        }
    }

    /// Takes the fetched record: a missing record or a failed lookup ends
    /// the deletion; otherwise the stored object goes first.
    pub fn on_fetched(&mut self, found: Result<Option<Asset>, String>) -> (a: DeletionAction)
        requires
            old(self).phase == DeletionPhase::Looking,
        ensures
            final(self).id == old(self).id,
            old(self).fetched_step(found, *final(self), a),
    {
        match found_asset(found) {
            Err(e) => {
                self.phase = DeletionPhase::Finished;
                DeletionAction::Finish(Err(e))
            },
            Ok(asset) => {
                self.phase = DeletionPhase::RemovingObject;
                DeletionAction::RemoveObject(asset.path)
            },
        }
    }

    /// Takes the outcome of removing the stored object: a failure ends
    /// the deletion with a storage error and keeps the record; otherwise
    /// the record is removed.
    pub fn on_object_removed(&mut self, outcome: Result<(), String>) -> (a: DeletionAction)
        requires
            old(self).phase == DeletionPhase::RemovingObject,
        ensures
            final(self).id == old(self).id,
            match outcome {
                Err(m) => final(self).phase == DeletionPhase::Finished && a
                    == DeletionAction::Finish(Err(AssetError::StorageError(m))),
                Ok(_) => final(self).phase == DeletionPhase::RemovingRecord && a
                    == DeletionAction::RemoveRecord(old(self).id),
            },
    {
        match outcome {
            Err(m) => {
                self.phase = DeletionPhase::Finished;
                DeletionAction::Finish(Err(AssetError::StorageError(m)))
            },
            Ok(_) => {
                self.phase = DeletionPhase::RemovingRecord;
                DeletionAction::RemoveRecord(copy_text(&self.id))
            },
        }
    }

    /// Takes the outcome of removing the record: the deletion succeeds
    /// with it, and a failure is reported as internal.
    pub fn on_record_removed(&mut self, outcome: Result<(), String>) -> (a: DeletionAction)
        requires
            old(self).phase == DeletionPhase::RemovingRecord,
        ensures
            final(self).id == old(self).id,
            final(self).phase == DeletionPhase::Finished,
            match outcome {
                Err(_) => a == DeletionAction::Finish(Err(AssetError::Internal)),
                Ok(_) => a == DeletionAction::Finish(Ok(())),
            },
    {
        self.phase = DeletionPhase::Finished;
        match outcome {
            Err(_) => DeletionAction::Finish(Err(AssetError::Internal)),
            Ok(_) => DeletionAction::Finish(Ok(())),
        }
    }
}

/// The versions of an asset as the versions endpoint reports them: the
/// recorded ones, or, where none were recorded, the asset's URL as the
/// original.
pub open spec fn reported_versions(asset: Asset) -> ImageVersions {
    match asset.versions {
        Some(v) => v,
        None => ImageVersions { original: asset.url, v1200: None, v800: None, v400: None },
    }
}

impl AssetVersionResponse {
    /// The versions view of an asset, with its URL as the fallback.
    pub fn from_asset(asset: Asset) -> (r: AssetVersionResponse)
        ensures
            r.id == asset.id,
            r.filename == asset.filename,
            r.mime_type == asset.mime_type,
            r.asset_type == asset.asset_type,
            r.visibility == asset.visibility,
            r.fallback_url == asset.url,
            r.versions == reported_versions(asset),
    {
        let versions = match asset.versions {
            Some(v) => v,
            None => ImageVersions::original_only(copy_text(&asset.url)),
        };
        AssetVersionResponse {
            id: asset.id,
            filename: asset.filename,
            mime_type: asset.mime_type,
            asset_type: asset.asset_type,
            visibility: asset.visibility,
            fallback_url: asset.url,
            versions,
        }
    }
}

/// The positions kept below `n` are increasing, lie below `n`, hold the
/// last asset of their id, and include every such position.
proof fn lemma_last_positions(s: Seq<Asset>, n: nat)
    requires
        n <= s.len(),
    ensures
        forall|k: int| 0 <= k < last_positions(s, n).len() ==> 0 <= #[trigger] last_positions(s, n)[k] < n
            && is_last(s, last_positions(s, n)[k]),
        forall|k: int, l: int|
            0 <= k < l < last_positions(s, n).len() ==> #[trigger] last_positions(s, n)[k]
                < #[trigger] last_positions(s, n)[l],
        forall|i: int|
            0 <= i < n && is_last(s, i) ==> exists|k: int|
                0 <= k < last_positions(s, n).len() && #[trigger] last_positions(s, n)[k] == i,
    decreases n,
{
    if n > 0 {
        lemma_last_positions(s, (n - 1) as nat);
        let p = last_positions(s, (n - 1) as nat);
        if is_last(s, n - 1) {
            assert(last_positions(s, n) == p.push(n - 1));
            assert forall|i: int| 0 <= i < n && is_last(s, i) implies exists|k: int|
                0 <= k < last_positions(s, n).len() && #[trigger] last_positions(s, n)[k] == i by {
                if i == n - 1 {
                    assert(last_positions(s, n)[p.len() as int] == i);
                } else {
                    let k = choose|k: int| 0 <= k < p.len() && #[trigger] p[k] == i;
                    assert(last_positions(s, n)[k] == i);
                }
            }
        } else {
            assert(last_positions(s, n) == p);
            assert forall|i: int| 0 <= i < n && is_last(s, i) implies exists|k: int|
                0 <= k < last_positions(s, n).len() && #[trigger] last_positions(s, n)[k] == i by {
                let k = choose|k: int| 0 <= k < p.len() && #[trigger] p[k] == i;
                assert(last_positions(s, n)[k] == i);
            }
        }
    }
}

/// Some asset at or after position `i` has the id of the asset at `i` and
/// is the last asset with that id.
proof fn lemma_exists_last(s: Seq<Asset>, i: int)
    requires
        0 <= i < s.len(),
    ensures
        exists|j: int| i <= j < s.len() && #[trigger] s[j].id@ == s[i].id@ && is_last(s, j),
    decreases s.len() - i,
{
    if !is_last(s, i) {
        let j = choose|j: int| i < j < s.len() && #[trigger] s[j].id@ == s[i].id@;
        lemma_exists_last(s, j);
        let k = choose|k: int| j <= k < s.len() && #[trigger] s[k].id@ == s[j].id@ && is_last(s, k);
        assert(s[k].id@ == s[i].id@);
    } else {
        assert(s[i].id@ == s[i].id@);
    }
}

/// Indexing a batch by id keeps one asset per id: no id has two entries,
/// every id of the batch has one, and the entry of an id is the last
/// asset of the batch with that id.
pub proof fn law_index_by_id(s: Seq<Asset>)
    ensures
        forall|k: int, l: int|
            0 <= k < l < keep_last(s).len() ==> #[trigger] keep_last(s)[k].id@ != #[trigger] keep_last(
                s,
            )[l].id@,
        forall|i: int|
            #![trigger s[i]]
            0 <= i < s.len() ==> exists|k: int|
                #![trigger keep_last(s)[k]]
                0 <= k < keep_last(s).len() && keep_last(s)[k].id@ == s[i].id@,
        forall|k: int|
            0 <= k < keep_last(s).len() ==> exists|i: int|
                0 <= i < s.len() && is_last(s, i) && #[trigger] keep_last(s)[k] == s[i],
{
    let p = last_positions(s, s.len());
    lemma_last_positions(s, s.len());
    assert(keep_last(s).len() == p.len());
    assert forall|k: int, l: int| 0 <= k < l < keep_last(s).len() implies #[trigger] keep_last(
        s,
    )[k].id@ != #[trigger] keep_last(s)[l].id@ by {
        assert(p[k] < p[l]);
        assert(is_last(s, p[k]));
        assert(keep_last(s)[k] == s[p[k]]);
        assert(keep_last(s)[l] == s[p[l]]);
    }
    assert forall|i: int| #![trigger s[i]] 0 <= i < s.len() implies exists|k: int|
        #![trigger keep_last(s)[k]]
        0 <= k < keep_last(s).len() && keep_last(s)[k].id@ == s[i].id@ by {
        lemma_exists_last(s, i);
        let j = choose|j: int| i <= j < s.len() && #[trigger] s[j].id@ == s[i].id@ && is_last(s, j);
        let k = choose|k: int| 0 <= k < p.len() && #[trigger] p[k] == j;
        assert(keep_last(s)[k] == s[j]);
    }
    assert forall|k: int| 0 <= k < keep_last(s).len() implies exists|i: int|
        0 <= i < s.len() && is_last(s, i) && #[trigger] keep_last(s)[k] == s[i] by {
        assert(keep_last(s)[k] == s[p[k]]);
    }
}

/// A lookup that finds a record answers with that very record, whatever
/// its type; one that finds nothing answers that the asset is not found;
/// a failing record store is an internal error.
pub proof fn law_lookup(found: Result<Option<Asset>, String>)
    ensures
        found matches Ok(Some(a)) ==> lookup_outcome(found) == Ok::<Asset, AssetError>(a),
        found == Ok::<Option<Asset>, String>(None) ==> lookup_outcome(found) == Err::<
            Asset,
            AssetError,
        >(AssetError::AssetNotFound),
        found is Err ==> lookup_outcome(found) == Err::<Asset, AssetError>(AssetError::Internal),
{
}

/// The versions view of an asset reports its recorded versions as they
/// are; an asset without recorded versions, of whatever type, is reported
/// with its URL as the original and no renditions.
pub proof fn law_versions_view(asset: Asset)
    ensures
        asset.versions matches Some(v) ==> reported_versions(asset) == v,
        asset.versions is None ==> {
            &&& reported_versions(asset).original == asset.url
            &&& reported_versions(asset).v1200 is None
            &&& reported_versions(asset).v800 is None
            &&& reported_versions(asset).v400 is None
        },
{
}

/// Deleting an asset whose record is found asks to remove that record's
/// stored object, whatever the asset's type.
pub proof fn law_deletion_removes_found_object(
    before: Deletion,
    found: Result<Option<Asset>, String>,
    after: Deletion,
    a: DeletionAction,
    asset: Asset,
)
    requires
        before.phase == DeletionPhase::Looking,
        before.fetched_step(found, after, a),
        found == Ok::<Option<Asset>, String>(Some(asset)),
    ensures
        a == DeletionAction::RemoveObject(asset.path),
        after.phase == DeletionPhase::RemovingObject,
{
    law_lookup(found);
}

} // verus!
