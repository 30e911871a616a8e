//! Where objects are stored and how they are addressed: object keys of
//! originals and renditions, and public URLs.

use vstd::prelude::*;
use vstd::string::*;

verus! {

/// The resized renditions of an uploaded image, in the order in which
/// they are produced.
#[derive(Clone, Copy, Debug, PartialEq, Eq, Structural)]
pub enum Rendition {
    W1200,
    W800,
    W400,
}

impl Rendition {
    /// The longest side, in pixels, of the box the rendition fits in.
    pub open spec fn edge(self) -> u32 {
        match self {
            Rendition::W1200 => 1200,
            Rendition::W800 => 800,
            Rendition::W400 => 400,
        }
    }

    /// The label that starts the rendition's file name.
    pub open spec fn label(self) -> Seq<char> {
        match self {
            Rendition::W1200 => "1200_"@,
            Rendition::W800 => "800_"@,
            Rendition::W400 => "400_"@,
        }
    }

    /// The rendition produced after this one, if any.
    pub open spec fn after(self) -> Option<Rendition> {
        match self {
            Rendition::W1200 => Some(Rendition::W800),
            Rendition::W800 => Some(Rendition::W400),
            Rendition::W400 => None,
        }
    }

    /// How many renditions are left from this one on.
    pub open spec fn rank(self) -> nat {
        match self {
            Rendition::W1200 => 3,
            Rendition::W800 => 2,
            Rendition::W400 => 1,
        }
    }

    /// The longest side, in pixels.
    pub fn edge_px(&self) -> (px: u32)
        ensures
            px == self.edge(),
    {
        match self {
            Rendition::W1200 => 1200,
            Rendition::W800 => 800,
            Rendition::W400 => 400,
        }
    }

    /// The label that starts the rendition's file name.
    pub fn key_label(&self) -> (s: &'static str)
        ensures
            s@ == self.label(),
    {
        match self {
            Rendition::W1200 => "1200_",
            Rendition::W800 => "800_",
            Rendition::W400 => "400_",
        }
    }

    /// The rendition produced after this one, if any.
    pub fn next(&self) -> (r: Option<Rendition>)
        ensures
            r == self.after(),
    {
        match self {
            Rendition::W1200 => Some(Rendition::W800),
            Rendition::W800 => Some(Rendition::W400),
            Rendition::W400 => None,
        }
    }
}

/// How many renditions are left from an optional rendition on.
pub open spec fn rank_from(r: Option<Rendition>) -> nat {
    match r {
        Some(x) => x.rank(),
        None => 0,
    }
}

/// The key of an uploaded file: `{tenant}/{asset id}/{file name}`.
pub open spec fn path_for(tenant: Seq<char>, id: Seq<char>, filename: Seq<char>) -> Seq<char> {
    tenant + "/"@ + id + "/"@ + filename
}

/// The key of a rendition: `{tenant}/{asset id}/{edge}_{file name}.avif`.
pub open spec fn rendition_key_for(
    tenant: Seq<char>,
    id: Seq<char>,
    r: Rendition,
    filename: Seq<char>,
) -> Seq<char> {
    tenant + "/"@ + id + "/"@ + r.label() + filename + ".avif"@
}

/// The public address of an object: `{base}/{key}`.
pub open spec fn url_for(base: Seq<char>, key: Seq<char>) -> Seq<char> {
    base + "/"@ + key
}

/// Builds `{tenant}/{asset id}/{file name}`.
pub fn object_path(tenant: &str, id: &str, filename: &str) -> (p: String)
    ensures
        p@ == path_for(tenant@, id@, filename@),
{
    let mut p = String::from_str(tenant);
    p.append("/");
    p.append(id);
    p.append("/");
    p.append(filename);
    p
}

/// Builds `{tenant}/{asset id}/{edge}_{file name}.avif`.
pub fn rendition_key(tenant: &str, id: &str, r: Rendition, filename: &str) -> (k: String)
    ensures
        k@ == rendition_key_for(tenant@, id@, r, filename@),
{
    let mut k = String::from_str(tenant);
    k.append("/");
    k.append(id);
    k.append("/");
    k.append(r.key_label());
    k.append(filename);
    k.append(".avif");
    k
}

/// Builds `{base}/{key}`.
pub fn public_url(base: &str, key: &str) -> (u: String)
    ensures
        u@ == url_for(base@, key@),
{
    let mut u = String::from_str(base);
    u.append("/");
    u.append(key);
    u
}

/// The folder of an asset: `{tenant}/{asset id}/`.
pub open spec fn asset_folder(tenant: Seq<char>, id: Seq<char>) -> Seq<char> {
    tenant + "/"@ + id + "/"@
}

/// Every object of an upload lies in its asset's folder, and no two of
/// its objects share a key: the original and the three renditions are
/// stored under four different keys.
pub proof fn law_upload_keys_distinct(
    tenant: Seq<char>,
    id: Seq<char>,
    filename: Seq<char>,
    r: Rendition,
    q: Rendition,
)
    ensures
        path_for(tenant, id, filename) == asset_folder(tenant, id) + filename,
        rendition_key_for(tenant, id, r, filename) == asset_folder(tenant, id) + r.label()
            + filename + ".avif"@,
        rendition_key_for(tenant, id, r, filename) != path_for(tenant, id, filename),
        r != q ==> rendition_key_for(tenant, id, r, filename) != rendition_key_for(
            tenant,
            id,
            q,
            filename,
        ),
{
    reveal_strlit("/");
    reveal_strlit(".avif");
    reveal_strlit("1200_");
    reveal_strlit("800_");
    reveal_strlit("400_");
    let folder = asset_folder(tenant, id);
    assert(path_for(tenant, id, filename) =~= folder + filename);
    assert(rendition_key_for(tenant, id, r, filename) =~= folder + r.label() + filename
        + ".avif"@);
    assert(rendition_key_for(tenant, id, q, filename) =~= folder + q.label() + filename
        + ".avif"@);
    assert(rendition_key_for(tenant, id, r, filename).len() > path_for(tenant, id, filename).len());
    if r != q && r.label().len() == q.label().len() {
        let k = folder.len() as int;
        assert(rendition_key_for(tenant, id, r, filename)[k] == r.label()[0]);
        assert(rendition_key_for(tenant, id, q, filename)[k] == q.label()[0]);
    }
}

/// Within one tenant, objects of two assets whose identifiers differ but
/// have the same length (as generated identifiers do) never share a key.
pub proof fn law_assets_never_share_keys(
    tenant: Seq<char>,
    id1: Seq<char>,
    id2: Seq<char>,
    name1: Seq<char>,
    name2: Seq<char>,
    suffix1: Seq<char>,
    suffix2: Seq<char>,
)
    requires
        id1.len() == id2.len(),
        id1 != id2,
    ensures
        asset_folder(tenant, id1) + suffix1 != asset_folder(tenant, id2) + suffix2,
        path_for(tenant, id1, name1) != path_for(tenant, id2, name2),
        forall|r: Rendition, q: Rendition|
            #![trigger rendition_key_for(tenant, id1, r, name1), rendition_key_for(tenant, id2, q, name2)]
            rendition_key_for(tenant, id1, r, name1) != rendition_key_for(tenant, id2, q, name2),
        forall|r: Rendition| #[trigger]
            rendition_key_for(tenant, id1, r, name1) != path_for(tenant, id2, name2),
        forall|r: Rendition| #[trigger]
            rendition_key_for(tenant, id2, r, name2) != path_for(tenant, id1, name1),
{
    reveal_strlit("/");
    let start: int = tenant.len() as int + 1;
    assert forall|s1: Seq<char>, s2: Seq<char>|
        #![trigger asset_folder(tenant, id1) + s1, asset_folder(tenant, id2) + s2]
        asset_folder(tenant, id1) + s1 != asset_folder(tenant, id2) + s2 by {
        let k1 = asset_folder(tenant, id1) + s1;
        let k2 = asset_folder(tenant, id2) + s2;
        if k1 == k2 {
            assert(k1.subrange(start, start + id1.len() as int) =~= id1);
            assert(k2.subrange(start, start + id2.len() as int) =~= id2);
        }
    }
    assert(asset_folder(tenant, id1) + suffix1 != asset_folder(tenant, id2) + suffix2);
    assert(path_for(tenant, id1, name1) =~= asset_folder(tenant, id1) + name1);
    assert(path_for(tenant, id2, name2) =~= asset_folder(tenant, id2) + name2);
    assert forall|r: Rendition, q: Rendition|
        #![trigger rendition_key_for(tenant, id1, r, name1), rendition_key_for(tenant, id2, q, name2)]
        rendition_key_for(tenant, id1, r, name1) != rendition_key_for(tenant, id2, q, name2) by {
        assert(rendition_key_for(tenant, id1, r, name1) =~= asset_folder(tenant, id1) + (r.label()
            + name1 + ".avif"@));
        assert(rendition_key_for(tenant, id2, q, name2) =~= asset_folder(tenant, id2) + (q.label()
            + name2 + ".avif"@));
    }
    assert forall|r: Rendition|
        #[trigger] rendition_key_for(tenant, id1, r, name1) != path_for(tenant, id2, name2) by {
        assert(rendition_key_for(tenant, id1, r, name1) =~= asset_folder(tenant, id1) + (r.label()
            + name1 + ".avif"@));
    }
    assert forall|r: Rendition|
        #[trigger] rendition_key_for(tenant, id2, r, name2) != path_for(tenant, id1, name1) by {
        assert(rendition_key_for(tenant, id2, r, name2) =~= asset_folder(tenant, id2) + (r.label()
            + name2 + ".avif"@));
    }
}

} // verus!
