//! Release and asset records, and their decoding from a release listing.
use vstd::prelude::*;
use crate::json::{Json, member, find_member};

verus! {

/// One downloadable file of a release.
pub struct Asset {
    pub name: String,
    /// Size in bytes.
    pub size: u64,
    pub download_count: u64,
}

pub struct AssetView {
    pub name: Seq<char>,
    pub size: nat,
    pub download_count: nat,
}

impl View for Asset {
    type V = AssetView;

    open spec fn view(&self) -> AssetView {
        AssetView { name: self.name@, size: self.size as nat, download_count: self.download_count as nat }
    }
}

/// One published release, with its assets in the order the listing gave them.
pub struct Release {
    pub name: Option<String>,
    pub tag_name: Option<String>,
    /// Creation time, as the listing wrote it.
    pub created_at: Option<String>,
    pub assets: Vec<Asset>,
}

pub struct ReleaseView {
    pub name: Option<Seq<char>>,
    pub tag_name: Option<Seq<char>>,
    pub created_at: Option<Seq<char>>,
    pub assets: Seq<AssetView>,
}

pub open spec fn text_view(o: Option<String>) -> Option<Seq<char>> {
    match o {
        Some(s) => Some(s@),
        None => None,
    }
}

impl View for Release {
    type V = ReleaseView;

    open spec fn view(&self) -> ReleaseView {
        ReleaseView {
            name: text_view(self.name),
            tag_name: text_view(self.tag_name),
            created_at: text_view(self.created_at),
            assets: self.assets@.map_values(|a: Asset| a@),
        }
    }
}

pub open spec fn releases_view(rs: Seq<Release>) -> Seq<ReleaseView> {
    rs.map_values(|r: Release| r@)
}

impl Asset {
    pub fn new(name: String, size: u64, download_count: u64) -> (r: Asset)
        ensures
            r@ == (AssetView { name: name@, size: size as nat, download_count: download_count as nat }),
    {
        Asset { name, size, download_count }
    }
}

impl Release {
    pub fn new(
        name: Option<String>,
        tag_name: Option<String>,
        created_at: Option<String>,
        assets: Vec<Asset>,
    ) -> (r: Release)
        ensures
            r@.name == text_view(name),
            r@.tag_name == text_view(tag_name),
            r@.created_at == text_view(created_at),
            r@.assets == assets@.map_values(|a: Asset| a@),
    {
        Release { name, tag_name, created_at, assets }
    }
}

/// Why a listing could not be decoded.
#[derive(PartialEq, Eq, Structural, Debug, Clone, Copy)]
pub enum DecodeError {
    /// The document is not an array.
    NotAList,
    /// The element at `index` is not a release: the first such element.
    BadRelease { index: usize },
}

/// An optional text member: absent or null is no text; any value other than a
/// string makes the record malformed (the outer `None`).
pub open spec fn optional_text(v: Option<Json>) -> Option<Option<Seq<char>>> {
    match v {
        None => Some(None),
        Some(Json::Null) => Some(None),
        Some(Json::Str(s)) => Some(Some(s@)),
        Some(_) => None,
    }
}

/// The asset that a JSON value describes: an object whose `name` is a string
/// and whose `size` and `download_count` are non-negative integers. Other
/// members are ignored.
pub open spec fn asset_of(j: Json) -> Option<AssetView> {
    match j {
        Json::Object(ms) => match (
            member(ms@, "name"@),
            member(ms@, "size"@),
            member(ms@, "download_count"@),
        ) {
            (Some(Json::Str(n)), Some(Json::UInt(s)), Some(Json::UInt(d))) => Some(
                AssetView { name: n@, size: s as nat, download_count: d as nat },
            ),
            _ => None,
        },
        _ => None,
    }
}

/// The assets that a sequence of JSON values describes, if each describes one.
pub open spec fn assets_of(items: Seq<Json>) -> Option<Seq<AssetView>> {
    if forall|i: int| 0 <= i < items.len() ==> (#[trigger] asset_of(items[i])) is Some {
        Some(Seq::new(items.len(), |i: int| asset_of(items[i])->0))
    } else {
        None
    }
}

/// The release that a JSON value describes: an object whose `name`,
/// `tag_name` and `created_at` are strings, null or absent, and whose `assets`
/// is an array of assets. Other members are ignored.
pub open spec fn release_of(j: Json) -> Option<ReleaseView> {
    match j {
        Json::Object(ms) => match (
            optional_text(member(ms@, "name"@)),
            optional_text(member(ms@, "tag_name"@)),
            optional_text(member(ms@, "created_at"@)),
            member(ms@, "assets"@),
        ) {
            (Some(n), Some(t), Some(c), Some(Json::Array(items))) => match assets_of(items@) {
                Some(assets) => Some(
                    ReleaseView { name: n, tag_name: t, created_at: c, assets },
                ),
                None => None,
            },
            _ => None,
        },
        _ => None,
    }
}

/// The releases that a listing describes: an array of release objects, in order.
pub open spec fn releases_of(j: Json) -> Option<Seq<ReleaseView>> {
    match j {
        Json::Array(items) => if forall|i: int|
            0 <= i < items@.len() ==> (#[trigger] release_of(items@[i])) is Some {
            Some(Seq::new(items@.len(), |i: int| release_of(items@[i])->0))
        } else {
            None
        },
        _ => None,
    }
}

fn optional_text_member(ms: &Vec<(String, Json)>, key: &str) -> (r: Option<Option<String>>)
    ensures
        match r {
            Some(t) => optional_text(member(ms@, key@)) == Some(text_view(t)),
            None => optional_text(member(ms@, key@)) is None,
        },
{
    match find_member(ms, key) {
        None => Some(None),
        Some(Json::Null) => Some(None),
        Some(Json::Str(s)) => Some(Some(s.clone())),
        Some(_) => None,
    }
}

/// Decodes one asset object.
pub fn decode_asset(j: &Json) -> (r: Option<Asset>)
    ensures
        match r {
            Some(a) => asset_of(*j) == Some(a@),
            None => asset_of(*j) is None,
        },
{
    match j {
        Json::Object(ms) => {
            let n = find_member(ms, "name");
            let s = find_member(ms, "size");
            let d = find_member(ms, "download_count");
            match (n, s, d) {
                (Some(Json::Str(n)), Some(Json::UInt(s)), Some(Json::UInt(d))) => Some(
                    Asset { name: n.clone(), size: *s, download_count: *d },
                ),
                _ => None,
            }
        },
        _ => None,
    }
}

/// Decodes an array of asset objects, keeping their order.
pub fn decode_assets(items: &Vec<Json>) -> (r: Option<Vec<Asset>>)
    ensures
        match r {
            Some(v) => assets_of(items@) == Some(v@.map_values(|a: Asset| a@)),
            None => assets_of(items@) is None,
        },
{
    let mut out: Vec<Asset> = Vec::new();
    let mut i: usize = 0;
    while i < items.len()
        invariant
            i <= items.len(),
            out@.len() == i,
            forall|k: int|
                #![trigger asset_of(items@[k])]
                #![trigger out@[k]]
                0 <= k < i ==> asset_of(items@[k]) == Some(out@[k]@),
        decreases items.len() - i,
    {
        match decode_asset(&items[i]) {
            Some(a) => out.push(a),
            None => {
                assert(!(asset_of(items@[i as int]) is Some));
                return None;
            },
        }
        i = i + 1;
    }
    assert(assets_of(items@) == Some(out@.map_values(|a: Asset| a@))) by {
        assert(forall|k: int| 0 <= k < items@.len() ==> (#[trigger] asset_of(items@[k])) is Some);
        assert(Seq::new(items@.len(), |k: int| asset_of(items@[k])->0) =~= out@.map_values(
            |a: Asset| a@,
        ));
    }
    Some(out)
}

/// Decodes one release object.
pub fn decode_release(j: &Json) -> (r: Option<Release>)
    ensures
        match r {
            Some(rel) => release_of(*j) == Some(rel@),
            None => release_of(*j) is None,
        },
{
    match j {
        Json::Object(ms) => {
            let n = optional_text_member(ms, "name");
            let t = optional_text_member(ms, "tag_name");
            let c = optional_text_member(ms, "created_at");
            let a = find_member(ms, "assets");
            match (n, t, c, a) {
                (Some(n), Some(t), Some(c), Some(Json::Array(items))) => match decode_assets(items) {
                    Some(assets) => Some(Release { name: n, tag_name: t, created_at: c, assets }),
                    None => None,
                },
                _ => None,
            }
        },
        _ => None,
    }
}

/// Decodes a release listing: an array of release objects, in order.
pub fn decode_releases(j: &Json) -> (r: Result<Vec<Release>, DecodeError>)
    ensures
        match r {
            Ok(v) => releases_of(*j) == Some(releases_view(v@)),
            Err(DecodeError::NotAList) => !(j is Array),
            Err(DecodeError::BadRelease { index }) => *j matches Json::Array(items) && index
                < items@.len() && release_of(items@[index as int]) is None && forall|k: int|
                0 <= k < index ==> (#[trigger] release_of(items@[k])) is Some,
        },
        r is Ok <==> releases_of(*j) is Some,
        !(*j is Array) ==> r == Err::<Vec<Release>, DecodeError>(DecodeError::NotAList),
{
    match j {
        Json::Array(items) => {
            let mut out: Vec<Release> = Vec::new();
            let mut i: usize = 0;
            while i < items.len()
                invariant
                    *j == Json::Array(*items),
                    i <= items.len(),
                    out@.len() == i,
                    forall|k: int|
                        #![trigger release_of(items@[k])]
                        #![trigger out@[k]]
                        0 <= k < i ==> release_of(items@[k]) == Some(out@[k]@),
                decreases items.len() - i,
            {
                match decode_release(&items[i]) {
                    Some(rel) => out.push(rel),
                    None => {
                        assert(release_of(items@[i as int]) is None);
                        return Err(DecodeError::BadRelease { index: i });
                    },
                }
                i = i + 1;
            }
            assert(releases_of(*j) == Some(releases_view(out@))) by {
                assert(forall|k: int|
                    0 <= k < items@.len() ==> (#[trigger] release_of(items@[k])) is Some);
                assert(Seq::new(items@.len(), |k: int| release_of(items@[k])->0) =~= releases_view(out@));
            }
            Ok(out)
        },
        _ => Err(DecodeError::NotAList),
    }
}

} // verus!
