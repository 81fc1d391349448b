//! The text shown for assets, releases and release listings.
use vstd::prelude::*;
use crate::json::Json;
use crate::numfmt::{two_decimals, two_decimals_text};
use crate::release::{
    Asset, AssetView, DecodeError, Release, ReleaseView, decode_releases, releases_of,
    releases_view,
};

verus! {

/// Bytes in one hundredth of a megabyte.
pub const BYTES_PER_HUNDREDTH_MB: u64 = 10_000;

/// Downloads in one hundredth of a thousand.
pub const DOWNLOADS_PER_HUNDREDTH_K: u64 = 10;

/// An asset: its name, then its size in megabytes and its download count in
/// thousands, each with two decimals.
pub open spec fn asset_text(a: AssetView) -> Seq<char> {
    a.name + "\n"@ + "  \u{1F4E6}  "@ + two_decimals(a.size, 10_000) + "MB\n"@
        + "  \u{2198}\u{FE0F}  "@ + two_decimals(a.download_count, 10) + "k\n"@
}

/// The text, or the placeholder where there is none.
pub open spec fn or_placeholder(t: Option<Seq<char>>, placeholder: Seq<char>) -> Seq<char> {
    match t {
        Some(s) => s,
        None => placeholder,
    }
}

/// The creation line, present only where the creation time is known.
pub open spec fn created_line(c: Option<Seq<char>>) -> Seq<char> {
    match c {
        Some(s) => "Created "@ + s + "\n"@,
        None => Seq::empty(),
    }
}

/// One bulleted entry per asset, in order.
pub open spec fn asset_lines(s: Seq<AssetView>) -> Seq<char>
    decreases s.len(),
{
    if s.len() == 0 {
        Seq::empty()
    } else {
        asset_lines(s.drop_last()) + "\u{2022} "@ + asset_text(s.last()) + "\n"@
    }
}

/// The assets section: nothing at all when there are no assets.
pub open spec fn assets_section(s: Seq<AssetView>) -> Seq<char> {
    if s.len() == 0 {
        Seq::empty()
    } else {
        "Assets\n"@ + asset_lines(s)
    }
}

/// The name and tag lines of a release, with their placeholders.
pub open spec fn heading_text(r: ReleaseView) -> Seq<char> {
    "Release "@ + or_placeholder(r.name, "<unnamed>"@) + "\n"@ + "Tag     "@ + or_placeholder(
        r.tag_name,
        "<untagged>"@,
    ) + "\n"@
}

/// A release: heading, creation line, assets section.
pub open spec fn release_text(r: ReleaseView) -> Seq<char> {
    heading_text(r) + created_line(r.created_at) + assets_section(r.assets)
}

/// One block per release, in order, each followed by an empty line.
pub open spec fn listing_text(rs: Seq<ReleaseView>) -> Seq<char>
    decreases rs.len(),
{
    if rs.len() == 0 {
        Seq::empty()
    } else {
        listing_text(rs.drop_last()) + release_text(rs.last()) + "\n"@
    }
}

/// The releases shown: only the first where only the latest is asked for.
pub open spec fn selected(rs: Seq<ReleaseView>, latest: bool) -> Seq<ReleaseView> {
    if latest && rs.len() > 0 {
        rs.take(1)
    } else {
        rs
    }
}

impl Asset {
    /// The text of this asset.
    pub fn render(&self) -> (r: String)
        ensures
            r@ == asset_text(self@),
    {
        let mut out = self.name.clone();
        out.append("\n");
        out.append("  \u{1F4E6}  ");
        let mb = two_decimals_text(self.size, BYTES_PER_HUNDREDTH_MB);
        out.append(mb.as_str());
        out.append("MB\n");
        out.append("  \u{2198}\u{FE0F}  ");
        let k = two_decimals_text(self.download_count, DOWNLOADS_PER_HUNDREDTH_K);
        out.append(k.as_str());
        out.append("k\n");
        out
    }
}

fn append_or(out: &mut String, t: &Option<String>, placeholder: &str)
    ensures
        final(out)@ == old(out)@ + or_placeholder(crate::release::text_view(*t), placeholder@),
{
    match t {
        Some(s) => out.append(s.as_str()),
        None => out.append(placeholder),
    }
}

impl Release {
    /// The text of this release.
    pub fn render(&self) -> (r: String)
        ensures
            r@ == release_text(self@),
    {
        let mut out = String::new();
        out.append("Release ");
        append_or(&mut out, &self.name, "<unnamed>");
        out.append("\n");
        out.append("Tag     ");
        append_or(&mut out, &self.tag_name, "<untagged>");
        out.append("\n");
        assert(out@ =~= heading_text(self@));
        match &self.created_at {
            Some(c) => {
                out.append("Created ");
                out.append(c.as_str());
                out.append("\n");
            },
            None => {},
        }
        let ghost head = out@;
        assert(head =~= heading_text(self@) + created_line(self@.created_at));
        let n = self.assets.len();
        if n > 0 {
            out.append("Assets\n");
            let ghost start = out@;
            let mut i: usize = 0;
            while i < n
                invariant
                    n == self.assets@.len(),
                    i <= n,
                    out@ == start + asset_lines(self@.assets.take(i as int)),
                decreases n - i,
            {
                let ghost before = out@;
                out.append("\u{2022} ");
                let a = self.assets[i].render();
                out.append(a.as_str());
                out.append("\n");
                assert(self@.assets.take(i + 1).drop_last() =~= self@.assets.take(i as int));
                assert(out@ =~= start + asset_lines(self@.assets.take(i + 1)));
                i = i + 1;
            }
            assert(self@.assets.take(n as int) =~= self@.assets);
            assert(out@ =~= head + assets_section(self@.assets));
        } else {
            assert(out@ =~= head + assets_section(self@.assets));
        }
        out
    }
}

/// The text of a listing: every release in order, or only the first when
/// `latest` is set.
pub fn render_listing(releases: &Vec<Release>, latest: bool) -> (r: String)
    ensures
        r@ == listing_text(selected(releases_view(releases@), latest)),
{
    let ghost all = releases_view(releases@);
    let n: usize = if latest && releases.len() > 0 {
        1
    } else {
        releases.len()
    };
    let ghost shown = selected(all, latest);
    assert(shown =~= all.take(n as int));
    let mut out = String::new();
    let mut i: usize = 0;
    while i < n
        invariant
            n <= releases@.len(),
            all == releases_view(releases@),
            i <= n,
            out@ == listing_text(all.take(i as int)),
        decreases n - i,
    {
        let block = releases[i].render();
        out.append(block.as_str());
        out.append("\n");
        assert(all.take(i + 1).drop_last() =~= all.take(i as int));
        assert(out@ =~= listing_text(all.take(i + 1)));
        i = i + 1;
    }
    out
}

/// Decodes a listing and renders it; nothing is rendered when the document
/// is not a listing of releases.
pub fn report(doc: &Json, latest: bool) -> (r: Result<String, DecodeError>)
    ensures
        match releases_of(*doc) {
            Some(rs) => r matches Ok(text) && text@ == listing_text(selected(rs, latest)),
            None => r is Err,
        },
        match r {
            Err(DecodeError::NotAList) => !(*doc is Array),
            Err(DecodeError::BadRelease { index }) => *doc matches Json::Array(items) && index
                < items@.len() && crate::release::release_of(items@[index as int]) is None
                && forall|k: int|
                0 <= k < index ==> (#[trigger] crate::release::release_of(items@[k])) is Some,
            Ok(_) => true,
        },
        !(*doc is Array) ==> r == Err::<String, DecodeError>(DecodeError::NotAList),
{
    match decode_releases(doc) {
        Ok(rs) => Ok(render_listing(&rs, latest)),
        Err(e) => Err(e),
    }
}

} // verus!
