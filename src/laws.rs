//! Properties that tie decoding and rendering together.
use vstd::prelude::*;
use crate::json::Json;
use crate::release::{ReleaseView, release_of, releases_of};
use crate::render::{
    assets_section, created_line, heading_text, listing_text, or_placeholder,
    release_text, selected,
};

verus! {

/// The listing of two runs of releases is the listing of the first followed by
/// the listing of the second.
pub proof fn lemma_listing_append(a: Seq<ReleaseView>, b: Seq<ReleaseView>)
    ensures
        listing_text(a + b) == listing_text(a) + listing_text(b),
    decreases b.len(),
{
    if b.len() == 0 {
        assert(a + b =~= a);
        assert(listing_text(b) =~= Seq::<char>::empty());
        assert(listing_text(a) + listing_text(b) =~= listing_text(a));
    } else {
        lemma_listing_append(a, b.drop_last());
        assert((a + b).drop_last() =~= a + b.drop_last());
        assert((a + b).last() == b.last());
        assert(listing_text(a + b) =~= listing_text(a) + listing_text(b));
    }
}

/// Decoding a listing gives one release per element of the array, in order,
/// and the full listing text holds one block per element: the block of the
/// element at `k` comes after the blocks of the elements before it and before
/// the blocks of those after it.
pub proof fn lemma_one_block_per_element(doc: Json, k: int)
    requires
        releases_of(doc) is Some,
        doc matches Json::Array(items) && 0 <= k < items@.len(),
    ensures
        ({
            let rs = releases_of(doc)->0;
            let items = doc->Array_0@;
            &&& rs.len() == items.len()
            &&& forall|i: int| 0 <= i < rs.len() ==> Some(#[trigger] rs[i]) == release_of(items[i])
            &&& listing_text(selected(rs, false)) == listing_text(rs.take(k)) + release_text(
                release_of(items[k])->0,
            ) + "\n"@ + listing_text(rs.skip(k + 1))
        }),
{
    let rs = releases_of(doc)->0;
    let items = doc->Array_0@;
    assert(forall|i: int| 0 <= i < items.len() ==> (#[trigger] release_of(items[i])) is Some);
    let left = rs.take(k + 1);
    let right = rs.skip(k + 1);
    lemma_listing_append(left, right);
    assert(left + right =~= rs);
    assert(left.drop_last() =~= rs.take(k));
}

/// A release without a name shows the placeholder `<unnamed>` on its first
/// line, and one without a tag shows `<untagged>` on its tag line.
pub proof fn lemma_placeholders(r: ReleaseView)
    ensures
        r.name is None ==> release_text(r).take("Release <unnamed>\n"@.len() as int)
            == "Release <unnamed>\n"@,
        r.tag_name is None ==> ({
            let first = "Release "@ + or_placeholder(r.name, "<unnamed>"@) + "\n"@;
            release_text(r).subrange(
                first.len() as int,
                (first.len() + "Tag     <untagged>\n"@.len()) as int,
            ) == "Tag     <untagged>\n"@
        }),
{
    reveal_strlit("Release <unnamed>\n");
    reveal_strlit("Release ");
    reveal_strlit("<unnamed>");
    reveal_strlit("\n");
    reveal_strlit("Tag     <untagged>\n");
    reveal_strlit("Tag     ");
    reveal_strlit("<untagged>");
    let first = "Release "@ + or_placeholder(r.name, "<unnamed>"@) + "\n"@;
    let rest = created_line(r.created_at) + assets_section(r.assets);
    assert(release_text(r) =~= first + ("Tag     "@ + or_placeholder(r.tag_name, "<untagged>"@)
        + "\n"@) + rest);
    if r.name is None {
        assert(release_text(r).take("Release <unnamed>\n"@.len() as int)
            =~= "Release <unnamed>\n"@);
    }
    if r.tag_name is None {
        assert(release_text(r).subrange(
            first.len() as int,
            (first.len() + "Tag     <untagged>\n"@.len()) as int,
        ) =~= "Tag     <untagged>\n"@);
    }
}

/// A release without assets shows no assets section: its text is its heading
/// and creation line alone.
pub proof fn lemma_no_assets_no_section(r: ReleaseView)
    requires
        r.assets.len() == 0,
    ensures
        release_text(r) == heading_text(r) + created_line(r.created_at),
{
    assert(release_text(r) =~= heading_text(r) + created_line(r.created_at));
}

/// With only the latest asked for, a non-empty listing shows exactly one
/// release: the first one given.
pub proof fn lemma_latest_shows_first(rs: Seq<ReleaseView>)
    requires
        rs.len() >= 1,
    ensures
        selected(rs, true) == seq![rs[0]],
        listing_text(selected(rs, true)) == release_text(rs[0]) + "\n"@,
{
    assert(selected(rs, true) =~= seq![rs[0]]);
    let one = seq![rs[0]];
    assert(one.drop_last() =~= Seq::<ReleaseView>::empty());
    assert(one.last() == rs[0]);
    assert(listing_text(one.drop_last()) == Seq::<char>::empty());
    assert(listing_text(seq![rs[0]]) =~= release_text(rs[0]) + "\n"@);
}

/// A document that is not an array, such as an error object, is no listing:
/// nothing of it is rendered.
pub proof fn lemma_non_array_is_rejected(doc: Json)
    requires
        !(doc is Array),
    ensures
        releases_of(doc) is None,
{
}

} // verus!
