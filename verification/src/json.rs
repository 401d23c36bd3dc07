//! Reading the JSON that PowerShell and the GitHub release API produce.
//!
//! A text is parsed by `serde_json` into [`Json`], the library's own form
//! of a JSON value; what document a text denotes is a named result
//! ([`json_document`]). Everything read from a document is then specified
//! exactly over that form.
use vstd::prelude::*;
use serde_json::Value;
use crate::gpu::{is_top_two, select_gpus, GpuInfo};
use crate::text::{chars_are, chars_of, owned};

verus! {

#[verifier::external_type_specification]
#[verifier::external_body]
pub struct ExValue(serde_json::Value);

/// A JSON value.
#[derive(Debug)]
pub enum Json {
    /// `null`.
    Null,
    /// `true` or `false`.
    Bool(bool),
    /// A number, held as the unsigned 64-bit integer it denotes when it is a
    /// non-negative integer that fits (`None` for any other number).
    Number(Option<u64>),
    /// A string.
    Text(String),
    /// An array, in order.
    Array(Vec<Json>),
    /// An object's members (names distinct, in the order `serde_json` keeps them).
    Object(Vec<(String, Json)>),
}

/// The JSON document that `serde_json` reads from a text: `None` when the
/// text is not a JSON document.
pub uninterp spec fn json_document(text: Seq<char>) -> Option<Json>;

/// `serde_json::from_str::<Value>`, the parse error dropped, and the value
/// converted into [`Json`].
#[verifier::external_body]
fn parse_json(text: &str) -> (r: Option<Json>)
    ensures
        r == json_document(text@),
{
    serde_json::from_str::<Value>(text).ok().map(json_from_value)
}

/// The [`Json`] form of a `serde_json::Value`: one variant for each of
/// `Value`'s, numbers through `Number::as_u64`, object members in the
/// order the map yields them. Used only by [`parse_json`].
#[verifier::external_body]
fn json_from_value(v: Value) -> Json {
    match v {
        Value::Null => Json::Null,
        Value::Bool(b) => Json::Bool(b),
        Value::Number(n) => Json::Number(n.as_u64()),
        Value::String(s) => Json::Text(s),
        Value::Array(a) => Json::Array(a.into_iter().map(json_from_value).collect()),
        Value::Object(m) => Json::Object(m.into_iter().map(|(k, x)| (k, json_from_value(x))).collect()),
    }
}

// ---------------------------------------------------------------------
// Members
// ---------------------------------------------------------------------

/// The value of the first member named `key`.
pub open spec fn member(fields: Seq<(String, Json)>, key: Seq<char>) -> Option<Json>
    decreases fields.len(),
{
    if fields.len() == 0 {
        None
    } else if fields[0].0@ == key {
        Some(fields[0].1)
    } else {
        member(fields.drop_first(), key)
    }
}

/// The member `key` of an object (`None` for any other value).
pub open spec fn member_of(j: Json, key: Seq<char>) -> Option<Json> {
    match j {
        Json::Object(fields) => member(fields@, key),
        _ => None,
    }
}

/// The text of a string value.
pub open spec fn text_of(j: Option<Json>) -> Option<Seq<char>> {
    match j {
        Some(Json::Text(s)) => Some(s@),
        _ => None,
    }
}

/// The unsigned integer of a number value.
pub open spec fn u64_of(j: Option<Json>) -> Option<u64> {
    match j {
        Some(Json::Number(n)) => n,
        _ => None,
    }
}

/// The texts of optional strings.
pub open spec fn opt_view(s: Option<String>) -> Option<Seq<char>> {
    match s {
        Some(t) => Some(t@),
        None => None,
    }
}

proof fn lemma_member_skip(fields: Seq<(String, Json)>, key: Seq<char>, k: int)
    requires
        0 <= k <= fields.len(),
        forall|m: int| 0 <= m < k ==> #[trigger] fields[m].0@ != key,
    ensures
        member(fields, key) == member(fields.skip(k), key),
    decreases k,
{
    if k > 0 {
        assert(fields.skip(1) == fields.drop_first());
        lemma_member_skip(fields.drop_first(), key, k - 1);
        assert(fields.drop_first().skip(k - 1) == fields.skip(k));
    } else {
        assert(fields.skip(0) == fields);
    }
}

/// The member `key` of `j`.
fn member_value<'a>(j: &'a Json, key: &str) -> (r: Option<&'a Json>)
    ensures
        (match r {
            Some(x) => Some(*x),
            None => None,
        }) == member_of(*j, key@),
{
    match j {
        Json::Object(fields) => {
            let mut k: usize = 0;
            while k < fields.len()
                invariant
                    k <= fields.len(),
                    *j == Json::Object(*fields),
                    forall|m: int| 0 <= m < k ==> #[trigger] fields@[m].0@ != key@,
                decreases fields.len() - k,
            {
                let name = chars_of(fields[k].0.as_str());
                if chars_are(&name, key) {
                    proof {
                        lemma_member_skip(fields@, key@, k as int);
                        let rest = fields@.skip(k as int);
                        assert(rest[0] == fields@[k as int]);
                        assert(rest.len() > 0 && rest[0].0@ == key@);
                        assert(member(rest, key@) == Some(rest[0].1));
                    }
                    return Some(&fields[k].1);
                }
                k = k + 1;
            }
            proof {
                lemma_member_skip(fields@, key@, k as int);
                assert(fields@.skip(k as int).len() == 0);
            }
            None
        },
        _ => None,
    }
}

/// The text of the string member `key` of `j`.
fn text_member(j: &Json, key: &str) -> (r: Option<String>)
    ensures
        opt_view(r) == text_of(member_of(*j, key@)),
{
    match member_value(j, key) {
        Some(Json::Text(s)) => Some(owned(s.as_str())),
        _ => None,
    }
}

/// The unsigned integer of the number member `key` of `j`.
fn u64_member(j: &Json, key: &str) -> (r: Option<u64>)
    ensures
        r == u64_of(member_of(*j, key@)),
{
    match member_value(j, key) {
        Some(Json::Number(n)) => *n,
        _ => None,
    }
}

// ---------------------------------------------------------------------
// The adapter listing
// ---------------------------------------------------------------------

/// A card as name, memory in bytes and operating-system index.
pub open spec fn card_view(g: GpuInfo) -> (Seq<char>, u64, u64) {
    (g.name@, g.vram_bytes, g.os_index)
}

/// The views of a list of cards.
pub open spec fn card_views(g: Seq<GpuInfo>) -> Seq<(Seq<char>, u64, u64)> {
    g.map_values(|x: GpuInfo| card_view(x))
}

/// The card an object describes: its string `Name`, and its `VRAM` and
/// `OsIndex` as unsigned integers; `None` when one of them is missing or of
/// another kind.
pub open spec fn card_of(j: Json) -> Option<(Seq<char>, u64, u64)> {
    match (
        text_of(member_of(j, "Name"@)),
        u64_of(member_of(j, "VRAM"@)),
        u64_of(member_of(j, "OsIndex"@)),
    ) {
        (Some(n), Some(v), Some(i)) => Some((n, v, i)),
        _ => None,
    }
}

/// The cards of the elements of an array, in order, one per element that
/// describes a card.
pub open spec fn cards_in(items: Seq<Json>) -> Seq<(Seq<char>, u64, u64)>
    decreases items.len(),
{
    if items.len() == 0 {
        seq![]
    } else {
        match card_of(items.last()) {
            Some(c) => cards_in(items.drop_last()).push(c),
            None => cards_in(items.drop_last()),
        }
    }
}

/// The cards of an adapter listing: those of its elements when it is an
/// array, the one it describes when it is a single object, none when the
/// text is not JSON.
pub open spec fn listing_cards(doc: Option<Json>) -> Seq<(Seq<char>, u64, u64)> {
    match doc {
        Some(Json::Array(items)) => cards_in(items@),
        Some(j) => match card_of(j) {
            Some(c) => seq![c],
            None => seq![],
        },
        None => seq![],
    }
}

/// An object member is found by its name: the value of the first member
/// with that name, whatever follows; a name that no member has gives
/// nothing.
pub proof fn lemma_first_member_wins(fields: Seq<(String, Json)>, key: Seq<char>, k: int)
    requires
        0 <= k <= fields.len(),
        forall|m: int| 0 <= m < k ==> #[trigger] fields[m].0@ != key,
    ensures
        k < fields.len() && fields[k].0@ == key ==> member(fields, key) == Some(fields[k].1),
        k == fields.len() ==> member(fields, key) is None,
{
    lemma_member_skip(fields, key, k);
    if k == fields.len() {
        assert(fields.skip(k).len() == 0);
    } else {
        assert(fields.skip(k)[0] == fields[k]);
    }
}

/// A listed card is an object whose `Name` is a string and whose `VRAM`
/// and `OsIndex` are unsigned integers; it is that name, memory and index.
/// An object that lacks one of them, or gives it as another kind of
/// value, describes no card.
pub proof fn lemma_card_fields(j: Json)
    ensures
        text_of(member_of(j, "Name"@)) is Some && u64_of(member_of(j, "VRAM"@)) is Some && u64_of(
            member_of(j, "OsIndex"@),
        ) is Some ==> card_of(j) == Some(
            (
                text_of(member_of(j, "Name"@))->0,
                u64_of(member_of(j, "VRAM"@))->0,
                u64_of(member_of(j, "OsIndex"@))->0,
            ),
        ),
        text_of(member_of(j, "Name"@)) is None ==> card_of(j) is None,
        u64_of(member_of(j, "VRAM"@)) is None ==> card_of(j) is None,
        u64_of(member_of(j, "OsIndex"@)) is None ==> card_of(j) is None,
        !(j is Object) ==> card_of(j) is None,
{
}

/// A release asset is its string `name` and its string
/// `browser_download_url`, each absent when missing or not a string.
pub proof fn lemma_asset_fields(j: Json)
    ensures
        asset_of(j).0 == text_of(member_of(j, "name"@)),
        asset_of(j).1 == text_of(member_of(j, "browser_download_url"@)),
        !(j is Object) ==> asset_of(j) == (None::<Seq<char>>, None::<Seq<char>>),
{
}

/// A card from its three reported fields; all three must be present.
pub fn gpu_from_fields(name: Option<&str>, vram: Option<u64>, os_index: Option<u64>) -> (r: Option<
    GpuInfo,
>)
    ensures
        r is Some <==> (name is Some && vram is Some && os_index is Some),
        r matches Some(g) ==> g.name@ == name->0@ && g.vram_bytes == vram->0 && g.os_index
            == os_index->0,
{
    match (name, vram, os_index) {
        (Some(n), Some(v), Some(i)) => Some(GpuInfo { name: owned(n), vram_bytes: v, os_index: i }),
        _ => None,
    }
}

/// The card an object of the listing describes (`Name`, `VRAM`, `OsIndex`).
fn gpu_from_object(item: &Json) -> (r: Option<GpuInfo>)
    ensures
        (match r {
            Some(g) => Some(card_view(g)),
            None => None,
        }) == card_of(*item),
{
    let name = text_member(item, "Name");
    let vram = u64_member(item, "VRAM");
    let idx = u64_member(item, "OsIndex");
    match (name, vram, idx) {
        (Some(n), Some(v), Some(i)) => Some(GpuInfo { name: n, vram_bytes: v, os_index: i }),
        _ => None,
    }
}

/// The cards in the adapter listing: a JSON array of objects, or a single
/// object when there is one adapter. Objects that lack a field are left
/// out; text that is not JSON gives no card.
pub fn gpus_from_listing(json_text: &str) -> (r: Vec<GpuInfo>)
    ensures
        card_views(r@) == listing_cards(json_document(json_text@)),
{
    let mut gpus: Vec<GpuInfo> = Vec::new();
    let doc = parse_json(json_text);
    match &doc {
        Some(Json::Array(items)) => {
            let mut i: usize = 0;
            assert(items@.take(0) =~= Seq::<Json>::empty());
            assert(card_views(gpus@) =~= cards_in(items@.take(0)));
            while i < items.len()
                invariant
                    i <= items.len(),
                    card_views(gpus@) == cards_in(items@.take(i as int)),
                decreases items.len() - i,
            {
                let ghost prev = gpus@;
                proof {
                    assert(items@.take(i + 1).drop_last() == items@.take(i as int));
                    assert(items@.take(i + 1).last() == items@[i as int]);
                }
                if let Some(g) = gpu_from_object(&items[i]) {
                    gpus.push(g);
                    assert(card_views(gpus@) =~= card_views(prev).push(card_view(g)));
                }
                i = i + 1;
            }
            assert(items@.take(items.len() as int) == items@);
        },
        Some(j) => {
            if let Some(g) = gpu_from_object(j) {
                gpus.push(g);
                assert(card_views(gpus@) =~= seq![card_view(g)]);
            } else {
                assert(card_views(gpus@) =~= Seq::<(Seq<char>, u64, u64)>::empty());
            }
        },
        None => {
            assert(card_views(gpus@) =~= Seq::<(Seq<char>, u64, u64)>::empty());
        },
    }
    gpus
}

/// The cards to use, from the adapter listing: the two with the most
/// memory among the cards it describes (fewer if it describes fewer),
/// largest first, the one listed first among equals.
pub fn amd_gpus_from_listing(json_text: &str) -> (r: Vec<GpuInfo>)
    ensures
        exists|c: Seq<GpuInfo>|
            card_views(c) == listing_cards(json_document(json_text@)) && is_top_two(c, r@),
{
    let candidates = gpus_from_listing(json_text);
    let ghost c = candidates@;
    let r = select_gpus(candidates);
    assert(card_views(c) == listing_cards(json_document(json_text@)) && is_top_two(c, r@));
    r
}

// ---------------------------------------------------------------------
// The release listing
// ---------------------------------------------------------------------

/// A downloadable file of a release, as the release API lists it.
#[derive(Debug)]
pub struct ReleaseAsset {
    /// The file name, if the listing gives one as a string.
    pub name: Option<String>,
    /// The download address, if the listing gives one as a string.
    pub download_url: Option<String>,
}

/// An asset as its optional name and download address.
pub open spec fn asset_view(a: ReleaseAsset) -> (Option<Seq<char>>, Option<Seq<char>>) {
    (opt_view(a.name), opt_view(a.download_url))
}

/// The views of a list of assets.
pub open spec fn asset_views(s: Seq<ReleaseAsset>) -> Seq<(Option<Seq<char>>, Option<Seq<char>>)> {
    s.map_values(|a: ReleaseAsset| asset_view(a))
}

/// An element of an `assets` array: its string `name` and string
/// `browser_download_url`, each when present.
pub open spec fn asset_of(j: Json) -> (Option<Seq<char>>, Option<Seq<char>>) {
    (text_of(member_of(j, "name"@)), text_of(member_of(j, "browser_download_url"@)))
}

/// The assets of one release: the elements of its `assets` array, in order
/// (none when it has no such array).
pub open spec fn release_assets_of(release: Json) -> Seq<(Option<Seq<char>>, Option<Seq<char>>)> {
    match member_of(release, "assets"@) {
        Some(Json::Array(items)) => items@.map_values(|a: Json| asset_of(a)),
        _ => seq![],
    }
}

/// The assets of a list of releases, release by release.
pub open spec fn assets_in(releases: Seq<Json>) -> Seq<(Option<Seq<char>>, Option<Seq<char>>)>
    decreases releases.len(),
{
    if releases.len() == 0 {
        seq![]
    } else {
        assets_in(releases.drop_last()) + release_assets_of(releases.last())
    }
}

/// The assets of a release listing: those of its releases when it is an
/// array, none otherwise.
pub open spec fn listing_assets(doc: Option<Json>) -> Seq<(Option<Seq<char>>, Option<Seq<char>>)> {
    match doc {
        Some(Json::Array(releases)) => assets_in(releases@),
        _ => seq![],
    }
}

fn asset_from_object(a: &Json) -> (r: ReleaseAsset)
    ensures
        asset_view(r) == asset_of(*a),
{
    ReleaseAsset { name: text_member(a, "name"), download_url: text_member(a, "browser_download_url") }
}

/// The assets of all releases in the release listing (a JSON array of
/// releases, each with an `assets` array), release by release, in listed
/// order. Text that is not such a listing gives no asset.
pub fn release_assets(json_text: &str) -> (r: Vec<ReleaseAsset>)
    ensures
        asset_views(r@) == listing_assets(json_document(json_text@)),
{
    let mut out: Vec<ReleaseAsset> = Vec::new();
    let doc = parse_json(json_text);
    if let Some(Json::Array(releases)) = &doc {
        let mut i: usize = 0;
        assert(releases@.take(0) =~= Seq::<Json>::empty());
        assert(asset_views(out@) =~= assets_in(releases@.take(0)));
        while i < releases.len()
            invariant
                i <= releases.len(),
                asset_views(out@) == assets_in(releases@.take(i as int)),
            decreases releases.len() - i,
        {
            let ghost before = asset_views(out@);
            proof {
                assert(releases@.take(i + 1).drop_last() == releases@.take(i as int));
                assert(releases@.take(i + 1).last() == releases@[i as int]);
            }
            match member_value(&releases[i], "assets") {
                Some(Json::Array(assets)) => {
                    let mut k: usize = 0;
                    while k < assets.len()
                        invariant
                            k <= assets.len(),
                            asset_views(out@) == before + assets@.take(k as int).map_values(
                                |a: Json| asset_of(a),
                            ),
                        decreases assets.len() - k,
                    {
                        let ghost prev = out@;
                        let a = asset_from_object(&assets[k]);
                        out.push(a);
                        proof {
                            assert(asset_views(out@) =~= asset_views(prev).push(asset_view(a)));
                            assert(assets@.take(k + 1).map_values(|a: Json| asset_of(a))
                                =~= assets@.take(k as int).map_values(|a: Json| asset_of(a)).push(
                                asset_of(assets@[k as int]),
                            ));
                        }
                        k = k + 1;
                    }
                    assert(assets@.take(assets.len() as int) == assets@);
                },
                _ => {
                    assert(asset_views(out@) =~= before + Seq::<(Option<Seq<char>>, Option<Seq<char>>)>::empty());
                },
            }
            i = i + 1;
        }
        assert(releases@.take(releases.len() as int) == releases@);
    } else {
        assert(asset_views(out@) =~= Seq::<(Option<Seq<char>>, Option<Seq<char>>)>::empty());
    }
    out
}

} // verus!
