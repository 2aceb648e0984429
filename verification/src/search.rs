//! The search-index facing models and the filter expressions the asset
//! search builds: document shapes, primary-id sanitizing, and the
//! `field IN ["..."]` filter strings.

use vstd::prelude::*;
use vstd::string::StringExecFns;
use vstd::string::StrSliceExecFns;
use crate::registry::Asset;
use crate::text::join_texts;

verus! {

/// The primary key of one indexed document.
#[derive(Debug)]
pub struct DocumentId {
    pub id: String,
}

/// The searchable properties of an asset.
#[derive(Debug)]
pub struct AssetProperties {
    pub is_enabled: bool,
}

/// The ranking score of an asset.
#[derive(Debug)]
pub struct AssetScore {
    pub rank: i32,
}

/// Market figures of an asset, where known.
#[derive(Debug)]
pub struct AssetMarket {
    pub market_cap_rank: Option<u32>,
}

/// An asset as the search index stores it.
#[derive(Debug)]
pub struct AssetDocument {
    pub id: String,
    pub asset: Asset,
    pub properties: AssetProperties,
    pub score: AssetScore,
    pub market: Option<AssetMarket>,
    pub tags: Option<Vec<String>>,
}

/// The slice of a document that the asset search returns.
#[derive(Debug)]
pub struct AssetBasic {
    pub asset: Asset,
    pub properties: AssetProperties,
    pub score: AssetScore,
}

/// Whether `c` may stand in an index primary id: an ASCII letter or
/// digit.
pub open spec fn is_ascii_alnum(c: char) -> bool {
    ||| ('0' <= c && c <= '9')
    ||| ('A' <= c && c <= 'Z')
    ||| ('a' <= c && c <= 'z')
}

/// The characters of `s` that may stand in an index primary id, in
/// order.
pub open spec fn alnum_only(s: Seq<char>) -> Seq<char> {
    s.filter(|c: char| is_ascii_alnum(c))
}

/// Strips `input` down to the characters an index primary id may hold,
/// keeping their order.
#[verifier::loop_isolation(false)]
pub fn sanitize_index_primary_id(input: &str) -> (r: String)
    ensures
        r@ == alnum_only(input@),
{
    let ghost pred = |c: char| is_ascii_alnum(c);
    let mut out = String::new();
    let n = input.unicode_len();
    let mut i: usize = 0;
    while i < n
        invariant
            n == input@.len(),
            i <= n,
            out@ == alnum_only(input@.subrange(0, i as int)),
        decreases n - i,
    {
        let c = input.get_char(i);
        let keep = ('0' <= c && c <= '9') || ('A' <= c && c <= 'Z') || ('a' <= c && c <= 'z');
        if keep {
            out.append(input.substring_char(i, i + 1));
        }
        proof {
            reveal_with_fuel(Seq::<_>::filter, 2);
            let pre = input@.subrange(0, i as int);
            let cur = input@.subrange(0, i + 1);
            assert(cur.drop_last() =~= pre);
            assert(cur.last() == input@[i as int]);
            assert(input@.subrange(i as int, i + 1) =~= seq![input@[i as int]]);
            assert(keep == is_ascii_alnum(cur.last()));
            if keep {
                assert(alnum_only(cur) == alnum_only(pre).push(cur.last()));
                assert(out@ =~= alnum_only(cur));
            } else {
                assert(alnum_only(cur) == alnum_only(pre));
                assert(out@ =~= alnum_only(cur));
            }
        }
        i = i + 1;
    }
    proof {
        assert(input@.subrange(0, n as int) =~= input@);
    }
    out
}

/// The views of a sequence of owned strings, one per string.
pub open spec fn text_views(vs: Seq<String>) -> Seq<Seq<char>> {
    vs.map_values(|s: String| s@)
}

/// The filter expression `field IN ["v1","v2",...]`, the values joined
/// with `","` between the outer quotes.
pub open spec fn filter_array_text(field: Seq<char>, values: Seq<Seq<char>>) -> Seq<char> {
    field + " IN [\""@ + join_texts(values, "\",\""@) + "\"]"@
}

/// Renders the membership filter for `field` over `values`.
pub fn filter_array(field: &str, values: Vec<String>) -> (r: String)
    ensures
        r@ == filter_array_text(field@, text_views(values@)),
{
    let mut out = field.to_owned();
    out.append(" IN [\"");
    let n = values.len();
    let mut i: usize = 0;
    while i < n
        invariant
            n == values@.len(),
            i <= n,
            out@ == field@ + " IN [\""@ + join_texts(text_views(values@.subrange(0, i as int)), "\",\""@),
        decreases n - i,
    {
        if i > 0 {
            out.append("\",\"");
        }
        out.append(values[i].as_str());
        proof {
            let pre = text_views(values@.subrange(0, i as int));
            let cur = text_views(values@.subrange(0, i + 1));
            assert(values@.subrange(0, i + 1).drop_last() =~= values@.subrange(0, i as int));
            assert(cur.drop_last() =~= pre);
            assert(cur.last() == values@[i as int]@);
            assert(out@ =~= field@ + " IN [\""@ + join_texts(cur, "\",\""@));
        }
        i = i + 1;
    }
    out.append("\"]");
    proof {
        assert(values@.subrange(0, n as int) =~= values@);
        assert(out@ =~= filter_array_text(field@, text_views(values@)));
    }
    out
}

/// The filter expression of one asset search: the always-on rank guard,
/// then a tag filter when tags were given, then a chain filter when
/// chains were given, joined with ` AND `.
pub fn assets_search_filter(chains: Vec<String>, tags: Vec<String>) -> (r: String)
    ensures
        r@ == "score.rank > 0"@ + (if tags@.len() > 0 {
            " AND "@ + filter_array_text("tags"@, text_views(tags@))
        } else {
            Seq::<char>::empty()
        }) + (if chains@.len() > 0 {
            " AND "@ + filter_array_text("asset.chain"@, text_views(chains@))
        } else {
            Seq::<char>::empty()
        }),
{
    let mut out: String = "score.rank > 0".to_owned();
    if tags.len() > 0 {
        out.append(" AND ");
        let part = filter_array("tags", tags);
        out.append(part.as_str());
    }
    if chains.len() > 0 {
        out.append(" AND ");
        let part = filter_array("asset.chain", chains);
        out.append(part.as_str());
    }
    proof {
        assert(out@ =~= "score.rank > 0"@ + (if tags@.len() > 0 {
            " AND "@ + filter_array_text("tags"@, text_views(tags@))
        } else {
            Seq::<char>::empty()
        }) + (if chains@.len() > 0 {
            " AND "@ + filter_array_text("asset.chain"@, text_views(chains@))
        } else {
            Seq::<char>::empty()
        }));
    }
    out
}

/// Maps the documents a search returned to the basic asset records the
/// caller is handed, in order.
#[verifier::loop_isolation(false)]
pub fn assets_from_documents(docs: Vec<AssetDocument>) -> (r: Vec<AssetBasic>)
    ensures
        r@.len() == docs@.len(),
        forall|i: int|
            0 <= i < docs@.len() ==> {
                &&& (#[trigger] r@[i]).asset == docs@[i].asset
                &&& r@[i].properties == docs@[i].properties
                &&& r@[i].score == docs@[i].score
            },
{
    let ghost orig = docs@;
    let total = docs.len();
    let mut rest = docs;
    let mut out: Vec<AssetBasic> = Vec::new();
    let mut i: usize = 0;
    while i < total
        invariant
            total == orig.len(),
            i <= total,
            rest@ == orig.subrange(i as int, total as int),
            out@.len() == i,
            forall|j: int|
                0 <= j < i ==> {
                    &&& (#[trigger] out@[j]).asset == orig[j].asset
                    &&& out@[j].properties == orig[j].properties
                    &&& out@[j].score == orig[j].score
                },
        decreases total - i,
    {
        let doc = rest.remove(0);
        proof {
            assert(doc == orig[i as int]);
            assert(rest@ =~= orig.subrange(i + 1, total as int));
        }
        out.push(AssetBasic { asset: doc.asset, properties: doc.properties, score: doc.score });
        i = i + 1;
    }
    out
}

} // verus!
