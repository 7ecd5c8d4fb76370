//! Sample searches sent to the Splice helper and the results shown for them.

use vstd::prelude::*;
use crate::catalog::{
    is_summary_of, normalize_search_query, normalized_query, summarize_sample_with_context,
    LocalFileIndex, PackIndex, SamplePackRecord, SampleRecord, SampleSummary, pack_lookup,
};

verus! {

/// Which samples a search covers by purchase state.
#[derive(Debug, Clone, Copy, PartialEq, Eq, Structural)]
pub enum PurchasedTypes {
    All,
    OnlyPurchased,
}

/// A sample search as the helper takes it.
#[derive(Debug)]
pub struct SampleSearchRequest {
    pub liked: bool,
    pub purchased: PurchasedTypes,
    pub matching_tags_and_packs: bool,
    pub search_term: String,
    pub collection_uuid: String,
    pub sort_fn: String,
    pub bpm_min: i32,
    pub bpm_max: i32,
    pub tags: Vec<String>,
    pub file_hash: String,
    pub genre: String,
    pub instrument: String,
    pub key: String,
    pub sample_type: String,
    pub pack_uuid: String,
    pub chord_type: String,
    pub per_page: i32,
    pub page: i32,
    pub random_seed: String,
}

/// A search answer as the helper gives it.
#[derive(Debug)]
pub struct SampleSearchResponse {
    pub total_hits: i32,
    pub samples: Vec<SampleRecord>,
    pub matching_tags: Vec<(String, i32)>,
    pub matching_packs: Vec<SamplePackRecord>,
}

/// A search answer as the UI shows it.
#[derive(Debug)]
pub struct SampleSearchResult {
    pub total_hits: i32,
    pub samples: Vec<SampleSummary>,
    pub matching_tags: Vec<(String, i32)>,
}

/// `Ord::clamp` for integers.
pub open spec fn clamp(x: int, lo: int, hi: int) -> int {
    if x < lo {
        lo
    } else if x > hi {
        hi
    } else {
        x
    }
}

/// The value of an optional argument, or its default.
pub open spec fn or_default_i32(x: Option<i32>, default: i32) -> i32 {
    match x {
        Some(v) => v,
        None => default,
    }
}

/// The text of an optional argument, or the empty string.
pub open spec fn or_empty(x: Option<String>) -> Seq<char> {
    match x {
        Some(s) => s@,
        None => Seq::empty(),
    }
}

/// The page asked for: the given one, at least 1, defaulting to 1.
pub open spec fn requested_page(page: Option<i32>) -> i32 {
    let p = or_default_i32(page, 1);
    if p < 1 {
        1
    } else {
        p
    }
}

fn clamp_i32(x: i32, lo: i32, hi: i32) -> (r: i32)
    requires
        lo <= hi,
    ensures
        r == clamp(x as int, lo as int, hi as int),
{
    if x < lo {
        lo
    } else if x > hi {
        hi
    } else {
        x
    }
}

fn page_or_first(page: Option<i32>) -> (r: i32)
    ensures
        r == requested_page(page),
{
    let p = match page {
        Some(p) => p,
        None => 1,
    };
    if p < 1 {
        1
    } else {
        p
    }
}

fn text_or_empty(x: Option<String>) -> (r: String)
    ensures
        r@ == or_empty(x),
{
    match x {
        Some(s) => s,
        None => String::new(),
    }
}

fn tags_or_empty(x: Option<Vec<String>>) -> (r: Vec<String>)
    ensures
        r@ == match x {
            Some(t) => t@,
            None => Seq::<String>::empty(),
        },
{
    match x {
        Some(t) => t,
        None => Vec::new(),
    }
}

/// The search for a query typed in the sample browser: the query is
/// normalised, pages hold 12 samples by default and 1 to 50 in all, and
/// matching tags and packs are always asked for.
pub fn search_samples_request(
    query: &str,
    only_purchased: Option<bool>,
    page: Option<i32>,
    per_page: Option<i32>,
    pack_uuid: Option<String>,
    liked: Option<bool>,
    genre: Option<String>,
    instrument: Option<String>,
    key: Option<String>,
    sample_type: Option<String>,
    bpm_min: Option<i32>,
    bpm_max: Option<i32>,
    sort_fn: Option<String>,
    tags: Option<Vec<String>>,
) -> (r: SampleSearchRequest)
    ensures
        r.liked == (liked == Some(true)),
        r.purchased == (if only_purchased == Some(true) {
            PurchasedTypes::OnlyPurchased
        } else {
            PurchasedTypes::All
        }),
        r.matching_tags_and_packs,
        r.search_term@ == normalized_query(query@),
        r.collection_uuid@ == Seq::<char>::empty(),
        r.sort_fn@ == or_empty(sort_fn),
        r.bpm_min == or_default_i32(bpm_min, 0),
        r.bpm_max == or_default_i32(bpm_max, 0),
        r.tags@ == match tags {
            Some(t) => t@,
            None => Seq::<String>::empty(),
        },
        r.file_hash@ == Seq::<char>::empty(),
        r.genre@ == or_empty(genre),
        r.instrument@ == or_empty(instrument),
        r.key@ == or_empty(key),
        r.sample_type@ == or_empty(sample_type),
        r.pack_uuid@ == or_empty(pack_uuid),
        r.chord_type@ == Seq::<char>::empty(),
        r.per_page == clamp(or_default_i32(per_page, 12) as int, 1, 50),
        r.page == requested_page(page),
        r.random_seed@ == Seq::<char>::empty(),
{
    let purchased = if only_purchased == Some(true) {
        PurchasedTypes::OnlyPurchased
    } else {
        PurchasedTypes::All
    };
    let per_page_value = match per_page {
        Some(n) => n,
        None => 12,
    };
    SampleSearchRequest {
        liked: liked == Some(true),
        purchased,
        matching_tags_and_packs: true,
        search_term: normalize_search_query(query),
        collection_uuid: String::new(),
        sort_fn: text_or_empty(sort_fn),
        bpm_min: match bpm_min {
            Some(n) => n,
            None => 0,
        },
        bpm_max: match bpm_max {
            Some(n) => n,
            None => 0,
        },
        tags: tags_or_empty(tags),
        file_hash: String::new(),
        genre: text_or_empty(genre),
        instrument: text_or_empty(instrument),
        key: text_or_empty(key),
        sample_type: text_or_empty(sample_type),
        pack_uuid: text_or_empty(pack_uuid),
        chord_type: String::new(),
        per_page: clamp_i32(per_page_value, 1, 50),
        page: page_or_first(page),
        random_seed: String::new(),
    }
}

/// The search for the samples of a collection: every purchase state, no
/// search term, pages of 50 samples by default and 1 to 100 in all.
pub fn collection_samples_request(
    uuid: String,
    page: Option<i32>,
    per_page: Option<i32>,
    sample_type: Option<String>,
    bpm_min: Option<i32>,
    bpm_max: Option<i32>,
    sort_fn: Option<String>,
    tags: Option<Vec<String>>,
) -> (r: SampleSearchRequest)
    ensures
        !r.liked,
        r.purchased == PurchasedTypes::All,
        r.matching_tags_and_packs,
        r.search_term@ == Seq::<char>::empty(),
        r.collection_uuid == uuid,
        r.sort_fn@ == or_empty(sort_fn),
        r.bpm_min == or_default_i32(bpm_min, 0),
        r.bpm_max == or_default_i32(bpm_max, 0),
        r.tags@ == match tags {
            Some(t) => t@,
            None => Seq::<String>::empty(),
        },
        r.file_hash@ == Seq::<char>::empty(),
        r.genre@ == Seq::<char>::empty(),
        r.instrument@ == Seq::<char>::empty(),
        r.key@ == Seq::<char>::empty(),
        r.sample_type@ == or_empty(sample_type),
        r.pack_uuid@ == Seq::<char>::empty(),
        r.chord_type@ == Seq::<char>::empty(),
        r.per_page == clamp(or_default_i32(per_page, 50) as int, 1, 100),
        r.page == requested_page(page),
        r.random_seed@ == Seq::<char>::empty(),
{
    let per_page_value = match per_page {
        Some(n) => n,
        None => 50,
    };
    SampleSearchRequest {
        liked: false,
        purchased: PurchasedTypes::All,
        matching_tags_and_packs: true,
        search_term: String::new(),
        collection_uuid: uuid,
        sort_fn: text_or_empty(sort_fn),
        bpm_min: match bpm_min {
            Some(n) => n,
            None => 0,
        },
        bpm_max: match bpm_max {
            Some(n) => n,
            None => 0,
        },
        tags: tags_or_empty(tags),
        file_hash: String::new(),
        genre: String::new(),
        instrument: String::new(),
        key: String::new(),
        sample_type: text_or_empty(sample_type),
        pack_uuid: String::new(),
        chord_type: String::new(),
        per_page: clamp_i32(per_page_value, 1, 100),
        page: page_or_first(page),
        random_seed: String::new(),
    }
}

/// The search for one page of liked, purchased samples, newest first, whose
/// matching packs make up the liked packs.
pub fn liked_packs_request(page: i32, per_page: i32) -> (r: SampleSearchRequest)
    ensures
        r.liked,
        r.purchased == PurchasedTypes::OnlyPurchased,
        r.matching_tags_and_packs,
        r.search_term@ == Seq::<char>::empty(),
        r.collection_uuid@ == Seq::<char>::empty(),
        r.sort_fn@ == "recency"@,
        r.bpm_min == 0,
        r.bpm_max == 0,
        r.tags@ == Seq::<String>::empty(),
        r.file_hash@ == Seq::<char>::empty(),
        r.genre@ == Seq::<char>::empty(),
        r.instrument@ == Seq::<char>::empty(),
        r.key@ == Seq::<char>::empty(),
        r.sample_type@ == Seq::<char>::empty(),
        r.pack_uuid@ == Seq::<char>::empty(),
        r.chord_type@ == Seq::<char>::empty(),
        r.per_page == per_page,
        r.page == page,
        r.random_seed@ == Seq::<char>::empty(),
{
    SampleSearchRequest {
        liked: true,
        purchased: PurchasedTypes::OnlyPurchased,
        matching_tags_and_packs: true,
        search_term: String::new(),
        collection_uuid: String::new(),
        sort_fn: "recency".to_owned(),
        bpm_min: 0,
        bpm_max: 0,
        tags: Vec::new(),
        file_hash: String::new(),
        genre: String::new(),
        instrument: String::new(),
        key: String::new(),
        sample_type: String::new(),
        pack_uuid: String::new(),
        chord_type: String::new(),
        per_page,
        page,
        random_seed: String::new(),
    }
}

/// The UI result for a helper search answer: each sample is summarised, in
/// order, against the files on disk and the packs the answer matched (a
/// later pack replacing an earlier one with the same uuid).
pub fn summarize_search_response(
    response: SampleSearchResponse,
    local_files: Option<&LocalFileIndex>,
) -> (r: SampleSearchResult)
    ensures
        r.total_hits == response.total_hits,
        r.matching_tags == response.matching_tags,
        r.samples@.len() == response.samples@.len(),
        forall|i: int|
            0 <= i < r.samples@.len() ==> is_summary_of(
                #[trigger] r.samples@[i],
                response.samples@[i],
                match local_files {
                    Some(index) => index.lookup(response.samples@[i].filename@),
                    None => None,
                },
                pack_lookup(response.matching_packs@, response.samples@[i].pack_uuid@),
            ),
{
    let SampleSearchResponse { total_hits, samples, matching_tags, matching_packs } = response;
    let ghost packs_seen = matching_packs@;
    let pack_index = PackIndex::from_packs(matching_packs);
    let mut rest = samples;
    let ghost all = rest@;
    let mut out: Vec<SampleSummary> = Vec::new();
    while rest.len() > 0
        invariant
            out@.len() + rest@.len() == all.len(),
            rest@ == all.subrange(out@.len() as int, all.len() as int),
            forall|uuid: Seq<char>| #[trigger]
                pack_index.lookup(uuid) == pack_lookup(packs_seen, uuid),
            forall|i: int|
                0 <= i < out@.len() ==> is_summary_of(
                    #[trigger] out@[i],
                    all[i],
                    match local_files {
                        Some(index) => index.lookup(all[i].filename@),
                        None => None,
                    },
                    pack_lookup(packs_seen, all[i].pack_uuid@),
                ),
        decreases rest@.len(),
    {
        let sample = rest.remove(0);
        let ghost k = out@.len() as int;
        assert(sample == all[k]);
        let summary = summarize_sample_with_context(sample, local_files, Some(&pack_index));
        out.push(summary);
        assert(rest@ =~= all.subrange(out@.len() as int, all.len() as int));
    }
    SampleSearchResult { total_hits, samples: out, matching_tags }
}

} // verus!
