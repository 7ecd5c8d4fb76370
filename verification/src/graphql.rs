//! Collections and recommended packs from Splice's GraphQL asset search.

use vstd::prelude::*;
use crate::catalog::PackSummary;
use crate::json::{
    get_path2, get_path3, json_as_array, json_as_bool, json_as_i64, json_get, json_path,
    json_str_at, json_string_or_empty, value_string, JsonValue,
};
use crate::search::{clamp, or_default_i32, requested_page};
use crate::text::{concat, str_eq};

verus! {

/// A collection as the UI lists it.
#[derive(Debug, Clone)]
pub struct CollectionSummary {
    pub uuid: String,
    pub name: String,
    pub description: String,
    pub cover_url: String,
    pub permalink: String,
    pub sample_count: i32,
    pub pack_count: i32,
    pub created_by_current_user: bool,
    pub creator_username: String,
}

/// The text of a collection summary.
pub struct CollectionFacts {
    pub uuid: Seq<char>,
    pub name: Seq<char>,
    pub description: Seq<char>,
    pub cover_url: Seq<char>,
    pub permalink: Seq<char>,
    pub sample_count: i32,
    pub pack_count: i32,
    pub created_by_current_user: bool,
    pub creator_username: Seq<char>,
}

/// The text of a pack summary.
pub struct PackFacts {
    pub uuid: Seq<char>,
    pub name: Seq<char>,
    pub cover_url: Seq<char>,
    pub banner_url: Seq<char>,
    pub demo_url: Seq<char>,
    pub genre: Seq<char>,
    pub provider_name: Seq<char>,
    pub permalink: Seq<char>,
    pub sample_count: Option<i64>,
}

/// The facts a collection summary states.
pub open spec fn collection_facts(c: CollectionSummary) -> CollectionFacts {
    CollectionFacts {
        uuid: c.uuid@,
        name: c.name@,
        description: c.description@,
        cover_url: c.cover_url@,
        permalink: c.permalink@,
        sample_count: c.sample_count,
        pack_count: c.pack_count,
        created_by_current_user: c.created_by_current_user,
        creator_username: c.creator_username@,
    }
}

/// The facts a pack summary states.
pub open spec fn pack_facts(p: PackSummary) -> PackFacts {
    PackFacts {
        uuid: p.uuid@,
        name: p.name@,
        cover_url: p.cover_url@,
        banner_url: p.banner_url@,
        demo_url: p.demo_url@,
        genre: p.genre@,
        provider_name: p.provider_name@,
        permalink: p.permalink@,
        sample_count: p.sample_count,
    }
}

/// Why a GraphQL answer gave no list.
#[derive(Debug, Clone, Copy, PartialEq, Eq, Structural)]
pub enum GraphqlFailure {
    /// The answer has an `errors` member.
    Errors,
    /// The answer has no array at `data.assetsSearch.items`.
    MissingItems,
}

/// The first item of `items` whose string member `field` is `value`.
pub open spec fn find_by_field(items: Seq<JsonValue>, field: Seq<char>, value: Seq<char>) -> Option<
    JsonValue,
>
    decreases items.len(),
{
    if items.len() == 0 {
        None
    } else if json_str_at(items[0], field) == Some(value) {
        Some(items[0])
    } else {
        find_by_field(items.drop_first(), field, value)
    }
}

/// The `url` of the first file of type `kind`, or the empty string.
pub open spec fn file_url_of(files: Option<Seq<JsonValue>>, kind: Seq<char>) -> Seq<char> {
    match files {
        Some(fs) => match find_by_field(fs, "asset_file_type_slug"@, kind) {
            Some(file) => json_string_or_empty(file, "url"@),
            None => Seq::empty(),
        },
        None => Seq::empty(),
    }
}

/// The `count` of the first child count of type `kind`, when it is an `i64`.
pub open spec fn child_count_of(item: JsonValue, kind: Seq<char>) -> Option<i64> {
    match json_get(item, "child_asset_counts"@) {
        Some(counts) => match json_as_array(counts) {
            Some(cs) => match find_by_field(cs, "type"@, kind) {
                Some(entry) => match json_get(entry, "count"@) {
                    Some(n) => json_as_i64(n),
                    None => None,
                },
                None => None,
            },
            None => None,
        },
        None => None,
    }
}

/// The files array of an item, if it has one.
pub open spec fn files_of(item: JsonValue) -> Option<Seq<JsonValue>> {
    match json_get(item, "files"@) {
        Some(f) => json_as_array(f),
        None => None,
    }
}

/// The collection an asset-search item describes: skipped without a string
/// `uuid` and `name`; counts default to 0 and are truncated to 32 bits; the
/// user made it when it is not public.
pub open spec fn collection_from_item(item: JsonValue) -> Option<CollectionFacts> {
    match (json_str_at(item, "uuid"@), json_str_at(item, "name"@)) {
        (Some(uuid), Some(name)) => Some(
            CollectionFacts {
                uuid,
                name,
                description: Seq::empty(),
                cover_url: file_url_of(files_of(item), "cover_image"@),
                permalink: json_string_or_empty(item, "permalink_slug"@),
                sample_count: (match child_count_of(item, "sample"@) {
                    Some(n) => n,
                    None => 0,
                }) as i32,
                pack_count: (match child_count_of(item, "pack"@) {
                    Some(n) => n,
                    None => 0,
                }) as i32,
                created_by_current_user: match json_get(item, "public"@) {
                    Some(p) => match json_as_bool(p) {
                        Some(public) => !public,
                        None => false,
                    },
                    None => false,
                },
                creator_username: match json_path(item, seq!["creator"@, "username"@]) {
                    Some(u) => match u {
                        JsonValue::Str(s) => s@,
                        _ => Seq::empty(),
                    },
                    None => Seq::empty(),
                },
            },
        ),
        _ => None,
    }
}

/// The pack an explore item describes: skipped without a `files` array or a
/// string `uuid` and `name`.
pub open spec fn pack_from_explore_item(item: JsonValue) -> Option<PackFacts> {
    match (files_of(item), json_str_at(item, "uuid"@), json_str_at(item, "name"@)) {
        (Some(files), Some(uuid), Some(name)) => Some(
            PackFacts {
                uuid,
                name,
                cover_url: file_url_of(Some(files), "cover_image"@),
                banner_url: file_url_of(Some(files), "banner_image"@),
                demo_url: file_url_of(Some(files), "preview_mp3"@),
                genre: json_string_or_empty(item, "main_genre"@),
                provider_name: Seq::empty(),
                permalink: json_string_or_empty(item, "permalink_base_url"@),
                sample_count: child_count_of(item, "sample"@),
            },
        ),
        _ => None,
    }
}

/// The collections of the items that describe one, in order.
pub open spec fn collections_of_items(items: Seq<JsonValue>) -> Seq<CollectionFacts>
    decreases items.len(),
{
    if items.len() == 0 {
        Seq::empty()
    } else {
        let before = collections_of_items(items.drop_last());
        match collection_from_item(items.last()) {
            Some(c) => before.push(c),
            None => before,
        }
    }
}

/// The packs of the items that describe one, in order.
pub open spec fn packs_of_items(items: Seq<JsonValue>) -> Seq<PackFacts>
    decreases items.len(),
{
    if items.len() == 0 {
        Seq::empty()
    } else {
        let before = packs_of_items(items.drop_last());
        match pack_from_explore_item(items.last()) {
            Some(p) => before.push(p),
            None => before,
        }
    }
}

/// An explore item that names a pack: it has a `files` array and string
/// `uuid` and `name` members.
pub open spec fn names_a_pack(item: JsonValue) -> bool {
    &&& json_get(item, "files"@) matches Some(JsonValue::Array(_))
    &&& json_get(item, "uuid"@) matches Some(JsonValue::Str(_))
    &&& json_get(item, "name"@) matches Some(JsonValue::Str(_))
}

/// An asset-search item that names a collection: it has string `uuid` and
/// `name` members.
pub open spec fn names_a_collection(item: JsonValue) -> bool {
    &&& json_get(item, "uuid"@) matches Some(JsonValue::Str(_))
    &&& json_get(item, "name"@) matches Some(JsonValue::Str(_))
}

/// `item`'s string members `uuid` and `name` are `uuid` and `name`.
pub open spec fn carries_uuid_and_name(item: JsonValue, uuid: Seq<char>, name: Seq<char>) -> bool {
    &&& json_get(item, "uuid"@) matches Some(JsonValue::Str(u)) && u@ == uuid
    &&& json_get(item, "name"@) matches Some(JsonValue::Str(n)) && n@ == name
}

/// The explore items that name a pack, in order.
pub open spec fn pack_items(items: Seq<JsonValue>) -> Seq<JsonValue> {
    items.filter(|item: JsonValue| names_a_pack(item))
}

/// The asset-search items that name a collection, in order.
pub open spec fn collection_items(items: Seq<JsonValue>) -> Seq<JsonValue> {
    items.filter(|item: JsonValue| names_a_collection(item))
}

/// Every explore item that names a pack yields exactly one pack, in item
/// order, with that item's uuid and name; no other item yields one.
pub proof fn lemma_explore_lists_every_named_pack(items: Seq<JsonValue>)
    ensures
        packs_of_items(items).len() == pack_items(items).len(),
        forall|k: int|
            0 <= k < pack_items(items).len() ==> carries_uuid_and_name(
                pack_items(items)[k],
                #[trigger] packs_of_items(items)[k].uuid,
                packs_of_items(items)[k].name,
            ),
    decreases items.len(),
{
    reveal(Seq::filter);
    if items.len() > 0 {
        lemma_explore_lists_every_named_pack(items.drop_last());
        let last = items.last();
        assert(pack_items(items) == if names_a_pack(last) {
            pack_items(items.drop_last()).push(last)
        } else {
            pack_items(items.drop_last())
        });
        if names_a_pack(last) {
            assert(files_of(last) is Some);
            assert(pack_from_explore_item(last) is Some);
        } else {
            assert(pack_from_explore_item(last) is None);
        }
        assert(packs_of_items(items) == match pack_from_explore_item(last) {
            Some(p) => packs_of_items(items.drop_last()).push(p),
            None => packs_of_items(items.drop_last()),
        });
        let before = pack_items(items.drop_last());
        assert forall|k: int| 0 <= k < pack_items(items).len() implies carries_uuid_and_name(
            pack_items(items)[k],
            #[trigger] packs_of_items(items)[k].uuid,
            packs_of_items(items)[k].name,
        ) by {
            if k < before.len() {
                assert(pack_items(items)[k] == before[k]);
                assert(packs_of_items(items)[k] == packs_of_items(items.drop_last())[k]);
            } else {
                assert(pack_items(items)[k] == last);
                assert(packs_of_items(items)[k] == pack_from_explore_item(last)->Some_0);
            }
        }
    }
}

/// Every asset-search item that names a collection yields exactly one
/// collection, in item order, with that item's uuid and name; no other item
/// yields one.
pub proof fn lemma_collections_list_every_named_collection(items: Seq<JsonValue>)
    ensures
        collections_of_items(items).len() == collection_items(items).len(),
        forall|k: int|
            0 <= k < collection_items(items).len() ==> carries_uuid_and_name(
                collection_items(items)[k],
                #[trigger] collections_of_items(items)[k].uuid,
                collections_of_items(items)[k].name,
            ),
    decreases items.len(),
{
    reveal(Seq::filter);
    if items.len() > 0 {
        lemma_collections_list_every_named_collection(items.drop_last());
        assert(collection_items(items) == if names_a_collection(items.last()) {
            collection_items(items.drop_last()).push(items.last())
        } else {
            collection_items(items.drop_last())
        });
    }
}

/// The items of an asset-search answer, or why there are none.
pub open spec fn search_items(response: JsonValue) -> Result<Seq<JsonValue>, GraphqlFailure> {
    if json_get(response, "errors"@) is Some {
        Err(GraphqlFailure::Errors)
    } else {
        match json_path(response, seq!["data"@, "assetsSearch"@, "items"@]) {
            Some(items) => match json_as_array(items) {
                Some(list) => Ok(list),
                None => Err(GraphqlFailure::MissingItems),
            },
            None => Err(GraphqlFailure::MissingItems),
        }
    }
}

fn find_by<'a>(items: &'a Vec<JsonValue>, field: &str, value: &str) -> (r: Option<&'a JsonValue>)
    ensures
        match r {
            Some(x) => find_by_field(items@, field@, value@) == Some(*x),
            None => find_by_field(items@, field@, value@) is None,
        },
{
    let mut i: usize = 0;
    assert(items@.subrange(0, items@.len() as int) =~= items@);
    while i < items.len()
        invariant
            i <= items@.len(),
            find_by_field(items@, field@, value@) == find_by_field(
                items@.subrange(i as int, items@.len() as int),
                field@,
                value@,
            ),
        decreases items@.len() - i,
    {
        let ghost rest = items@.subrange(i as int, items@.len() as int);
        assert(rest.drop_first() =~= items@.subrange(i + 1, items@.len() as int));
        let matched = match items[i].str_at(field) {
            Some(s) => str_eq(s, value),
            None => false,
        };
        if matched {
            return Some(&items[i]);
        }
        i = i + 1;
    }
    None
}

fn file_url(files: Option<&Vec<JsonValue>>, kind: &str) -> (r: String)
    ensures
        r@ == file_url_of(
            match files {
                Some(f) => Some(f@),
                None => None,
            },
            kind@,
        ),
{
    match files {
        Some(fs) => match find_by(fs, "asset_file_type_slug", kind) {
            Some(file) => value_string(file, "url"),
            None => String::new(),
        },
        None => String::new(),
    }
}

fn child_count(item: &JsonValue, kind: &str) -> (r: Option<i64>)
    ensures
        r == child_count_of(*item, kind@),
{
    match item.get("child_asset_counts") {
        Some(counts) => match counts.as_array() {
            Some(cs) => match find_by(cs, "type", kind) {
                Some(entry) => match entry.get("count") {
                    Some(n) => n.as_i64(),
                    None => None,
                },
                None => None,
            },
            None => None,
        },
        None => None,
    }
}

fn files_array(item: &JsonValue) -> (r: Option<&Vec<JsonValue>>)
    ensures
        match r {
            Some(f) => files_of(*item) == Some(f@),
            None => files_of(*item) is None,
        },
{
    match item.get("files") {
        Some(f) => f.as_array(),
        None => None,
    }
}

/// The collection summary of one asset-search item.
pub fn collection_from_search_item(item: &JsonValue) -> (r: Option<CollectionSummary>)
    ensures
        match r {
            Some(c) => collection_from_item(*item) == Some(collection_facts(c)),
            None => collection_from_item(*item) is None,
        },
{
    let uuid = match item.str_at("uuid") {
        Some(s) => s.to_owned(),
        None => return None,
    };
    let name = match item.str_at("name") {
        Some(s) => s.to_owned(),
        None => return None,
    };
    let files = files_array(item);
    let sample_count = match child_count(item, "sample") {
        Some(n) => n,
        None => 0,
    };
    let pack_count = match child_count(item, "pack") {
        Some(n) => n,
        None => 0,
    };
    let created_by_current_user = match item.get("public") {
        Some(p) => match p.as_bool() {
            Some(public) => !public,
            None => false,
        },
        None => false,
    };
    let creator_username = match get_path2(item, "creator", "username") {
        Some(u) => match u.as_str() {
            Some(s) => s.to_owned(),
            None => String::new(),
        },
        None => String::new(),
    };
    let c = CollectionSummary {
        uuid,
        name,
        description: String::new(),
        cover_url: file_url(files, "cover_image"),
        permalink: value_string(item, "permalink_slug"),
        sample_count: sample_count as i32,
        pack_count: pack_count as i32,
        created_by_current_user,
        creator_username,
    };
    assert(collection_from_item(*item) == Some(collection_facts(c)));
    Some(c)
}

/// The pack summary of one explore item.
pub fn pack_from_search_item(item: &JsonValue) -> (r: Option<PackSummary>)
    ensures
        match r {
            Some(p) => pack_from_explore_item(*item) == Some(pack_facts(p)),
            None => pack_from_explore_item(*item) is None,
        },
{
    let files = match files_array(item) {
        Some(f) => f,
        None => return None,
    };
    let uuid = match item.str_at("uuid") {
        Some(s) => s.to_owned(),
        None => return None,
    };
    let name = match item.str_at("name") {
        Some(s) => s.to_owned(),
        None => return None,
    };
    let p = PackSummary {
        uuid,
        name,
        cover_url: file_url(Some(files), "cover_image"),
        banner_url: file_url(Some(files), "banner_image"),
        demo_url: file_url(Some(files), "preview_mp3"),
        genre: value_string(item, "main_genre"),
        provider_name: String::new(),
        permalink: value_string(item, "permalink_base_url"),
        sample_count: child_count(item, "sample"),
    };
    assert(pack_from_explore_item(*item) == Some(pack_facts(p)));
    Some(p)
}

fn asset_search_items(response: &JsonValue) -> (r: Result<&Vec<JsonValue>, GraphqlFailure>)
    ensures
        match r {
            Ok(items) => search_items(*response) == Ok::<Seq<JsonValue>, GraphqlFailure>(items@),
            Err(e) => search_items(*response) == Err::<Seq<JsonValue>, GraphqlFailure>(e),
        },
{
    if response.get("errors").is_some() {
        return Err(GraphqlFailure::Errors);
    }
    match get_path3(response, "data", "assetsSearch", "items") {
        Some(items) => match items.as_array() {
            Some(list) => Ok(list),
            None => Err(GraphqlFailure::MissingItems),
        },
        None => Err(GraphqlFailure::MissingItems),
    }
}

/// The collections listed in an asset-search answer, in order.
pub fn collections_from_response(response: &JsonValue) -> (r: Result<
    Vec<CollectionSummary>,
    GraphqlFailure,
>)
    ensures
        match search_items(*response) {
            Ok(items) => r matches Ok(list) && list@.map_values(
                |c: CollectionSummary| collection_facts(c),
            ) == collections_of_items(items),
            Err(e) => r == Err::<Vec<CollectionSummary>, GraphqlFailure>(e),
        },
{
    let items = match asset_search_items(response) {
        Ok(items) => items,
        Err(e) => return Err(e),
    };
    let mut out: Vec<CollectionSummary> = Vec::new();
    let mut i: usize = 0;
    while i < items.len()
        invariant
            i <= items@.len(),
            out@.map_values(|c: CollectionSummary| collection_facts(c)) == collections_of_items(
                items@.subrange(0, i as int),
            ),
        decreases items@.len() - i,
    {
        let ghost prefix = items@.subrange(0, i + 1);
        assert(prefix.drop_last() =~= items@.subrange(0, i as int));
        let ghost before = out@;
        if let Some(c) = collection_from_search_item(&items[i]) {
            out.push(c);
            assert(out@.map_values(|c: CollectionSummary| collection_facts(c)) =~= before.map_values(
                |c: CollectionSummary| collection_facts(c),
            ).push(collection_facts(c)));
        }
        i = i + 1;
    }
    assert(items@.subrange(0, i as int) =~= items@);
    Ok(out)
}

/// The packs listed in an explore answer, in order.
pub fn explore_packs_from_response(response: &JsonValue) -> (r: Result<
    Vec<PackSummary>,
    GraphqlFailure,
>)
    ensures
        match search_items(*response) {
            Ok(items) => r matches Ok(list) && list@.map_values(|p: PackSummary| pack_facts(p))
                == packs_of_items(items),
            Err(e) => r == Err::<Vec<PackSummary>, GraphqlFailure>(e),
        },
{
    let items = match asset_search_items(response) {
        Ok(items) => items,
        Err(e) => return Err(e),
    };
    let mut out: Vec<PackSummary> = Vec::new();
    let mut i: usize = 0;
    while i < items.len()
        invariant
            i <= items@.len(),
            out@.map_values(|p: PackSummary| pack_facts(p)) == packs_of_items(
                items@.subrange(0, i as int),
            ),
        decreases items@.len() - i,
    {
        let ghost prefix = items@.subrange(0, i + 1);
        assert(prefix.drop_last() =~= items@.subrange(0, i as int));
        let ghost before = out@;
        if let Some(p) = pack_from_search_item(&items[i]) {
            out.push(p);
            assert(out@.map_values(|p: PackSummary| pack_facts(p)) =~= before.map_values(
                |p: PackSummary| pack_facts(p),
            ).push(pack_facts(p)));
        }
        i = i + 1;
    }
    assert(items@.subrange(0, i as int) =~= items@);
    Ok(out)
}

/// The `page` and `limit` variables of the collections query: page at
/// least 1 (default 1), limit 1 to 100 (default 60).
pub fn collections_query_variables(page: Option<i32>, per_page: Option<i32>) -> (r: (i32, i32))
    ensures
        r.0 == requested_page(page),
        r.1 == clamp(or_default_i32(per_page, 60) as int, 1, 100),
{
    let p = match page {
        Some(p) => if p < 1 {
            1
        } else {
            p
        },
        None => 1,
    };
    let limit = match per_page {
        Some(n) => if n < 1 {
            1
        } else if n > 100 {
            100
        } else {
            n
        },
        None => 60,
    };
    (p, limit)
}

/// The `limit` variable of the explore query: 1 to 50, default 12.
pub fn explore_query_limit(limit: Option<i32>) -> (r: i32)
    ensures
        r == clamp(or_default_i32(limit, 12) as int, 1, 50),
{
    match limit {
        Some(n) => if n < 1 {
            1
        } else if n > 50 {
            50
        } else {
            n
        },
        None => 12,
    }
}

/// What the collections command reports when the answer has no item list.
pub fn collections_missing_items_message() -> (r: String)
    ensures
        r@ == "Collections response did not include assetsSearch.items"@,
{
    "Collections response did not include assetsSearch.items".to_owned()
}

/// What the explore command reports when the answer has no item list.
pub fn explore_missing_items_message() -> (r: String)
    ensures
        r@ == "GraphQL response did not include assetsSearch.items"@,
{
    "GraphQL response did not include assetsSearch.items".to_owned()
}

/// The collections command's outcome for an answer: the collections it
/// lists, in order; when the answer has an `errors` member, the message
/// with `errors_text`, that member's JSON text as the answer's parser
/// renders it; the missing-items message when it has no item list.
pub fn collections_outcome(response: &JsonValue, errors_text: &str) -> (r: Result<
    Vec<CollectionSummary>,
    String,
>)
    ensures
        match search_items(*response) {
            Ok(items) => r matches Ok(list) && list@.map_values(
                |c: CollectionSummary| collection_facts(c),
            ) == collections_of_items(items),
            Err(GraphqlFailure::Errors) => r matches Err(m) && m@ == "Collections returned errors: "@
                + errors_text@,
            Err(GraphqlFailure::MissingItems) => r matches Err(m) && m@
                == "Collections response did not include assetsSearch.items"@,
        },
{
    match collections_from_response(response) {
        Ok(list) => Ok(list),
        Err(GraphqlFailure::Errors) => Err(concat("Collections returned errors: ", errors_text)),
        Err(GraphqlFailure::MissingItems) => Err(collections_missing_items_message()),
    }
}

/// The explore command's outcome for an answer: the packs it lists, in
/// order; when the answer has an `errors` member, the message with
/// `errors_text`, that member's JSON text as the answer's parser renders
/// it; the missing-items message when it has no item list.
pub fn explore_outcome(response: &JsonValue, errors_text: &str) -> (r: Result<Vec<PackSummary>, String>)
    ensures
        match search_items(*response) {
            Ok(items) => r matches Ok(list) && list@.map_values(|p: PackSummary| pack_facts(p))
                == packs_of_items(items),
            Err(GraphqlFailure::Errors) => r matches Err(m) && m@ == "GraphQL returned errors: "@
                + errors_text@,
            Err(GraphqlFailure::MissingItems) => r matches Err(m) && m@
                == "GraphQL response did not include assetsSearch.items"@,
        },
{
    match explore_packs_from_response(response) {
        Ok(list) => Ok(list),
        Err(GraphqlFailure::Errors) => Err(concat("GraphQL returned errors: ", errors_text)),
        Err(GraphqlFailure::MissingItems) => Err(explore_missing_items_message()),
    }
}

} // verus!
