use supuraisu::graphql::{collections_outcome, explore_outcome};
use supuraisu::graphql::{
    collection_from_search_item, collections_from_response, collections_missing_items_message,
    collections_query_variables, explore_missing_items_message, explore_packs_from_response, explore_query_limit,
    pack_from_search_item, GraphqlFailure,
};
use supuraisu::json::{JsonNumber, JsonValue};

fn s(text: &str) -> JsonValue {
    JsonValue::Str(text.to_string())
}

fn i(v: i64) -> JsonValue {
    if v >= 0 {
        JsonValue::Number(JsonNumber::PosInt(v as u64))
    } else {
        JsonValue::Number(JsonNumber::NegInt(v))
    }
}

fn obj(members: Vec<(&str, JsonValue)>) -> JsonValue {
    JsonValue::Object(members.into_iter().map(|(k, v)| (k.to_string(), v)).collect())
}

fn file(kind: &str, url: &str) -> JsonValue {
    obj(vec![("asset_file_type_slug", s(kind)), ("url", s(url))])
}

fn count(kind: &str, n: i64) -> JsonValue {
    obj(vec![("type", s(kind)), ("count", i(n))])
}

fn answer(items: Vec<JsonValue>) -> JsonValue {
    obj(vec![("data", obj(vec![("assetsSearch", obj(vec![("items", JsonValue::Array(items))]))]))])
}

#[test]
fn collection_item_fields() {
    let item = obj(vec![
        ("uuid", s("c1")),
        ("name", s("Faves")),
        ("public", JsonValue::Bool(false)),
        ("permalink_slug", s("faves")),
        ("creator", obj(vec![("username", s("ann"))])),
        ("child_asset_counts", JsonValue::Array(vec![count("pack", 2), count("sample", 40), count("sample", 99)])),
        ("files", JsonValue::Array(vec![file("banner_image", "b"), file("cover_image", "c.jpg")])),
    ]);
    let c = collection_from_search_item(&item).unwrap();
    assert_eq!(c.uuid, "c1");
    assert_eq!(c.name, "Faves");
    assert_eq!(c.description, "");
    assert_eq!(c.cover_url, "c.jpg");
    assert_eq!(c.permalink, "faves");
    assert_eq!(c.sample_count, 40);
    assert_eq!(c.pack_count, 2);
    assert!(c.created_by_current_user);
    assert_eq!(c.creator_username, "ann");
}

#[test]
fn collection_item_defaults_and_skips() {
    let bare = obj(vec![("uuid", s("c2")), ("name", s("Bare"))]);
    let c = collection_from_search_item(&bare).unwrap();
    assert_eq!((c.sample_count, c.pack_count), (0, 0));
    assert!(!c.created_by_current_user);
    assert_eq!(c.cover_url, "");
    assert_eq!(c.creator_username, "");
    assert!(collection_from_search_item(&obj(vec![("uuid", s("c3"))])).is_none());
    assert!(collection_from_search_item(&obj(vec![("uuid", i(3)), ("name", s("x"))])).is_none());
    let public = obj(vec![("uuid", s("c4")), ("name", s("P")), ("public", JsonValue::Bool(true))]);
    assert!(!collection_from_search_item(&public).unwrap().created_by_current_user);
    let big = obj(vec![
        ("uuid", s("c5")),
        ("name", s("Big")),
        ("child_asset_counts", JsonValue::Array(vec![count("sample", 4_294_967_301)])),
    ]);
    assert_eq!(collection_from_search_item(&big).unwrap().sample_count, 5);
}

#[test]
fn explore_item_fields() {
    let item = obj(vec![
        ("uuid", s("p1")),
        ("name", s("Kit")),
        ("main_genre", s("house")),
        ("permalink_base_url", s("kit")),
        ("files", JsonValue::Array(vec![file("cover_image", "c"), file("banner_image", "b"), file("preview_mp3", "d")])),
        ("child_asset_counts", JsonValue::Array(vec![count("sample", 120)])),
    ]);
    let p = pack_from_search_item(&item).unwrap();
    assert_eq!((p.uuid.as_str(), p.name.as_str()), ("p1", "Kit"));
    assert_eq!((p.cover_url.as_str(), p.banner_url.as_str(), p.demo_url.as_str()), ("c", "b", "d"));
    assert_eq!(p.genre, "house");
    assert_eq!(p.provider_name, "");
    assert_eq!(p.permalink, "kit");
    assert_eq!(p.sample_count, Some(120));
    let no_files = obj(vec![("uuid", s("p2")), ("name", s("NoFiles"))]);
    assert!(pack_from_search_item(&no_files).is_none());
    let no_count = obj(vec![("uuid", s("p3")), ("name", s("N")), ("files", JsonValue::Array(Vec::new()))]);
    assert_eq!(pack_from_search_item(&no_count).unwrap().sample_count, None);
}

#[test]
fn responses_list_items_in_order_or_fail() {
    let good = answer(vec![
        obj(vec![("uuid", s("a")), ("name", s("A"))]),
        obj(vec![("name", s("skipped"))]),
        obj(vec![("uuid", s("b")), ("name", s("B"))]),
    ]);
    let list = collections_from_response(&good).unwrap();
    assert_eq!(list.iter().map(|c| c.uuid.clone()).collect::<Vec<_>>(), vec!["a", "b"]);
    let errors = obj(vec![("errors", JsonValue::Array(Vec::new())), ("data", JsonValue::Null)]);
    assert_eq!(collections_from_response(&errors).err(), Some(GraphqlFailure::Errors));
    assert_eq!(explore_packs_from_response(&errors).err(), Some(GraphqlFailure::Errors));
    let missing = obj(vec![("data", obj(Vec::new()))]);
    assert_eq!(collections_from_response(&missing).err(), Some(GraphqlFailure::MissingItems));
    let not_array = obj(vec![("data", obj(vec![("assetsSearch", obj(vec![("items", s("x"))]))]))]);
    assert_eq!(explore_packs_from_response(&not_array).err(), Some(GraphqlFailure::MissingItems));
    assert!(explore_packs_from_response(&answer(Vec::new())).unwrap().is_empty());
}

#[test]
fn query_variables() {
    assert_eq!(collections_query_variables(None, None), (1, 60));
    assert_eq!(collections_query_variables(Some(0), Some(500)), (1, 100));
    assert_eq!(collections_query_variables(Some(3), Some(0)), (3, 1));
    assert_eq!(explore_query_limit(None), 12);
    assert_eq!(explore_query_limit(Some(-4)), 1);
    assert_eq!(explore_query_limit(Some(80)), 50);
    assert_eq!(explore_query_limit(Some(20)), 20);
}

#[test]
fn missing_items_messages() {
    assert_eq!(collections_missing_items_message(), "Collections response did not include assetsSearch.items");
    assert_eq!(explore_missing_items_message(), "GraphQL response did not include assetsSearch.items");
}

#[test]
fn outcomes_carry_the_commands_messages() {
    let errors = obj(vec![("errors", JsonValue::Array(vec![s("bad")]))]);
    assert_eq!(
        collections_outcome(&errors, r#"["bad"]"#).err(),
        Some(r#"Collections returned errors: ["bad"]"#.to_string())
    );
    assert_eq!(explore_outcome(&errors, r#"["bad"]"#).err(), Some(r#"GraphQL returned errors: ["bad"]"#.to_string()));
    let missing = obj(vec![("data", JsonValue::Null)]);
    assert_eq!(
        collections_outcome(&missing, "").err(),
        Some("Collections response did not include assetsSearch.items".to_string())
    );
    assert_eq!(
        explore_outcome(&missing, "").err(),
        Some("GraphQL response did not include assetsSearch.items".to_string())
    );
    let good = answer(vec![obj(vec![("uuid", s("a")), ("name", s("A")), ("files", JsonValue::Array(Vec::new()))])]);
    assert_eq!(collections_outcome(&good, "").unwrap().len(), 1);
    assert_eq!(explore_outcome(&good, "").unwrap()[0].uuid, "a");
}
