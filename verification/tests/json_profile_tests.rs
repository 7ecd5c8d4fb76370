use supuraisu::json::{get_path2, get_path3, value_string, JsonNumber, JsonValue};
use supuraisu::profile::{
    id_token_claims_bytes, id_token_claims_segment, profile_from_auth0_value, profile_from_id_token, profile_from_responses,
    profile_from_splice_session_value, text_after_last, text_before_first,
};

fn s(text: &str) -> JsonValue {
    JsonValue::Str(text.to_string())
}

fn n(v: u64) -> JsonValue {
    JsonValue::Number(JsonNumber::PosInt(v))
}

fn obj(members: Vec<(&str, JsonValue)>) -> JsonValue {
    JsonValue::Object(members.into_iter().map(|(k, v)| (k.to_string(), v)).collect())
}

#[test]
fn json_accessors() {
    let v = obj(vec![
        ("name", s("kit")),
        ("count", n(3)),
        ("neg", JsonValue::Number(JsonNumber::NegInt(-2))),
        ("frac", JsonValue::Number(JsonNumber::Float)),
        ("flag", JsonValue::Bool(true)),
        ("list", JsonValue::Array(vec![n(1)])),
    ]);
    assert_eq!(v.get("name").and_then(|x| x.as_str()), Some("kit"));
    assert_eq!(v.get("count").and_then(|x| x.as_u64()), Some(3));
    assert_eq!(v.get("count").and_then(|x| x.as_i64()), Some(3));
    assert_eq!(v.get("neg").and_then(|x| x.as_u64()), None);
    assert_eq!(v.get("neg").and_then(|x| x.as_i64()), Some(-2));
    assert_eq!(v.get("frac").and_then(|x| x.as_i64()), None);
    assert_eq!(v.get("flag").and_then(|x| x.as_bool()), Some(true));
    assert_eq!(v.get("list").and_then(|x| x.as_array()).map(|a| a.len()), Some(1));
    assert!(v.is_object());
    assert!(!s("x").is_object());
    assert!(v.get("missing").is_none());
    assert!(s("x").get("name").is_none());
    assert_eq!(value_string(&v, "name"), "kit");
    assert_eq!(value_string(&v, "count"), "");
    assert_eq!(JsonValue::Number(JsonNumber::PosInt(u64::MAX)).as_i64(), None);
}

#[test]
fn json_paths() {
    let v = obj(vec![("data", obj(vec![("assetsSearch", obj(vec![("items", JsonValue::Array(Vec::new()))]))]))]);
    assert!(get_path3(&v, "data", "assetsSearch", "items").is_some());
    assert!(get_path3(&v, "data", "assetsSearch", "other").is_none());
    let c = obj(vec![("creator", obj(vec![("username", s("zed"))]))]);
    assert_eq!(get_path2(&c, "creator", "username").and_then(|x| x.as_str()), Some("zed"));
}

#[test]
fn splice_session_profile() {
    let v = obj(vec![
        ("id", n(77)),
        ("uuid", s("u-77")),
        ("username", s("beat")),
        ("email", s("b@x.com")),
        ("credits", n(12)),
        ("sounds_plan", JsonValue::Number(JsonNumber::NegInt(-1))),
        ("sounds_status", s("active")),
        ("channel", s("ch")),
        ("pubnub_key", s("pk")),
        ("features", obj(vec![("a", JsonValue::Bool(true)), ("b", n(1)), ("c", JsonValue::Bool(false))])),
    ]);
    let p = profile_from_splice_session_value(&v);
    assert_eq!(p.id, 77);
    assert_eq!(p.uuid, "u-77");
    assert_eq!(p.username, "beat");
    assert_eq!(p.credits, 12);
    assert_eq!(p.sounds_plan, -1);
    assert_eq!(p.sounds_state, "");
    assert_eq!(p.channel, "ch");
    assert_eq!(p.features, vec![("a".to_string(), true), ("c".to_string(), false)]);

    let listed = obj(vec![("features", JsonValue::Array(vec![s("x"), n(3), s("y")]))]);
    let p = profile_from_splice_session_value(&listed);
    assert_eq!(p.features, vec![("x".to_string(), true), ("y".to_string(), true)]);
    assert_eq!(p.id, 0);
    assert_eq!(p.username, "");
}

#[test]
fn splice_session_plan_truncates_to_32_bits() {
    let v = obj(vec![("sounds_plan", n(4_294_967_297))]);
    assert_eq!(profile_from_splice_session_value(&v).sounds_plan, 1);
}

#[test]
fn auth0_profile_name_fallbacks() {
    let v = obj(vec![
        ("email", s("mia@example.com")),
        ("nickname", s("mia_n")),
        ("name", s("Mia")),
        ("sub", s("auth0|abc123")),
        ("picture", s("https://pic")),
    ]);
    let p = profile_from_auth0_value(&v);
    assert_eq!(p.username, "mia_n");
    assert_eq!(p.uuid, "abc123");
    assert_eq!(p.avatar_url, "https://pic");
    assert_eq!(p.credits, 0);

    let v = obj(vec![("email", s("mia@example.com")), ("name", s("Mia"))]);
    assert_eq!(profile_from_auth0_value(&v).username, "Mia");

    let v = obj(vec![("email", s("mia@example.com")), ("nickname", s(""))]);
    assert_eq!(profile_from_auth0_value(&v).username, "mia");

    // An empty nickname does not fall back to the name.
    let v = obj(vec![("email", s("mia@example.com")), ("nickname", s("")), ("name", s("Mia"))]);
    assert_eq!(profile_from_auth0_value(&v).username, "mia");

    let v = obj(vec![("sub", s("plain"))]);
    let p = profile_from_auth0_value(&v);
    assert_eq!(p.uuid, "plain");
    assert_eq!(p.username, "");
}

#[test]
fn text_fields() {
    assert_eq!(text_before_first("a@b@c", '@'), "a");
    assert_eq!(text_before_first("abc", '@'), "abc");
    assert_eq!(text_after_last("a|b|c", '|'), "c");
    assert_eq!(text_after_last("abc", '|'), "abc");
}

#[test]
fn id_token_segments() {
    assert_eq!(id_token_claims_segment("aaa.bbb.ccc"), Some("bbb".to_string()));
    assert_eq!(id_token_claims_segment("aaa.bbb"), Some("bbb".to_string()));
    assert_eq!(id_token_claims_segment("aaa"), None);
    // {"sub":"x"} in unpadded URL-safe base64.
    let token = "h.eyJzdWIiOiJ4In0.sig";
    assert_eq!(id_token_claims_bytes(Some(token)), Some(br#"{"sub":"x"}"#.to_vec()));
    assert_eq!(id_token_claims_bytes(Some("h.!!!.sig")), None);
    assert_eq!(id_token_claims_bytes(Some("nodots")), None);
    assert_eq!(id_token_claims_bytes(None), None);
}

#[test]
fn profile_source_order() {
    let session = obj(vec![("username", s("from-session"))]);
    let userinfo = obj(vec![("nickname", s("from-userinfo"))]);
    let claims = "h.eyJuaWNrbmFtZSI6ImZyb20tY2xhaW1zIn0.sig";
    let p = profile_from_responses(&session, Some(&userinfo), Some(claims)).unwrap();
    assert_eq!(p.username, "from-session");
    let p = profile_from_responses(&JsonValue::Null, Some(&userinfo), Some(claims)).unwrap();
    assert_eq!(p.username, "from-userinfo");
    let p = profile_from_responses(&JsonValue::Null, Some(&s("not an object")), Some(claims)).unwrap();
    assert_eq!(p.username, "from-claims");
    let p = profile_from_responses(&JsonValue::Null, None, Some(claims)).unwrap();
    assert_eq!(p.username, "from-claims");
    assert_eq!(
        profile_from_responses(&JsonValue::Null, None, Some("h.bm90IGpzb24.sig")).err(),
        Some("Splice profile was empty after login".to_string())
    );
}

#[test]
fn id_token_profile_from_claims() {
    let p = profile_from_id_token(Some("h.eyJzdWIiOiJhdXRoMHx1MSIsImVtYWlsIjoia2ltQHguaW8ifQ.s")).unwrap();
    assert_eq!(p.uuid, "u1");
    assert_eq!(p.email, "kim@x.io");
    assert_eq!(p.username, "kim");
    assert!(profile_from_id_token(Some("h.bm90IGpzb24.s")).is_none());
    assert!(profile_from_id_token(Some("nodots")).is_none());
    assert!(profile_from_id_token(None).is_none());
}
