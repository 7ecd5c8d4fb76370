//! The signed-in user's Splice profile, read from the Splice session
//! endpoint, from Auth0's user info, or from the claims of an ID token.

use vstd::prelude::*;
use base64::Engine;
use crate::json::{
    json_as_array, json_as_bool, json_as_i64, json_as_str, json_as_u64, json_get,
    json_document, json_string_or_empty, json_str_at, parse_json_document, value_string, JsonNumber, JsonValue,
};
use crate::text::{chars_of, string_from_chars};

verus! {

/// A Splice user profile.
#[derive(Debug, Clone)]
pub struct SpliceProfile {
    pub id: u64,
    pub uuid: String,
    pub username: String,
    pub email: String,
    pub avatar_url: String,
    pub credits: u64,
    pub sounds_plan: i32,
    pub sounds_state: String,
    pub sounds_status: String,
    pub channel: String,
    pub pubnub_key: String,
    /// Feature flags as assignments in order; a later one for the same name
    /// overrides an earlier one.
    pub features: Vec<(String, bool)>,
}

impl SpliceProfile {
    /// A field-by-field copy.
    pub fn duplicate(&self) -> (r: SpliceProfile)
        ensures
            r.id == self.id,
            r.uuid@ == self.uuid@,
            r.username@ == self.username@,
            r.email@ == self.email@,
            r.avatar_url@ == self.avatar_url@,
            r.credits == self.credits,
            r.sounds_plan == self.sounds_plan,
            r.sounds_state@ == self.sounds_state@,
            r.sounds_status@ == self.sounds_status@,
            r.channel@ == self.channel@,
            r.pubnub_key@ == self.pubnub_key@,
            features_view(r.features@) == features_view(self.features@),
    {
        let mut features: Vec<(String, bool)> = Vec::new();
        let mut i: usize = 0;
        while i < self.features.len()
            invariant
                i <= self.features@.len(),
                features_view(features@) == features_view(self.features@.subrange(0, i as int)),
            decreases self.features@.len() - i,
        {
            let ghost before = features@;
            let name = self.features[i].0.clone();
            let flag = self.features[i].1;
            features.push((name, flag));
            assert(features@ == before.push((name, flag)));
            assert(self.features@.subrange(0, i + 1) =~= self.features@.subrange(0, i as int).push(
                self.features@[i as int],
            ));
            assert(features_view(features@) =~= features_view(before).push((name@, flag)));
            i = i + 1;
            assert(features_view(features@) =~= features_view(self.features@.subrange(0, i as int)));
        }
        assert(self.features@.subrange(0, i as int) =~= self.features@);
        SpliceProfile {
            id: self.id,
            uuid: self.uuid.clone(),
            username: self.username.clone(),
            email: self.email.clone(),
            avatar_url: self.avatar_url.clone(),
            credits: self.credits,
            sounds_plan: self.sounds_plan,
            sounds_state: self.sounds_state.clone(),
            sounds_status: self.sounds_status.clone(),
            channel: self.channel.clone(),
            pubnub_key: self.pubnub_key.clone(),
            features,
        }
    }
}

/// The feature assignments with their names as text.
pub open spec fn features_view(f: Seq<(String, bool)>) -> Seq<(Seq<char>, bool)> {
    f.map_values(|p: (String, bool)| (p.0@, p.1))
}

/// The boolean members of an object, in order.
pub open spec fn object_features(entries: Seq<(String, JsonValue)>) -> Seq<(Seq<char>, bool)>
    decreases entries.len(),
{
    if entries.len() == 0 {
        Seq::empty()
    } else {
        let before = object_features(entries.drop_last());
        match json_as_bool(entries.last().1) {
            Some(b) => before.push((entries.last().0@, b)),
            None => before,
        }
    }
}

/// The string items of an array, each an enabled feature, in order.
pub open spec fn array_features(items: Seq<JsonValue>) -> Seq<(Seq<char>, bool)>
    decreases items.len(),
{
    if items.len() == 0 {
        Seq::empty()
    } else {
        let before = array_features(items.drop_last());
        match json_as_str(items.last()) {
            Some(name) => before.push((name, true)),
            None => before,
        }
    }
}

/// The features of a Splice session: an object of flags, or an array of
/// enabled names; none otherwise.
pub open spec fn session_features(value: JsonValue) -> Seq<(Seq<char>, bool)> {
    match json_get(value, "features"@) {
        Some(JsonValue::Object(entries)) => object_features(entries@),
        Some(JsonValue::Array(items)) => array_features(items@),
        _ => Seq::empty(),
    }
}

/// The `u64` member `key`, or 0.
pub open spec fn u64_or_zero(value: JsonValue, key: Seq<char>) -> u64 {
    match json_get(value, key) {
        Some(v) => match json_as_u64(v) {
            Some(n) => n,
            None => 0,
        },
        None => 0,
    }
}

/// The `i64` member `key`, or 0.
pub open spec fn i64_or_zero(value: JsonValue, key: Seq<char>) -> i64 {
    match json_get(value, key) {
        Some(v) => match json_as_i64(v) {
            Some(n) => n,
            None => 0,
        },
        None => 0,
    }
}

/// `p` is the profile the Splice session document `value` describes.
pub open spec fn is_session_profile(p: SpliceProfile, value: JsonValue) -> bool {
    &&& p.id == u64_or_zero(value, "id"@)
    &&& p.uuid@ == json_string_or_empty(value, "uuid"@)
    &&& p.username@ == json_string_or_empty(value, "username"@)
    &&& p.email@ == json_string_or_empty(value, "email"@)
    &&& p.avatar_url@ == json_string_or_empty(value, "avatar_url"@)
    &&& p.credits == u64_or_zero(value, "credits"@)
    &&& p.sounds_plan == i64_or_zero(value, "sounds_plan"@) as i32
    &&& p.sounds_state@ == json_string_or_empty(value, "sounds_state"@)
    &&& p.sounds_status@ == json_string_or_empty(value, "sounds_status"@)
    &&& p.channel@ == json_string_or_empty(value, "channel"@)
    &&& p.pubnub_key@ == json_string_or_empty(value, "pubnub_key"@)
    &&& features_view(p.features@) == session_features(value)
}

/// A profile built from a Splice session document carries the document's
/// own members: each text field is the string member of the same name
/// (`avatar_url` from `"avatar_url"`, and so on), empty when the document has
/// no such string; `id` and `credits` are the non-negative integer members
/// of those names, 0 otherwise.
pub proof fn lemma_session_profile_reads_its_members(p: SpliceProfile, value: JsonValue)
    requires
        is_session_profile(p, value),
    ensures
        match json_get(value, "uuid"@) {
            Some(JsonValue::Str(text)) => p.uuid@ == text@,
            _ => p.uuid@ == Seq::<char>::empty(),
        },
        match json_get(value, "username"@) {
            Some(JsonValue::Str(text)) => p.username@ == text@,
            _ => p.username@ == Seq::<char>::empty(),
        },
        match json_get(value, "email"@) {
            Some(JsonValue::Str(text)) => p.email@ == text@,
            _ => p.email@ == Seq::<char>::empty(),
        },
        match json_get(value, "avatar_url"@) {
            Some(JsonValue::Str(text)) => p.avatar_url@ == text@,
            _ => p.avatar_url@ == Seq::<char>::empty(),
        },
        match json_get(value, "sounds_state"@) {
            Some(JsonValue::Str(text)) => p.sounds_state@ == text@,
            _ => p.sounds_state@ == Seq::<char>::empty(),
        },
        match json_get(value, "sounds_status"@) {
            Some(JsonValue::Str(text)) => p.sounds_status@ == text@,
            _ => p.sounds_status@ == Seq::<char>::empty(),
        },
        match json_get(value, "channel"@) {
            Some(JsonValue::Str(text)) => p.channel@ == text@,
            _ => p.channel@ == Seq::<char>::empty(),
        },
        match json_get(value, "pubnub_key"@) {
            Some(JsonValue::Str(text)) => p.pubnub_key@ == text@,
            _ => p.pubnub_key@ == Seq::<char>::empty(),
        },
        match json_get(value, "id"@) {
            Some(JsonValue::Number(JsonNumber::PosInt(n))) => p.id == n,
            _ => p.id == 0,
        },
        match json_get(value, "credits"@) {
            Some(JsonValue::Number(JsonNumber::PosInt(n))) => p.credits == n,
            _ => p.credits == 0,
        },
{
}

fn object_feature_list(entries: &Vec<(String, JsonValue)>) -> (out: Vec<(String, bool)>)
    ensures
        features_view(out@) == object_features(entries@),
{
    let mut out: Vec<(String, bool)> = Vec::new();
    let mut i: usize = 0;
    while i < entries.len()
        invariant
            i <= entries@.len(),
            features_view(out@) == object_features(entries@.subrange(0, i as int)),
        decreases entries@.len() - i,
    {
        let ghost prefix = entries@.subrange(0, i + 1);
        assert(prefix.drop_last() =~= entries@.subrange(0, i as int));
        if let Some(b) = entries[i].1.as_bool() {
            out.push((entries[i].0.clone(), b));
        }
        i = i + 1;
        assert(features_view(out@) =~= object_features(entries@.subrange(0, i as int)));
    }
    assert(entries@.subrange(0, i as int) =~= entries@);
    out
}

fn array_feature_list(items: &Vec<JsonValue>) -> (out: Vec<(String, bool)>)
    ensures
        features_view(out@) == array_features(items@),
{
    let mut out: Vec<(String, bool)> = Vec::new();
    let mut i: usize = 0;
    while i < items.len()
        invariant
            i <= items@.len(),
            features_view(out@) == array_features(items@.subrange(0, i as int)),
        decreases items@.len() - i,
    {
        let ghost prefix = items@.subrange(0, i + 1);
        assert(prefix.drop_last() =~= items@.subrange(0, i as int));
        if let Some(name) = items[i].as_str() {
            out.push((name.to_owned(), true));
        }
        i = i + 1;
        assert(features_view(out@) =~= array_features(items@.subrange(0, i as int)));
    }
    assert(items@.subrange(0, i as int) =~= items@);
    out
}

fn member_u64_or_zero(value: &JsonValue, key: &str) -> (n: u64)
    ensures
        n == u64_or_zero(*value, key@),
{
    match value.get(key) {
        Some(v) => match v.as_u64() {
            Some(n) => n,
            None => 0,
        },
        None => 0,
    }
}

fn member_i64_or_zero(value: &JsonValue, key: &str) -> (n: i64)
    ensures
        n == i64_or_zero(*value, key@),
{
    match value.get(key) {
        Some(v) => match v.as_i64() {
            Some(n) => n,
            None => 0,
        },
        None => 0,
    }
}

/// The profile in a Splice session document; absent members read as zero
/// or empty.
pub fn profile_from_splice_session_value(value: &JsonValue) -> (p: SpliceProfile)
    ensures
        is_session_profile(p, *value),
{
    let features = match value.get("features") {
        Some(JsonValue::Object(entries)) => object_feature_list(entries),
        Some(JsonValue::Array(items)) => array_feature_list(items),
        _ => Vec::new(),
    };
    let plan = member_i64_or_zero(value, "sounds_plan");
    let p = SpliceProfile {
        id: member_u64_or_zero(value, "id"),
        uuid: value_string(value, "uuid"),
        username: value_string(value, "username"),
        email: value_string(value, "email"),
        avatar_url: value_string(value, "avatar_url"),
        credits: member_u64_or_zero(value, "credits"),
        sounds_plan: plan as i32,
        sounds_state: value_string(value, "sounds_state"),
        sounds_status: value_string(value, "sounds_status"),
        channel: value_string(value, "channel"),
        pubnub_key: value_string(value, "pubnub_key"),
        features,
    };
    assert(p.sounds_plan == i64_or_zero(*value, "sounds_plan"@) as i32);
    assert(features_view(p.features@) == session_features(*value));
    p
}

// ---------------------------------------------------------------------------
// Auth0 profiles
// ---------------------------------------------------------------------------

/// The index of the first `c` in `s`, or `s.len()` when there is none.
pub open spec fn find_char(s: Seq<char>, c: char) -> int
    decreases s.len(),
{
    if s.len() == 0 {
        0
    } else if s[0] == c {
        0
    } else {
        1 + find_char(s.drop_first(), c)
    }
}

/// The index just after the last `c` in `s`, or 0 when there is none.
pub open spec fn after_last_char(s: Seq<char>, c: char) -> int
    decreases s.len(),
{
    if s.len() == 0 {
        0
    } else if s.last() == c {
        s.len() as int
    } else {
        after_last_char(s.drop_last(), c)
    }
}

/// `s.split(c).next()`: the text before the first `c`.
pub open spec fn before_first(s: Seq<char>, c: char) -> Seq<char> {
    s.subrange(0, find_char(s, c))
}

/// `s.rsplit(c).next()`: the text after the last `c`.
pub open spec fn after_last(s: Seq<char>, c: char) -> Seq<char> {
    s.subrange(after_last_char(s, c), s.len() as int)
}

/// `s.split(c).nth(1)`: the text between the first and second `c`.
pub open spec fn second_field(s: Seq<char>, c: char) -> Option<Seq<char>> {
    let i = find_char(s, c);
    if i < s.len() {
        Some(before_first(s.subrange(i + 1, s.len() as int), c))
    } else {
        None
    }
}

proof fn lemma_find_char_bounds(s: Seq<char>, c: char)
    ensures
        0 <= find_char(s, c) <= s.len(),
        find_char(s, c) < s.len() ==> s[find_char(s, c)] == c,
        forall|k: int| 0 <= k < find_char(s, c) ==> s[k] != c,
    decreases s.len(),
{
    if s.len() > 0 && s[0] != c {
        lemma_find_char_bounds(s.drop_first(), c);
        assert forall|k: int| 0 <= k < find_char(s, c) implies s[k] != c by {
            if k > 0 {
                assert(s[k] == s.drop_first()[k - 1]);
            }
        }
    }
}

/// The index of the first `c` in `cs`, or its length.
fn index_of_char(cs: &Vec<char>, c: char) -> (i: usize)
    ensures
        i as int == find_char(cs@, c),
{
    let mut i: usize = 0;
    assert(cs@.subrange(0, cs@.len() as int) =~= cs@);
    while i < cs.len() && cs[i] != c
        invariant
            i <= cs@.len(),
            find_char(cs@, c) == i + find_char(cs@.subrange(i as int, cs@.len() as int), c),
        decreases cs@.len() - i,
    {
        let ghost rest = cs@.subrange(i as int, cs@.len() as int);
        assert(rest.drop_first() =~= cs@.subrange(i + 1, cs@.len() as int));
        i = i + 1;
    }
    proof {
        let rest = cs@.subrange(i as int, cs@.len() as int);
        if i < cs.len() {
            assert(rest[0] == c);
        } else {
            assert(rest.len() == 0);
        }
    }
    i
}

/// The index just after the last `c` in `cs`, or 0.
fn index_after_last_char(cs: &Vec<char>, c: char) -> (i: usize)
    ensures
        i as int == after_last_char(cs@, c),
{
    let mut j: usize = cs.len();
    assert(cs@.subrange(0, j as int) =~= cs@);
    while j > 0 && cs[j - 1] != c
        invariant
            j <= cs@.len(),
            after_last_char(cs@, c) == after_last_char(cs@.subrange(0, j as int), c),
        decreases j,
    {
        let ghost prefix = cs@.subrange(0, j as int);
        assert(prefix.drop_last() =~= cs@.subrange(0, j - 1));
        j = j - 1;
    }
    j
}

/// `s.split(c).next()`.
pub fn text_before_first(s: &str, c: char) -> (out: String)
    ensures
        out@ == before_first(s@, c),
{
    let cs = chars_of(s);
    let i = index_of_char(&cs, c);
    proof {
        lemma_find_char_bounds(s@, c);
    }
    s.substring_char(0, i).to_owned()
}

/// `s.rsplit(c).next()`.
pub fn text_after_last(s: &str, c: char) -> (out: String)
    ensures
        out@ == after_last(s@, c),
{
    let cs = chars_of(s);
    let i = index_after_last_char(&cs, c);
    proof {
        lemma_after_last_bounds(s@, c);
    }
    s.substring_char(i, cs.len()).to_owned()
}

proof fn lemma_after_last_bounds(s: Seq<char>, c: char)
    ensures
        0 <= after_last_char(s, c) <= s.len(),
    decreases s.len(),
{
    if s.len() > 0 && s.last() != c {
        lemma_after_last_bounds(s.drop_last(), c);
    }
}

/// The user name an Auth0 profile shows: a non-empty `nickname`, or (when
/// there is no `nickname` member) a non-empty `name`, or else the part of
/// the email before its first `@`.
pub open spec fn auth0_username(value: JsonValue) -> Seq<char> {
    let chosen = match json_get(value, "nickname"@) {
        Some(v) => Some(v),
        None => json_get(value, "name"@),
    };
    let text = match chosen {
        Some(v) => json_as_str(v),
        None => None,
    };
    match text {
        Some(t) => if t.len() > 0 {
            t
        } else {
            before_first(json_string_or_empty(value, "email"@), '@')
        },
        None => before_first(json_string_or_empty(value, "email"@), '@'),
    }
}

/// `p` is the profile an Auth0 user-info document `value` describes.
pub open spec fn is_auth0_profile(p: SpliceProfile, value: JsonValue) -> bool {
    &&& p.id == 0
    &&& p.uuid@ == after_last(json_string_or_empty(value, "sub"@), '|')
    &&& p.username@ == auth0_username(value)
    &&& p.email@ == json_string_or_empty(value, "email"@)
    &&& p.avatar_url@ == json_string_or_empty(value, "picture"@)
    &&& p.credits == 0
    &&& p.sounds_plan == 0
    &&& p.sounds_state@ == Seq::<char>::empty()
    &&& p.sounds_status@ == Seq::<char>::empty()
    &&& p.channel@ == Seq::<char>::empty()
    &&& p.pubnub_key@ == Seq::<char>::empty()
    &&& p.features@ == Seq::<(String, bool)>::empty()
}

/// The profile an Auth0 user-info document (or ID token's claims) gives.
pub fn profile_from_auth0_value(value: &JsonValue) -> (p: SpliceProfile)
    ensures
        is_auth0_profile(p, *value),
{
    let email = value_string(value, "email");
    let chosen = match value.get("nickname") {
        Some(v) => Some(v),
        None => value.get("name"),
    };
    let text = match chosen {
        Some(v) => v.as_str(),
        None => None,
    };
    let username = match text {
        Some(t) => if t.unicode_len() > 0 {
            t.to_owned()
        } else {
            text_before_first(email.as_str(), '@')
        },
        None => text_before_first(email.as_str(), '@'),
    };
    let sub = value_string(value, "sub");
    SpliceProfile {
        id: 0,
        uuid: text_after_last(sub.as_str(), '|'),
        username,
        email,
        avatar_url: value_string(value, "picture"),
        credits: 0,
        sounds_plan: 0,
        sounds_state: String::new(),
        sounds_status: String::new(),
        channel: String::new(),
        pubnub_key: String::new(),
        features: Vec::new(),
    }
}

// ---------------------------------------------------------------------------
// ID tokens
// ---------------------------------------------------------------------------

/// What decoding `text` as unpadded URL-safe base64 yields.
pub uninterp spec fn base64_url_decoded(text: Seq<char>) -> Option<Seq<u8>>;

/// Decodes `text` with base64's `URL_SAFE_NO_PAD` engine (`Engine::decode`);
/// the contract only names the result, and says that decoding failures
/// come back as `None`.
#[verifier::external_body]
fn decode_base64_url(text: &str) -> (r: Option<Vec<u8>>)
    ensures
        match r {
            Some(bytes) => base64_url_decoded(text@) == Some(bytes@),
            None => base64_url_decoded(text@) is None,
        },
{
    base64::engine::general_purpose::URL_SAFE_NO_PAD.decode(text).ok()
}

/// The claims segment of a JWT: the text between its first and second dot.
pub fn id_token_claims_segment(id_token: &str) -> (r: Option<String>)
    ensures
        match r {
            Some(s) => second_field(id_token@, '.') == Some(s@),
            None => second_field(id_token@, '.') is None,
        },
{
    let cs = chars_of(id_token);
    let i = index_of_char(&cs, '.');
    proof {
        lemma_find_char_bounds(id_token@, '.');
    }
    if i >= cs.len() {
        return None;
    }
    let rest = id_token.substring_char(i + 1, cs.len());
    Some(text_before_first(rest, '.'))
}

/// The decoded claims of an ID token, when it has a claims segment that is
/// valid unpadded URL-safe base64.
pub fn id_token_claims_bytes(id_token: Option<&str>) -> (r: Option<Vec<u8>>)
    ensures
        match id_token {
            None => r is None,
            Some(t) => match second_field(t@, '.') {
                None => r is None,
                Some(segment) => match r {
                    Some(bytes) => base64_url_decoded(segment) == Some(bytes@),
                    None => base64_url_decoded(segment) is None,
                },
            },
        },
{
    match id_token {
        None => None,
        Some(t) => match id_token_claims_segment(t) {
            None => None,
            Some(segment) => decode_base64_url(segment.as_str()),
        },
    }
}

// ---------------------------------------------------------------------------
// Choosing the profile after sign-in
// ---------------------------------------------------------------------------

/// The message given when no source yields a profile.
pub open spec fn empty_profile_message() -> Seq<char> {
    "Splice profile was empty after login"@
}

/// The claims document of an ID token: its claims segment, decoded as
/// unpadded URL-safe base64 and parsed as JSON, when all of that succeeds.
pub open spec fn id_token_claims(id_token: Option<Seq<char>>) -> Option<JsonValue> {
    match id_token {
        None => None,
        Some(t) => match second_field(t, '.') {
            None => None,
            Some(segment) => match base64_url_decoded(segment) {
                None => None,
                Some(bytes) => match json_document(bytes) {
                    Ok(doc) => Some(doc),
                    Err(_) => None,
                },
            },
        },
    }
}

/// The text of an optional token.
pub open spec fn token_view(id_token: Option<&str>) -> Option<Seq<char>> {
    match id_token {
        Some(t) => Some(t@),
        None => None,
    }
}

/// The profile an ID token's claims describe, when they can be read.
pub fn profile_from_id_token(id_token: Option<&str>) -> (r: Option<SpliceProfile>)
    ensures
        match id_token_claims(token_view(id_token)) {
            Some(doc) => r matches Some(p) && is_auth0_profile(p, doc),
            None => r is None,
        },
{
    let bytes = match id_token_claims_bytes(id_token) {
        Some(b) => b,
        None => return None,
    };
    match parse_json_document(bytes.as_slice()) {
        Ok(doc) => Some(profile_from_auth0_value(&doc)),
        Err(_) => None,
    }
}

/// The profile after sign-in, from the Splice session document when it is an
/// object; else from the Auth0 user-info document when one came back and is
/// an object; else from the ID token's claims when they can be read.
pub fn profile_from_responses(
    session: &JsonValue,
    userinfo: Option<&JsonValue>,
    id_token: Option<&str>,
) -> (r: Result<SpliceProfile, String>)
    ensures
        session is Object ==> (r matches Ok(p) && is_session_profile(p, *session)),
        !(session is Object) ==> match userinfo {
            Some(u) if u is Object => r matches Ok(p) && is_auth0_profile(p, *u),
            _ => match id_token_claims(token_view(id_token)) {
                Some(c) => r matches Ok(p) && is_auth0_profile(p, c),
                None => r matches Err(m) && m@ == empty_profile_message(),
            },
        },
{
    if session.is_object() {
        return Ok(profile_from_splice_session_value(session));
    }
    if let Some(u) = userinfo {
        if u.is_object() {
            return Ok(profile_from_auth0_value(u));
        }
    }
    match profile_from_id_token(id_token) {
        Some(p) => Ok(p),
        None => Err("Splice profile was empty after login".to_owned()),
    }
}

} // verus!
