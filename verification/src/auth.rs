//! The Supuraisu-owned Splice sign-in: the session kept in memory, the
//! statuses reported for it, token refresh and rotation, and what is handed
//! to the Splice helper.

use vstd::prelude::*;
use crate::keychain::{is_refresh_token_entry, CredentialEntry};
use crate::profile::{features_view, SpliceProfile};
use crate::text::{concat, concat3, starts_with, has_prefix, str_eq};

verus! {

/// The Auth0 domain Splice signs in with.
pub const AUTH_DOMAIN: &'static str = "auth.splice.com";

/// The Auth0 client of the Splice desktop app.
pub const AUTH_CLIENT_ID: &'static str = "L2JVBs6YHYe7OeK3eeyOXoPNcNTkPWgv";

/// The audience tokens are asked for.
pub const AUTH_AUDIENCE: &'static str = "https://splice.com";

/// Where Auth0 sends the browser back after sign-in.
pub const AUTH_REDIRECT_URI: &'static str = "http://localhost/auth-callback";

/// The helper's number for Auth0 sessions.
pub const AUTH_TYPE_AUTH0: i32 = 1;

/// A signed-in Splice session.
#[derive(Debug)]
pub struct OwnedAuthSession {
    pub access_token: String,
    /// When the access token expires, in milliseconds since the epoch.
    pub expires_at: u64,
    pub profile: SpliceProfile,
}

/// Two profiles say the same.
pub open spec fn same_profile(a: SpliceProfile, b: SpliceProfile) -> bool {
    &&& a.id == b.id
    &&& a.uuid@ == b.uuid@
    &&& a.username@ == b.username@
    &&& a.email@ == b.email@
    &&& a.avatar_url@ == b.avatar_url@
    &&& a.credits == b.credits
    &&& a.sounds_plan == b.sounds_plan
    &&& a.sounds_state@ == b.sounds_state@
    &&& a.sounds_status@ == b.sounds_status@
    &&& a.channel@ == b.channel@
    &&& a.pubnub_key@ == b.pubnub_key@
    &&& features_view(a.features@) == features_view(b.features@)
}

/// Two sessions say the same.
pub open spec fn same_session(a: OwnedAuthSession, b: OwnedAuthSession) -> bool {
    &&& a.access_token@ == b.access_token@
    &&& a.expires_at == b.expires_at
    &&& same_profile(a.profile, b.profile)
}

/// An optional session says the same as another.
pub open spec fn same_optional_session(a: Option<OwnedAuthSession>, b: Option<OwnedAuthSession>) -> bool {
    match (a, b) {
        (Some(x), Some(y)) => same_session(x, y),
        (None, None) => true,
        _ => false,
    }
}

impl OwnedAuthSession {
    /// A copy of the session.
    pub fn duplicate(&self) -> (r: OwnedAuthSession)
        ensures
            same_session(r, *self),
    {
        OwnedAuthSession {
            access_token: self.access_token.clone(),
            expires_at: self.expires_at,
            profile: self.profile.duplicate(),
        }
    }
}

/// The sign-in state reported to the UI.
#[derive(Debug, Clone)]
pub struct OwnedAuthStatus {
    pub signed_in: bool,
    pub username: String,
    pub email: String,
    pub credits: u64,
    pub expires_at: Option<u64>,
    pub keychain_consent: bool,
    pub helper_connected: bool,
    pub helper_has_token: bool,
    pub helper_synced: bool,
}

/// What the helper reports of its own session: whether it answered,
/// whether it holds a token, the token's auth type, its user name and
/// email, and the errors met while asking.
pub type HelperSnapshot = (bool, bool, String, String, String, Vec<String>);

/// The helper is synced with a profile: it answered, holds a token, and
/// reports the same non-empty user name or the same non-empty email.
pub open spec fn helper_matches(
    username: Seq<char>,
    email: Seq<char>,
    helper: (bool, bool, Seq<char>, Seq<char>, Seq<char>),
) -> bool {
    helper.0 && helper.1 && ((username.len() > 0 && helper.3 == username) || (email.len() > 0
        && helper.4 == email))
}

/// The text of a helper snapshot, without its errors.
pub open spec fn snapshot_view(h: HelperSnapshot) -> (bool, bool, Seq<char>, Seq<char>, Seq<char>) {
    (h.0, h.1, h.2@, h.3@, h.4@)
}

fn helper_reports(username: &str, email: &str, helper: &HelperSnapshot) -> (r: bool)
    ensures
        r == helper_matches(username@, email@, snapshot_view(*helper)),
{
    helper.0 && helper.1 && ((username.unicode_len() > 0 && str_eq(helper.3.as_str(), username))
        || (email.unicode_len() > 0 && str_eq(helper.4.as_str(), email)))
}

/// The in-memory state of the app: the signed-in session, whether the user
/// allowed credential-store use, and when the helper was last launched.
#[derive(Debug)]
pub struct AppState {
    owned_auth: Option<OwnedAuthSession>,
    keychain_consent: bool,
    helper_last_launch_ms: u64,
}

/// The outcome of looking for a usable session.
#[derive(Debug)]
pub enum SessionPlan {
    /// The session in memory is valid for more than 30 more seconds.
    Cached(OwnedAuthSession),
    /// No usable session, and the credential store may not be used.
    SignedOut,
    /// The stored refresh token should be read and exchanged.
    ReadKeychain,
}

/// A session in memory is used while it has more than 30 seconds left.
pub open spec fn session_fresh(session: OwnedAuthSession, now: u64) -> bool {
    now + 30000 < session.expires_at
}

/// `now.saturating_sub(last) < 5000`: too soon after the last launch.
pub open spec fn launch_throttled(last_launch: u64, now: u64) -> bool {
    now >= last_launch && now - last_launch < 5000 || now < last_launch
}

impl AppState {
    /// The session in memory.
    pub closed spec fn session(&self) -> Option<OwnedAuthSession> {
        self.owned_auth
    }

    /// Whether the user allowed credential-store use.
    pub closed spec fn consent(&self) -> bool {
        self.keychain_consent
    }

    /// When the helper was last launched, in milliseconds since the epoch.
    pub closed spec fn last_launch(&self) -> u64 {
        self.helper_last_launch_ms
    }

    /// No session, no consent, no launch yet.
    pub fn new() -> (r: AppState)
        ensures
            r.session() is None,
            !r.consent(),
            r.last_launch() == 0,
    {
        AppState { owned_auth: None, keychain_consent: false, helper_last_launch_ms: 0 }
    }

    /// The session in memory.
    pub fn owned_auth_state(&self) -> (r: &Option<OwnedAuthSession>)
        ensures
            *r == self.session(),
    {
        &self.owned_auth
    }

    /// Whether the user allowed credential-store use.
    pub fn keychain_consent_state(&self) -> (r: bool)
        ensures
            r == self.consent(),
    {
        self.keychain_consent
    }

    /// When the helper was last launched.
    pub fn helper_last_launch_state(&self) -> (r: u64)
        ensures
            r == self.last_launch(),
    {
        self.helper_last_launch_ms
    }

    /// Records whether the user allows credential-store use.
    pub fn set_keychain_consent(&mut self, consent: bool)
        ensures
            final(self).consent() == consent,
            final(self).session() == old(self).session(),
            final(self).last_launch() == old(self).last_launch(),
    {
        self.keychain_consent = consent;
    }

    /// Whether the user allowed credential-store use.
    pub fn has_keychain_consent(&self) -> (r: bool)
        ensures
            r == self.consent(),
    {
        self.keychain_consent
    }

    /// Replaces the session in memory.
    pub fn set_owned_auth(&mut self, session: Option<OwnedAuthSession>)
        ensures
            final(self).session() == session,
            final(self).consent() == old(self).consent(),
            final(self).last_launch() == old(self).last_launch(),
    {
        self.owned_auth = session;
    }

    /// The status reported while signed out.
    pub fn signed_out_auth_status(&self) -> (r: OwnedAuthStatus)
        ensures
            !r.signed_in,
            r.username@ == Seq::<char>::empty(),
            r.email@ == Seq::<char>::empty(),
            r.credits == 0,
            r.expires_at is None,
            r.keychain_consent == self.consent(),
            !r.helper_connected,
            !r.helper_has_token,
            !r.helper_synced,
    {
        OwnedAuthStatus {
            signed_in: false,
            username: String::new(),
            email: String::new(),
            credits: 0,
            expires_at: None,
            keychain_consent: self.keychain_consent,
            helper_connected: false,
            helper_has_token: false,
            helper_synced: false,
        }
    }

    /// The status reported for a signed-in session, before the helper is asked.
    pub fn auth_status_from_session(&self, session: &OwnedAuthSession) -> (r: OwnedAuthStatus)
        ensures
            r.signed_in,
            r.username@ == session.profile.username@,
            r.email@ == session.profile.email@,
            r.credits == session.profile.credits,
            r.expires_at == Some(session.expires_at),
            r.keychain_consent == self.consent(),
            !r.helper_connected,
            !r.helper_has_token,
            !r.helper_synced,
    {
        OwnedAuthStatus {
            signed_in: true,
            username: session.profile.username.clone(),
            email: session.profile.email.clone(),
            credits: session.profile.credits,
            expires_at: Some(session.expires_at),
            keychain_consent: self.keychain_consent,
            helper_connected: false,
            helper_has_token: false,
            helper_synced: false,
        }
    }

    /// Where to get a session from at time `now`: the one in memory while
    /// it has more than 30 seconds left; else nowhere without consent; else
    /// from the stored refresh token.
    pub fn session_plan(&self, now: u64) -> (r: SessionPlan)
        ensures
            match self.session() {
                Some(s) if session_fresh(s, now) => (r matches SessionPlan::Cached(c) && same_session(c, s)),
                _ => if self.consent() {
                    r is ReadKeychain
                } else {
                    r is SignedOut
                },
            },
    {
        if let Some(session) = &self.owned_auth {
            if now < session.expires_at && session.expires_at - now > 30000 {
                return SessionPlan::Cached(session.duplicate());
            }
        }
        if !self.keychain_consent {
            SessionPlan::SignedOut
        } else {
            SessionPlan::ReadKeychain
        }
    }

    /// Takes in the outcome of exchanging the stored refresh token: a new
    /// session is kept in memory and returned; on failure the session in
    /// memory is dropped (the stored token stays for a later attempt).
    pub fn finish_refresh(&mut self, outcome: Result<OwnedAuthSession, String>) -> (r: Result<
        Option<OwnedAuthSession>,
        String,
    >)
        ensures
            match outcome {
                Ok(s) => final(self).session() == Some(s) && (r matches Ok(Some(t)) && same_session(t, s)),
                Err(e) => final(self).session() is None && r == Err::<Option<OwnedAuthSession>, String>(e),
            },
            final(self).consent() == old(self).consent(),
            final(self).last_launch() == old(self).last_launch(),
    {
        match outcome {
            Ok(session) => {
                let copy = session.duplicate();
                self.owned_auth = Some(session);
                Ok(Some(copy))
            },
            Err(e) => {
                self.owned_auth = None;
                Err(e)
            },
        }
    }

    /// Claims the right to launch the helper at time `now`: refused within 5
    /// seconds of the last launch, else the launch time is recorded.
    pub fn try_claim_helper_launch(&mut self, now: u64) -> (r: bool)
        ensures
            r == !launch_throttled(old(self).last_launch(), now),
            r ==> final(self).last_launch() == now,
            !r ==> final(self).last_launch() == old(self).last_launch(),
            final(self).session() == old(self).session(),
            final(self).consent() == old(self).consent(),
    {
        let elapsed = if now >= self.helper_last_launch_ms {
            now - self.helper_last_launch_ms
        } else {
            0
        };
        if elapsed < 5000 {
            return false;
        }
        self.helper_last_launch_ms = now;
        true
    }

    /// Claims the right to launch the helper now.
    pub fn claim_helper_launch_now(&mut self) -> (r: bool)
        ensures
            r ==> !launch_throttled(old(self).last_launch(), final(self).last_launch()),
            !r ==> final(self).last_launch() == old(self).last_launch(),
            final(self).session() == old(self).session(),
            final(self).consent() == old(self).consent(),
    {
        let now = now_ms();
        self.try_claim_helper_launch(now)
    }

    /// Signs out: removes the stored refresh token, then forgets the
    /// session in memory, and gives back the refresh token's entry it was
    /// removed from. When the token cannot be removed, the store's error is
    /// returned and the session stays.
    pub fn sign_out(&mut self) -> (r: Result<CredentialEntry, String>)
        ensures
            r matches Ok(e) ==> is_refresh_token_entry(e) && e.written_secret() is None,
            r is Ok ==> final(self).session() is None,
            r is Err ==> final(self).session() == old(self).session(),
            r matches Err(m) ==> has_prefix(m@, "Could not open Keychain entry: "@) || has_prefix(
                m@,
                "Could not delete refresh token: "@,
            ),
            final(self).consent() == old(self).consent(),
            final(self).last_launch() == old(self).last_launch(),
    {
        let entry = crate::keychain::delete_refresh_token()?;
        self.owned_auth = None;
        Ok(entry)
    }

    /// The session and user handed to the helper when it asks for the
    /// desktop app's session: none while signed out.
    pub fn session_auth_user_from_memory(&self) -> (r: (Option<AuthRecord>, Option<UserRecord>))
        ensures
            match self.session() {
                Some(s) => (r.0 matches Some(a) && is_helper_auth(a, s)) && (r.1 matches Some(u)
                    && is_helper_user(u, s.profile)),
                None => r.0 is None && r.1 is None,
            },
    {
        match &self.owned_auth {
            Some(session) => (Some(helper_auth_record(session)), Some(helper_user_record(&session.profile))),
            None => (None, None),
        }
    }
}

/// A point in time of the system clock.
#[verifier::external_type_specification]
#[verifier::external_body]
pub struct ExSystemTime(std::time::SystemTime);

/// `std::time::SystemTime::now`: the clock's current time. It depends on
/// the clock, so nothing is promised of it.
#[verifier::external_body]
fn system_time_now() -> (r: std::time::SystemTime) {
    std::time::SystemTime::now()
}

/// `SystemTime::duration_since(UNIX_EPOCH)`: the time elapsed since the
/// Unix epoch, `None` for a time before it. The time is opaque here, so
/// nothing is promised of the result.
#[verifier::external_body]
fn since_unix_epoch(t: &std::time::SystemTime) -> (r: Option<std::time::Duration>) {
    t.duration_since(std::time::UNIX_EPOCH).ok()
}

/// `Duration::as_millis`: the whole milliseconds of a duration. The
/// duration is opaque here, so nothing is promised of the result.
#[verifier::external_body]
fn duration_millis(d: &std::time::Duration) -> (r: u128) {
    d.as_millis()
}

/// The current time in milliseconds since the Unix epoch, truncated to 64
/// bits; 0 when the clock reads before the epoch. It depends on the clock,
/// so nothing is promised of it.
pub fn now_ms() -> (r: u64) {
    match since_unix_epoch(&system_time_now()) {
        Some(elapsed) => {
            let ms = duration_millis(&elapsed);
            #[verifier::truncate]
            (ms as u64)
        },
        None => 0,
    }
}

// ---------------------------------------------------------------------------
// Helper statuses
// ---------------------------------------------------------------------------

/// The status with what the helper reports of its own session.
pub fn auth_status_with_helper(status: OwnedAuthStatus, helper: &HelperSnapshot) -> (r: OwnedAuthStatus)
    ensures
        r.signed_in == status.signed_in,
        r.username == status.username,
        r.email == status.email,
        r.credits == status.credits,
        r.expires_at == status.expires_at,
        r.keychain_consent == status.keychain_consent,
        r.helper_connected == helper.0,
        r.helper_has_token == helper.1,
        r.helper_synced == (status.signed_in && helper_matches(
            status.username@,
            status.email@,
            snapshot_view(*helper),
        )),
{
    let mut status = status;
    status.helper_connected = helper.0;
    status.helper_has_token = helper.1;
    let synced = status.signed_in && helper_reports(status.username.as_str(), status.email.as_str(), helper);
    status.helper_synced = synced;
    status
}

/// Whether the helper reports the same user as the session.
pub fn helper_synced_with(owned: Option<&OwnedAuthSession>, helper: &HelperSnapshot) -> (r: bool)
    ensures
        r == match owned {
            Some(s) => helper_matches(s.profile.username@, s.profile.email@, snapshot_view(*helper)),
            None => false,
        },
{
    match owned {
        Some(s) => helper_reports(s.profile.username.as_str(), s.profile.email.as_str(), helper),
        None => false,
    }
}

/// The report of a sign-in check that also pushes the session to the helper.
#[derive(Debug)]
pub struct AuthShakedownStatus {
    pub keychain_consent: bool,
    pub owned_signed_in: bool,
    pub owned_username: String,
    pub owned_email: String,
    pub owned_expires_at: Option<u64>,
    pub helper_connected: bool,
    pub helper_has_token: bool,
    pub helper_auth_type: String,
    pub helper_username: String,
    pub helper_email: String,
    pub helper_synced: bool,
    pub sync_attempted: bool,
    pub errors: Vec<String>,
}

/// The shakedown report: a sync with the helper was attempted exactly when
/// there is a session; `errors` are those met while signing in and syncing,
/// followed by the helper's own.
pub fn auth_shakedown_status(
    keychain_consent: bool,
    owned: Option<&OwnedAuthSession>,
    helper: HelperSnapshot,
    errors: Vec<String>,
) -> (r: AuthShakedownStatus)
    ensures
        r.keychain_consent == keychain_consent,
        r.owned_signed_in == owned is Some,
        r.owned_username@ == match owned {
            Some(s) => s.profile.username@,
            None => Seq::<char>::empty(),
        },
        r.owned_email@ == match owned {
            Some(s) => s.profile.email@,
            None => Seq::<char>::empty(),
        },
        r.owned_expires_at == match owned {
            Some(s) => Some(s.expires_at),
            None => None::<u64>,
        },
        r.helper_connected == helper.0,
        r.helper_has_token == helper.1,
        r.helper_auth_type == helper.2,
        r.helper_username == helper.3,
        r.helper_email == helper.4,
        r.helper_synced == match owned {
            Some(s) => helper_matches(s.profile.username@, s.profile.email@, snapshot_view(helper)),
            None => false,
        },
        r.sync_attempted == owned is Some,
        r.errors@ == errors@ + helper.5@,
{
    let helper_synced = helper_synced_with(owned, &helper);
    let (connected, has_token, auth_type, username, email, helper_errors) = helper;
    let mut all_errors = errors;
    let mut more = helper_errors;
    all_errors.append(&mut more);
    let (owned_username, owned_email, owned_expires_at) = match owned {
        Some(s) => (s.profile.username.clone(), s.profile.email.clone(), Some(s.expires_at)),
        None => (String::new(), String::new(), None),
    };
    AuthShakedownStatus {
        keychain_consent,
        owned_signed_in: owned.is_some(),
        owned_username,
        owned_email,
        owned_expires_at,
        helper_connected: connected,
        helper_has_token: has_token,
        helper_auth_type: auth_type,
        helper_username: username,
        helper_email: email,
        helper_synced,
        sync_attempted: owned.is_some(),
        errors: all_errors,
    }
}

// ---------------------------------------------------------------------------
// Records handed to the helper
// ---------------------------------------------------------------------------

/// A session as the helper takes it.
#[derive(Debug)]
pub struct AuthRecord {
    pub token: String,
    pub sub_key: String,
    pub sub_channel: String,
    pub auth_type: i32,
}

/// A user as the helper takes it.
#[derive(Debug)]
pub struct UserRecord {
    pub id: u64,
    pub username: String,
    pub bio: String,
    pub avatar_url: String,
    pub location: String,
    pub email: String,
    pub sounds_status: String,
    pub credits: u64,
    pub features: Vec<(String, bool)>,
    pub sounds_plan: i32,
    pub uuid: String,
}

/// The helper's session record of a Supuraisu session: an Auth0 session
/// with the profile's PubNub key and channel.
pub open spec fn is_helper_auth(a: AuthRecord, s: OwnedAuthSession) -> bool {
    &&& a.token@ == s.access_token@
    &&& a.sub_key@ == s.profile.pubnub_key@
    &&& a.sub_channel@ == s.profile.channel@
    &&& a.auth_type == AUTH_TYPE_AUTH0
}

/// The sounds status the helper is told: the status, or the state when the
/// status is empty.
pub open spec fn reported_sounds_status(p: SpliceProfile) -> Seq<char> {
    if p.sounds_status@.len() == 0 {
        p.sounds_state@
    } else {
        p.sounds_status@
    }
}

/// The helper's user record of a profile: no bio or location.
pub open spec fn is_helper_user(u: UserRecord, p: SpliceProfile) -> bool {
    &&& u.id == p.id
    &&& u.username@ == p.username@
    &&& u.bio@ == Seq::<char>::empty()
    &&& u.avatar_url@ == p.avatar_url@
    &&& u.location@ == Seq::<char>::empty()
    &&& u.email@ == p.email@
    &&& u.sounds_status@ == reported_sounds_status(p)
    &&& u.credits == p.credits
    &&& features_view(u.features@) == features_view(p.features@)
    &&& u.sounds_plan == p.sounds_plan
    &&& u.uuid@ == p.uuid@
}

/// The user handed to the helper is the signed-in profile's user: the same
/// id, user name, email, avatar, credits, plan, uuid and feature flags, no
/// bio or location, and the sounds status, or the sounds state when the
/// status is empty. A session handed over as an Auth0 session carries the
/// session's token and the profile's PubNub key and channel.
pub proof fn lemma_helper_records_carry_the_session(u: UserRecord, a: AuthRecord, s: OwnedAuthSession)
    requires
        is_helper_user(u, s.profile),
        is_helper_auth(a, s),
    ensures
        u.id == s.profile.id,
        u.username@ == s.profile.username@,
        u.email@ == s.profile.email@,
        u.avatar_url@ == s.profile.avatar_url@,
        u.credits == s.profile.credits,
        u.sounds_plan == s.profile.sounds_plan,
        u.uuid@ == s.profile.uuid@,
        u.bio@.len() == 0 && u.location@.len() == 0,
        u.sounds_status@ == if s.profile.sounds_status@.len() > 0 {
            s.profile.sounds_status@
        } else {
            s.profile.sounds_state@
        },
        u.features@.len() == s.profile.features@.len(),
        forall|i: int|
            0 <= i < u.features@.len() ==> (#[trigger] u.features@[i]).0@ == s.profile.features@[i].0@
                && u.features@[i].1 == s.profile.features@[i].1,
        a.token@ == s.access_token@,
        a.sub_key@ == s.profile.pubnub_key@,
        a.sub_channel@ == s.profile.channel@,
        a.auth_type == 1,
{
    assert(features_view(u.features@).len() == u.features@.len());
    assert(features_view(s.profile.features@).len() == s.profile.features@.len());
    assert forall|i: int| 0 <= i < u.features@.len() implies (#[trigger] u.features@[i]).0@
        == s.profile.features@[i].0@ && u.features@[i].1 == s.profile.features@[i].1 by {
        assert(features_view(u.features@)[i] == features_view(s.profile.features@)[i]);
    }
}

/// The helper's session record of a Supuraisu session.
pub fn helper_auth_record(session: &OwnedAuthSession) -> (r: AuthRecord)
    ensures
        is_helper_auth(r, *session),
{
    AuthRecord {
        token: session.access_token.clone(),
        sub_key: session.profile.pubnub_key.clone(),
        sub_channel: session.profile.channel.clone(),
        auth_type: AUTH_TYPE_AUTH0,
    }
}

/// The helper's user record of a profile.
pub fn helper_user_record(profile: &SpliceProfile) -> (r: UserRecord)
    ensures
        is_helper_user(r, *profile),
{
    let copy = profile.duplicate();
    let sounds_status = if profile.sounds_status.as_str().is_empty() {
        profile.sounds_state.clone()
    } else {
        profile.sounds_status.clone()
    };
    UserRecord {
        id: profile.id,
        username: copy.username,
        bio: String::new(),
        avatar_url: copy.avatar_url,
        location: String::new(),
        email: copy.email,
        sounds_status,
        credits: profile.credits,
        features: copy.features,
        sounds_plan: profile.sounds_plan,
        uuid: copy.uuid,
    }
}

/// The session sync succeeds when either helper call does; otherwise both
/// messages are reported, joined by "; ".
pub fn combine_helper_sync(logged_in: Result<(), String>, updated: Result<(), String>) -> (r: Result<
    (),
    String,
>)
    ensures
        match (logged_in, updated) {
            (Err(a), Err(b)) => r matches Err(m) && m@ == a@ + "; "@ + b@,
            _ => r is Ok,
        },
{
    match (logged_in, updated) {
        (Err(a), Err(b)) => Err(concat3(a.as_str(), "; ", b.as_str())),
        _ => Ok(()),
    }
}

// ---------------------------------------------------------------------------
// Tokens
// ---------------------------------------------------------------------------

/// A token endpoint answer.
#[derive(Debug)]
pub struct TokenResponse {
    pub access_token: String,
    pub refresh_token: Option<String>,
    pub expires_in: u64,
    pub id_token: Option<String>,
}

/// The refresh token to keep after a refresh: the rotated one the server
/// returned, or the one used when it returned none.
pub open spec fn rotated_refresh_token(previous: Seq<char>, returned: Option<String>) -> Seq<char> {
    match returned {
        Some(t) => t@,
        None => previous,
    }
}

/// The refresh token to keep after a refresh.
pub fn refresh_token_after_refresh(previous: &str, returned: Option<String>) -> (r: String)
    ensures
        r@ == rotated_refresh_token(previous@, returned),
{
    match returned {
        Some(t) => t,
        None => previous.to_owned(),
    }
}

/// Stores the refresh token to keep after a refresh, before anything else
/// is done with the new session; returns it with the entry it was written
/// to.
pub fn persist_rotated_refresh_token(previous: &str, returned: Option<String>) -> (r: Result<
    (String, CredentialEntry),
    String,
>)
    ensures
        r matches Ok(stored) ==> {
            &&& stored.0@ == rotated_refresh_token(previous@, returned)
            &&& is_refresh_token_entry(stored.1)
            &&& stored.1.written_secret() == Some(stored.0@)
        },
        r matches Err(m) ==> has_prefix(m@, "Could not open Keychain entry: "@) || has_prefix(
            m@,
            "Could not store refresh token: "@,
        ),
{
    let token = refresh_token_after_refresh(previous, returned);
    let entry = crate::keychain::store_refresh_token(token.as_str())?;
    Ok((token, entry))
}

/// The refresh token a sign-in must return.
pub fn refresh_token_after_login(returned: Option<String>) -> (r: Result<String, String>)
    ensures
        match returned {
            Some(t) => r == Ok::<String, String>(t),
            None => r matches Err(m) && m@ == "Login did not return a refresh token"@,
        },
{
    match returned {
        Some(t) => Ok(t),
        None => Err("Login did not return a refresh token".to_owned()),
    }
}

/// When a token that lives `expires_in` seconds from `now` expires, in
/// milliseconds; the lifetime saturates at the largest `u64`.
pub open spec fn session_expiry(now: u64, expires_in: u64) -> int {
    now + if expires_in * 1000 > u64::MAX {
        u64::MAX as int
    } else {
        expires_in * 1000
    }
}

/// The session a token answer opens at time `now`.
pub fn owned_session_from_token(
    access_token: String,
    expires_in: u64,
    now: u64,
    profile: SpliceProfile,
) -> (r: OwnedAuthSession)
    requires
        session_expiry(now, expires_in) <= u64::MAX,
    ensures
        r.access_token == access_token,
        r.expires_at == session_expiry(now, expires_in),
        r.profile == profile,
{
    let lifetime: u64 = if expires_in > u64::MAX / 1000 {
        u64::MAX
    } else {
        expires_in * 1000
    };
    OwnedAuthSession { access_token, expires_at: now + lifetime, profile }
}

// ---------------------------------------------------------------------------
// The sign-in callback
// ---------------------------------------------------------------------------

/// The value of the first query pair named `key`.
pub open spec fn query_value(pairs: Seq<(String, String)>, key: Seq<char>) -> Option<Seq<char>>
    decreases pairs.len(),
{
    if pairs.len() == 0 {
        None
    } else if pairs[0].0@ == key {
        Some(pairs[0].1@)
    } else {
        query_value(pairs.drop_first(), key)
    }
}

/// The value of the first pair named `error_description` or `error`.
pub open spec fn query_error(pairs: Seq<(String, String)>) -> Option<Seq<char>>
    decreases pairs.len(),
{
    if pairs.len() == 0 {
        None
    } else if pairs[0].0@ == "error_description"@ || pairs[0].0@ == "error"@ {
        Some(pairs[0].1@)
    } else {
        query_error(pairs.drop_first())
    }
}

/// What a sign-in callback with these query pairs yields: the provider's
/// error if it reports one; a refusal unless the state is the one sent; the
/// authorization code when there is one.
pub open spec fn callback_outcome(pairs: Seq<(String, String)>, expected_state: Seq<char>) -> Result<
    Seq<char>,
    Seq<char>,
> {
    match query_error(pairs) {
        Some(e) => Err("Splice login failed: "@ + e),
        None => if query_value(pairs, "state"@) != Some(expected_state) {
            Err("Splice login state mismatch"@)
        } else {
            match query_value(pairs, "code"@) {
                Some(code) => Ok(code),
                None => Err("Splice login callback did not include a code"@),
            }
        },
    }
}

fn find_query_value<'a>(pairs: &'a Vec<(String, String)>, key: &str) -> (r: Option<&'a String>)
    ensures
        match r {
            Some(v) => query_value(pairs@, key@) == Some(v@),
            None => query_value(pairs@, key@) is None,
        },
{
    let mut i: usize = 0;
    assert(pairs@.subrange(0, pairs@.len() as int) =~= pairs@);
    while i < pairs.len()
        invariant
            i <= pairs@.len(),
            query_value(pairs@, key@) == query_value(pairs@.subrange(i as int, pairs@.len() as int), key@),
        decreases pairs@.len() - i,
    {
        let ghost rest = pairs@.subrange(i as int, pairs@.len() as int);
        assert(rest.drop_first() =~= pairs@.subrange(i + 1, pairs@.len() as int));
        if str_eq(pairs[i].0.as_str(), key) {
            return Some(&pairs[i].1);
        }
        i = i + 1;
    }
    None
}

fn find_query_error<'a>(pairs: &'a Vec<(String, String)>) -> (r: Option<&'a String>)
    ensures
        match r {
            Some(v) => query_error(pairs@) == Some(v@),
            None => query_error(pairs@) is None,
        },
{
    let mut i: usize = 0;
    assert(pairs@.subrange(0, pairs@.len() as int) =~= pairs@);
    while i < pairs.len()
        invariant
            i <= pairs@.len(),
            query_error(pairs@) == query_error(pairs@.subrange(i as int, pairs@.len() as int)),
        decreases pairs@.len() - i,
    {
        let ghost rest = pairs@.subrange(i as int, pairs@.len() as int);
        assert(rest.drop_first() =~= pairs@.subrange(i + 1, pairs@.len() as int));
        if str_eq(pairs[i].0.as_str(), "error_description") || str_eq(pairs[i].0.as_str(), "error") {
            return Some(&pairs[i].1);
        }
        i = i + 1;
    }
    None
}

/// Whether a navigation goes to the sign-in redirect address.
pub fn is_auth_redirect(url: &str) -> (r: bool)
    ensures
        r == has_prefix(url@, AUTH_REDIRECT_URI@),
{
    starts_with(url, AUTH_REDIRECT_URI)
}

/// The authorization code of a sign-in callback, given its query pairs and
/// the state the sign-in was started with.
pub fn auth_callback_code(pairs: &Vec<(String, String)>, expected_state: &str) -> (r: Result<String, String>)
    ensures
        match r {
            Ok(code) => callback_outcome(pairs@, expected_state@) == Ok::<Seq<char>, Seq<char>>(code@),
            Err(m) => callback_outcome(pairs@, expected_state@) == Err::<Seq<char>, Seq<char>>(m@),
        },
{
    if let Some(error) = find_query_error(pairs) {
        return Err(concat("Splice login failed: ", error.as_str()));
    }
    let state_ok = match find_query_value(pairs, "state") {
        Some(s) => str_eq(s.as_str(), expected_state),
        None => false,
    };
    if !state_ok {
        return Err("Splice login state mismatch".to_owned());
    }
    match find_query_value(pairs, "code") {
        Some(code) => Ok(code.clone()),
        None => Err("Splice login callback did not include a code".to_owned()),
    }
}

/// Signing in needs the user's consent to credential-store use.
pub fn require_login_consent(keychain_consent: bool) -> (r: Result<(), String>)
    ensures
        keychain_consent ==> r is Ok,
        !keychain_consent ==> (r matches Err(m) && m@
            == "Please approve Supuraisu using macOS Keychain before signing in."@),
{
    if keychain_consent {
        Ok(())
    } else {
        Err("Please approve Supuraisu using macOS Keychain before signing in.".to_owned())
    }
}

/// A sign-in callback yields a code only when the provider reported no
/// error and the state it carries is the one the sign-in was started with:
/// a forged or replayed callback is refused.
pub proof fn lemma_callback_code_needs_state(pairs: Seq<(String, String)>, expected_state: Seq<char>)
    ensures
        callback_outcome(pairs, expected_state) is Ok ==> {
            &&& query_error(pairs) is None
            &&& query_value(pairs, "state"@) == Some(expected_state)
            &&& query_value(pairs, "code"@) == Some(callback_outcome(pairs, expected_state)->Ok_0)
        },
{
}

/// Helper launches are spaced: after a launch at `first`, a claim at `then`
/// succeeds only when `then` is at least five seconds later.
pub proof fn lemma_launches_spaced(first: u64, then: u64)
    ensures
        !launch_throttled(first, then) <==> then >= first + 5000,
{
}

} // verus!
