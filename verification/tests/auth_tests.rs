use supuraisu::auth::{
    auth_callback_code, auth_shakedown_status, auth_status_with_helper, combine_helper_sync, helper_auth_record,
    helper_synced_with, helper_user_record, is_auth_redirect, owned_session_from_token, refresh_token_after_login,
    refresh_token_after_refresh, require_login_consent, AppState, OwnedAuthSession, SessionPlan, AUTH_TYPE_AUTH0,
};
use supuraisu::profile::SpliceProfile;

fn profile(name: &str, email: &str) -> SpliceProfile {
    SpliceProfile {
        id: 42,
        uuid: "uuid-1".to_string(),
        username: name.to_string(),
        email: email.to_string(),
        avatar_url: "https://a/p.png".to_string(),
        credits: 300,
        sounds_plan: 3,
        sounds_state: "trial".to_string(),
        sounds_status: String::new(),
        channel: "channel-1".to_string(),
        pubnub_key: "pub-1".to_string(),
        features: vec![("beta".to_string(), true)],
    }
}

fn session(expires_at: u64) -> OwnedAuthSession {
    OwnedAuthSession { access_token: "access".to_string(), expires_at, profile: profile("ann", "ann@x.com") }
}

fn pairs(list: &[(&str, &str)]) -> Vec<(String, String)> {
    list.iter().map(|(k, v)| (k.to_string(), v.to_string())).collect()
}

#[test]
fn new_state_is_signed_out_without_consent() {
    let state = AppState::new();
    assert!(state.owned_auth_state().is_none());
    assert!(!state.has_keychain_consent());
    assert!(!state.keychain_consent_state());
    assert_eq!(state.helper_last_launch_state(), 0);
    assert!(matches!(state.session_plan(1000), SessionPlan::SignedOut));
}

#[test]
fn consent_read_gives_back_what_was_set() {
    let mut state = AppState::new();
    state.set_keychain_consent(true);
    assert!(state.has_keychain_consent());
    state.set_keychain_consent(false);
    assert!(!state.has_keychain_consent());
}

#[test]
fn fresh_session_is_reused_and_stale_one_refreshed() {
    let mut state = AppState::new();
    state.set_keychain_consent(true);
    state.set_owned_auth(Some(session(100_000)));
    match state.session_plan(69_999) {
        SessionPlan::Cached(s) => assert_eq!(s.access_token, "access"),
        _ => panic!("expected the cached session"),
    }
    // Exactly 30 seconds left is not enough.
    assert!(matches!(state.session_plan(70_000), SessionPlan::ReadKeychain));
    state.set_keychain_consent(false);
    assert!(matches!(state.session_plan(70_000), SessionPlan::SignedOut));
}

#[test]
fn refresh_outcome_updates_memory() {
    let mut state = AppState::new();
    let r = state.finish_refresh(Ok(session(5)));
    assert_eq!(r.unwrap().map(|s| s.expires_at), Some(5));
    assert_eq!(state.owned_auth_state().as_ref().map(|s| s.expires_at), Some(5));
    let r = state.finish_refresh(Err("network".to_string()));
    assert_eq!(r.err(), Some("network".to_string()));
    assert!(state.owned_auth_state().is_none());
}

#[test]
fn helper_launch_is_throttled_for_five_seconds() {
    let mut state = AppState::new();
    assert!(state.try_claim_helper_launch(10_000));
    assert_eq!(state.helper_last_launch_state(), 10_000);
    assert!(!state.try_claim_helper_launch(14_999));
    assert_eq!(state.helper_last_launch_state(), 10_000);
    assert!(state.try_claim_helper_launch(15_000));
    assert_eq!(state.helper_last_launch_state(), 15_000);
    // A clock that went backwards counts as too soon.
    assert!(!state.try_claim_helper_launch(1));
}

#[test]
fn first_claim_needs_five_seconds_since_epoch_zero() {
    let mut state = AppState::new();
    assert!(!state.try_claim_helper_launch(4_999));
    assert!(state.claim_helper_launch_now());
}

#[test]
fn statuses_signed_out_and_from_session() {
    let mut state = AppState::new();
    state.set_keychain_consent(true);
    let out = state.signed_out_auth_status();
    assert!(!out.signed_in && out.keychain_consent && out.expires_at.is_none());
    assert_eq!(out.credits, 0);
    let s = session(777);
    let st = state.auth_status_from_session(&s);
    assert!(st.signed_in);
    assert_eq!((st.username.as_str(), st.email.as_str(), st.credits, st.expires_at), ("ann", "ann@x.com", 300, Some(777)));
    assert!(!st.helper_connected && !st.helper_has_token && !st.helper_synced);
}

#[test]
fn helper_sync_needs_matching_name_or_email() {
    let state = AppState::new();
    let st = state.auth_status_from_session(&session(1));
    let by_name = (true, true, "1".to_string(), "ann".to_string(), String::new(), Vec::new());
    let r = auth_status_with_helper(st.clone(), &by_name);
    assert!(r.helper_connected && r.helper_has_token && r.helper_synced);
    let by_email = (true, true, "1".to_string(), "other".to_string(), "ann@x.com".to_string(), Vec::new());
    assert!(auth_status_with_helper(st.clone(), &by_email).helper_synced);
    let no_token = (true, false, "1".to_string(), "ann".to_string(), String::new(), Vec::new());
    assert!(!auth_status_with_helper(st.clone(), &no_token).helper_synced);
    let signed_out = state.signed_out_auth_status();
    let empty_match = (true, true, String::new(), String::new(), String::new(), Vec::new());
    assert!(!auth_status_with_helper(signed_out, &empty_match).helper_synced);
    assert!(helper_synced_with(Some(&session(1)), &by_name));
    assert!(!helper_synced_with(None, &by_name));
}

#[test]
fn shakedown_reports_owned_and_helper_state() {
    let s = session(9);
    let helper = (true, true, "1".to_string(), "ann".to_string(), "ann@x.com".to_string(), vec!["h".to_string()]);
    let r = auth_shakedown_status(true, Some(&s), helper, vec!["sync failed".to_string()]);
    assert!(r.owned_signed_in && r.sync_attempted && r.helper_synced && r.keychain_consent);
    assert_eq!(r.owned_expires_at, Some(9));
    assert_eq!(r.errors, vec!["sync failed".to_string(), "h".to_string()]);
    let helper = (false, false, String::new(), String::new(), String::new(), Vec::new());
    let r = auth_shakedown_status(false, None, helper, Vec::new());
    assert!(!r.owned_signed_in && !r.sync_attempted && !r.helper_synced);
    assert_eq!(r.owned_username, "");
}

#[test]
fn records_handed_to_the_helper() {
    let s = session(1);
    let a = helper_auth_record(&s);
    assert_eq!((a.token.as_str(), a.sub_key.as_str(), a.sub_channel.as_str()), ("access", "pub-1", "channel-1"));
    assert_eq!(a.auth_type, AUTH_TYPE_AUTH0);
    let u = helper_user_record(&s.profile);
    assert_eq!(u.id, 42);
    assert_eq!(u.sounds_status, "trial");
    assert_eq!(u.bio, "");
    assert_eq!(u.features, vec![("beta".to_string(), true)]);
    let mut p = profile("x", "y");
    p.sounds_status = "active".to_string();
    assert_eq!(helper_user_record(&p).sounds_status, "active");
}

#[test]
fn memory_session_handed_to_helper() {
    let mut state = AppState::new();
    let (a, u) = state.session_auth_user_from_memory();
    assert!(a.is_none() && u.is_none());
    state.set_owned_auth(Some(session(3)));
    let (a, u) = state.session_auth_user_from_memory();
    assert_eq!(a.map(|a| a.token), Some("access".to_string()));
    assert_eq!(u.map(|u| u.username), Some("ann".to_string()));
}

#[test]
fn helper_sync_succeeds_if_either_call_does() {
    assert_eq!(combine_helper_sync(Ok(()), Err("b".to_string())), Ok(()));
    assert_eq!(combine_helper_sync(Err("a".to_string()), Ok(())), Ok(()));
    assert_eq!(combine_helper_sync(Err("a".to_string()), Err("b".to_string())), Err("a; b".to_string()));
}

#[test]
fn rotated_refresh_tokens_replace_the_old_one() {
    assert_eq!(refresh_token_after_refresh("old", Some("new".to_string())), "new");
    assert_eq!(refresh_token_after_refresh("old", None), "old");
    assert_eq!(refresh_token_after_login(Some("r".to_string())), Ok("r".to_string()));
    assert_eq!(refresh_token_after_login(None), Err("Login did not return a refresh token".to_string()));
}

#[test]
fn session_expiry_from_token_lifetime() {
    let s = owned_session_from_token("tok".to_string(), 3600, 1_000, profile("a", "b"));
    assert_eq!(s.expires_at, 1_000 + 3_600_000);
    assert_eq!(s.access_token, "tok");
    let s = owned_session_from_token("tok".to_string(), u64::MAX, 0, profile("a", "b"));
    assert_eq!(s.expires_at, u64::MAX);
}

#[test]
fn callback_yields_code_only_with_matching_state() {
    let ok = pairs(&[("code", "c1"), ("state", "s1")]);
    assert_eq!(auth_callback_code(&ok, "s1"), Ok("c1".to_string()));
    assert_eq!(auth_callback_code(&ok, "s2"), Err("Splice login state mismatch".to_string()));
    let no_state = pairs(&[("code", "c1")]);
    assert_eq!(auth_callback_code(&no_state, "s1"), Err("Splice login state mismatch".to_string()));
    let no_code = pairs(&[("state", "s1")]);
    assert_eq!(auth_callback_code(&no_code, "s1"), Err("Splice login callback did not include a code".to_string()));
    let error = pairs(&[("state", "s1"), ("error", "access_denied"), ("error_description", "User cancelled")]);
    assert_eq!(auth_callback_code(&error, "s1"), Err("Splice login failed: access_denied".to_string()));
    let first_wins = pairs(&[("state", "s1"), ("code", "first"), ("code", "second")]);
    assert_eq!(auth_callback_code(&first_wins, "s1"), Ok("first".to_string()));
}

#[test]
fn redirect_detection_and_consent() {
    assert!(is_auth_redirect("http://localhost/auth-callback?code=1"));
    assert!(!is_auth_redirect("https://auth.splice.com/authorize"));
    assert_eq!(require_login_consent(true), Ok(()));
    assert_eq!(
        require_login_consent(false),
        Err("Please approve Supuraisu using macOS Keychain before signing in.".to_string())
    );
}

#[test]
fn sign_out_forgets_the_session() {
    let mut state = AppState::new();
    state.set_keychain_consent(true);
    state.set_owned_auth(Some(session(1)));
    let entry = state.sign_out().ok().expect("signed out");
    assert_eq!((entry.service(), entry.account()), ("Supuraisu Auth", "splice-refresh-token-v1"));
    assert!(state.owned_auth_state().is_none());
    assert!(state.has_keychain_consent());
}
