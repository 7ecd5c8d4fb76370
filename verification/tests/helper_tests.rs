use supuraisu::auth::{AuthRecord, OwnedAuthSession, UserRecord};
use supuraisu::catalog::SampleRecord;
use supuraisu::helper::{
    access_token_from_helper, auth_type_label, check_drag_source, check_pinned_cert, check_preview_url,
    helper_auth_snapshot, helper_session_token, join_lines, pinned_cert_matches, preferences_summary,
    probe_call_failure, probe_connected, probe_not_connected, require_file_hash, require_path, session_summary,
    supuraisu_diagnostics, user_summary, DiscoveryAction, DownloadPoll, HelperDiscovery, PortScan,
    UserPreferencesRecord,
};
use supuraisu::paths::SpliceEnvironmentStatus;
use supuraisu::profile::SpliceProfile;

fn auth(token: &str, auth_type: i32) -> AuthRecord {
    AuthRecord { token: token.to_string(), sub_key: "key".to_string(), sub_channel: "chan".to_string(), auth_type }
}

fn user(name: &str, email: &str) -> UserRecord {
    UserRecord {
        id: 1,
        username: name.to_string(),
        bio: String::new(),
        avatar_url: String::new(),
        location: String::new(),
        email: email.to_string(),
        sounds_status: "active".to_string(),
        credits: 100,
        features: Vec::new(),
        sounds_plan: 2,
        uuid: "uuid".to_string(),
    }
}

fn profile(name: &str, email: &str) -> SpliceProfile {
    SpliceProfile {
        id: 9,
        uuid: "u".to_string(),
        username: name.to_string(),
        email: email.to_string(),
        avatar_url: String::new(),
        credits: 5,
        sounds_plan: 1,
        sounds_state: String::new(),
        sounds_status: String::new(),
        channel: String::new(),
        pubnub_key: String::new(),
        features: Vec::new(),
    }
}

fn environment(helper_installed: bool, cert: bool, key: bool) -> SpliceEnvironmentStatus {
    SpliceEnvironmentStatus {
        app_path: "/Applications/Splice.app".to_string(),
        app_installed: true,
        helper_path: "/h".to_string(),
        helper_installed,
        user_data_path: None,
        cert_path: None,
        key_path: None,
        cert_exists: cert,
        key_exists: key,
        grpc_port_start: 56765,
        grpc_port_end: 56785,
    }
}

#[test]
fn auth_type_labels() {
    assert_eq!(auth_type_label(1), "AUTH0");
    assert_eq!(auth_type_label(0), "SPLICE");
    assert_eq!(auth_type_label(7), "UNKNOWN(7)");
    assert_eq!(auth_type_label(-3), "UNKNOWN(-3)");
}

#[test]
fn probe_summaries() {
    let s = session_summary(auth("tok", 1));
    assert!(s.has_token);
    assert_eq!(s.auth_type, "AUTH0");
    assert_eq!(s.sub_channel, "chan");
    assert!(!session_summary(auth("", 0)).has_token);
    let u = user_summary(user("ann", "a@x"));
    assert_eq!((u.username.as_str(), u.email.as_str(), u.credits, u.sounds_plan), ("ann", "a@x", 100, 2));
    let p = preferences_summary(UserPreferencesRecord {
        splice_folder_path: "/Splice".to_string(),
        save_outside_splice_folder: true,
        sample_import_directories: vec!["/a".to_string()],
        preset_count: 3,
    });
    assert_eq!(p.preset_locations, 3);
    assert_eq!(p.splice_folder_path, "/Splice");
}

#[test]
fn probe_failure_lines() {
    assert_eq!(probe_call_failure(56765, "GetSession", "boom"), "56765: GetSession failed: boom");
    let r = probe_not_connected("no helper".to_string());
    assert!(!r.connected);
    assert_eq!(r.errors, vec!["no helper".to_string()]);
    assert!(r.port.is_none() && r.session.is_none() && r.user.is_none() && r.preferences.is_none());
}

#[test]
fn probe_connected_collects_call_failures() {
    let r = probe_connected(
        56770,
        vec!["56765: refused".to_string()],
        Ok(Some(auth("t", 0))),
        Err("down".to_string()),
        Ok(None),
    );
    assert!(r.connected);
    assert_eq!(r.port, Some(56770));
    assert_eq!(r.errors, vec!["56765: refused".to_string(), "56770: ValidateLogin failed: down".to_string()]);
    assert_eq!(r.session.map(|s| s.auth_type), Some("SPLICE".to_string()));
    assert!(r.user.is_none());
    assert!(r.preferences.is_none());
}

#[test]
fn snapshot_when_helper_unreachable() {
    let snap = helper_auth_snapshot(Err("x".to_string()), Ok(None), Ok(None));
    assert_eq!(snap, (false, false, String::new(), String::new(), String::new(), vec!["Splice helper is not running".to_string()]));
}

#[test]
fn snapshot_when_helper_answers() {
    let snap = helper_auth_snapshot(
        Ok(vec!["56765: refused".to_string()]),
        Ok(Some(auth("tok", 1))),
        Err("bad".to_string()),
    );
    assert!(snap.0 && snap.1);
    assert_eq!(snap.2, "1");
    assert_eq!(snap.3, "");
    assert_eq!(snap.5, vec!["56765: refused".to_string(), "Helper ValidateLogin failed: bad".to_string()]);
    let snap = helper_auth_snapshot(Ok(Vec::new()), Err("s".to_string()), Ok(Some(user("bo", "b@x"))));
    assert!(snap.0 && !snap.1);
    assert_eq!((snap.3.as_str(), snap.4.as_str()), ("bo", "b@x"));
    assert_eq!(snap.5, vec!["Helper GetSession failed: s".to_string()]);
}

#[test]
fn helper_token_must_be_non_empty() {
    assert_eq!(helper_session_token(Some(auth("abc", 1))), Ok("abc".to_string()));
    let missing = Err("No authenticated Splice session token available".to_string());
    assert_eq!(helper_session_token(Some(auth("", 1))), missing);
    assert_eq!(helper_session_token(None), missing);
}

#[test]
fn access_token_falls_back_to_helper() {
    assert_eq!(access_token_from_helper(None, Ok("h".to_string())), Ok("h".to_string()));
    assert_eq!(access_token_from_helper(Some("o".to_string()), Ok("h".to_string())), Ok("h".to_string()));
    assert_eq!(access_token_from_helper(None, Err("hx".to_string())), Err("hx".to_string()));
    assert_eq!(
        access_token_from_helper(Some("ox".to_string()), Err("hx".to_string())),
        Err("Supuraisu auth failed: ox; helper auth failed: hx".to_string())
    );
}

#[test]
fn diagnostics_report_missing_pieces() {
    let session = OwnedAuthSession { access_token: "t".to_string(), expires_at: 10, profile: profile("ann", "") };
    let helper = (true, true, "1".to_string(), "ann".to_string(), String::new(), vec!["e1".to_string()]);
    let d = supuraisu_diagnostics("0.1.4".to_string(), true, Some(&session), helper, environment(false, true, false));
    assert_eq!(d.app_version, "0.1.4");
    assert!(d.owned_signed_in && d.helper_synced && d.keychain_consent);
    assert_eq!(d.owned_username, "ann");
    assert_eq!(
        d.errors,
        vec![
            "e1".to_string(),
            "Splice Helper is not installed at the expected path".to_string(),
            "Splice local TLS certificate/key is missing".to_string(),
        ]
    );
    let helper = (true, true, "1".to_string(), "bob".to_string(), String::new(), Vec::new());
    let d = supuraisu_diagnostics("v".to_string(), false, None, helper, environment(true, true, true));
    assert!(!d.owned_signed_in && !d.helper_synced);
    assert!(d.errors.is_empty());
}

#[test]
fn port_scan_covers_the_helper_range() {
    let mut scan = PortScan::new();
    let mut tried = Vec::new();
    while let Some(port) = scan.next_port() {
        tried.push(port);
        scan.record_failure("refused");
    }
    assert_eq!(tried.first(), Some(&56765));
    assert_eq!(tried.last(), Some(&56785));
    assert_eq!(tried.len(), 21);
    let errors = scan.into_errors();
    assert_eq!(errors[0], "56765: refused");
    assert_eq!(errors.len(), 21);
}

#[test]
fn join_lines_joins_with_separator() {
    assert_eq!(join_lines(&vec!["a".to_string(), "b".to_string(), "c".to_string()], "\n"), "a\nb\nc");
    assert_eq!(join_lines(&Vec::new(), "\n"), "");
    assert_eq!(join_lines(&vec!["x".to_string()], ", "), "x");
}

#[test]
fn discovery_found_on_first_scan() {
    let mut d = HelperDiscovery::new();
    assert_eq!(d.next_action(), DiscoveryAction::Scan);
    let r = d.record_scan(Some((56770, vec!["56765: refused".to_string()])));
    assert_eq!(r, Some((56770, vec!["56765: refused".to_string()])));
}

#[test]
fn discovery_launches_then_retries_sixteen_times() {
    let mut d = HelperDiscovery::new();
    assert!(d.record_scan(None).is_none());
    assert_eq!(d.next_action(), DiscoveryAction::Launch);
    d.record_launch(Ok(true));
    let mut waits = 0;
    while d.next_action() == DiscoveryAction::WaitThenScan {
        waits += 1;
        assert!(d.record_scan(None).is_none());
    }
    assert_eq!(waits, 16);
    assert_eq!(d.next_action(), DiscoveryAction::GiveUp);
    assert_eq!(d.give_up_message(), "no Splice helper found; errors: Launched Splice Helper hosted by Supuraisu");
}

#[test]
fn discovery_found_after_launch_reports_launch_line_first() {
    let mut d = HelperDiscovery::new();
    d.record_scan(None);
    d.record_launch(Ok(false));
    let r = d.record_scan(Some((56766, vec!["56765: refused".to_string()])));
    assert_eq!(
        r,
        Some((56766, vec!["Splice helper launch was throttled briefly".to_string(), "56765: refused".to_string()]))
    );
    let mut d = HelperDiscovery::new();
    d.record_scan(None);
    d.record_launch(Err("Could not launch".to_string()));
    assert_eq!(d.give_up_message(), "no Splice helper found; errors: Could not launch");
}

#[test]
fn blank_inputs_are_refused() {
    assert_eq!(require_file_hash("  "), Err("file_hash is required".to_string()));
    assert_eq!(require_file_hash("abc"), Ok(()));
    assert_eq!(require_path(""), Err("path is required".to_string()));
    assert_eq!(require_path("/x"), Ok(()));
}

#[test]
fn download_poll_stops_when_file_exists() {
    let mut poll = DownloadPoll::new();
    assert!(poll.should_poll());
    poll.record(None, false);
    assert!(poll.should_poll());
    let mut s = sample_record("");
    poll.record(Some(s.clone()), true);
    assert!(poll.should_poll());
    s.local_path = "/Splice/kick.wav".to_string();
    poll.record(Some(s), true);
    assert!(!poll.should_poll());
    let r = poll.finish();
    assert!(r.requested);
    assert_eq!(r.sample.map(|x| x.local_path), Some("/Splice/kick.wav".to_string()));
}

#[test]
fn download_poll_gives_up_after_sixty() {
    let mut poll = DownloadPoll::new();
    let mut n = 0;
    while poll.should_poll() {
        poll.record(None, false);
        n += 1;
    }
    assert_eq!(n, 60);
    let r = poll.finish();
    assert!(r.requested && r.sample.is_none());
}

fn sample_record(local_path: &str) -> SampleRecord {
    SampleRecord {
        file_hash: "h".to_string(),
        filename: "kick.wav".to_string(),
        local_path: local_path.to_string(),
        bpm: 0,
        audio_key: String::new(),
        sample_type: String::new(),
        genre: String::new(),
        provider_name: String::new(),
        price: 0,
        purchased_at: 0,
        tags: Vec::new(),
        preview_url: String::new(),
        waveform_url: String::new(),
        duration: 0,
        pack_uuid: String::new(),
    }
}

#[test]
fn preview_urls_only_from_splice_storage() {
    assert_eq!(check_preview_url("https://spliceproduction.s3.amazonaws.com/x.mp3"), Ok(()));
    assert_eq!(check_preview_url("https://spliceblob.splice.com/y"), Ok(()));
    assert_eq!(
        check_preview_url("https://evil.example.com/https://spliceblob.splice.com/"),
        Err("Refusing to fetch non-Splice preview URL".to_string())
    );
}

#[test]
fn pinned_certificate_comparison() {
    assert!(pinned_cert_matches(&[1, 2, 3], &[1, 2, 3]));
    assert!(!pinned_cert_matches(&[1, 2, 3], &[1, 2, 4]));
    assert!(!pinned_cert_matches(&[1, 2], &[1, 2, 3]));
    assert_eq!(check_pinned_cert(&[7], &[7]), Ok(()));
    assert_eq!(
        check_pinned_cert(&[7], &[8]),
        Err("server certificate did not match pinned Splice local cert".to_string())
    );
}

#[test]
fn drag_needs_an_existing_file() {
    assert_eq!(check_drag_source("/a.wav", true), Ok(()));
    assert_eq!(check_drag_source("/a.wav", false), Err("Not a file: /a.wav".to_string()));
}

#[test]
fn pinned_certificate_from_pem() {
    let pem = b"-----BEGIN CERTIFICATE-----\nAQID\n-----END CERTIFICATE-----\n";
    assert_eq!(supuraisu::helper::pinned_cert_der(pem), Ok(vec![1, 2, 3]));
    assert!(supuraisu::helper::pinned_cert_der(b"no certificate here").is_err());
}

#[test]
fn probe_summaries_follow_the_answers() {
    let r = probe_connected(
        56765,
        Vec::new(),
        Ok(Some(auth("", 5))),
        Ok(Some(user("zoe", "z@x"))),
        Ok(Some(UserPreferencesRecord {
            splice_folder_path: "/S".to_string(),
            save_outside_splice_folder: false,
            sample_import_directories: vec!["/i".to_string()],
            preset_count: 7,
        })),
    );
    assert!(r.errors.is_empty());
    let s = r.session.unwrap();
    assert!(!s.has_token);
    assert_eq!((s.auth_type.as_str(), s.sub_channel.as_str()), ("UNKNOWN(5)", "chan"));
    let u = r.user.unwrap();
    assert_eq!((u.username.as_str(), u.email.as_str(), u.sounds_status.as_str(), u.credits, u.sounds_plan), ("zoe", "z@x", "active", 100, 2));
    let p = r.preferences.unwrap();
    assert_eq!((p.splice_folder_path.as_str(), p.save_outside_splice_folder, p.preset_locations), ("/S", false, 7));
    assert_eq!(p.sample_import_directories, vec!["/i".to_string()]);
}
