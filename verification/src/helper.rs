//! Talking to the Splice helper: finding its port, what its answers are
//! reported as, waiting for a download, and checks on requests the UI makes.

use vstd::prelude::*;
use rustls_pki_types::pem::PemObject;
use crate::auth::{helper_matches, snapshot_view, AuthRecord, HelperSnapshot, OwnedAuthSession, UserRecord, helper_synced_with};
use crate::catalog::{summarize_sample, SampleRecord, SampleSummary, is_summary_of};
use crate::paths::{SpliceEnvironmentStatus, SPLICE_GRPC_PORT_END, SPLICE_GRPC_PORT_START};
use crate::text::{texts, concat, concat3, decimal, has_prefix, i64_to_string, signed_decimal, starts_with, trim, trim_seq, u64_to_string};

verus! {

// ---------------------------------------------------------------------------
// Probe summaries
// ---------------------------------------------------------------------------

/// The helper's session as the probe reports it.
#[derive(Debug)]
pub struct SessionSummary {
    pub has_token: bool,
    pub auth_type: String,
    pub sub_channel: String,
}

/// The helper's user as the probe reports it.
#[derive(Debug)]
pub struct UserSummary {
    pub username: String,
    pub email: String,
    pub sounds_status: String,
    pub credits: u64,
    pub sounds_plan: i32,
}

/// The helper's preferences as it gives them.
#[derive(Debug)]
pub struct UserPreferencesRecord {
    pub splice_folder_path: String,
    pub save_outside_splice_folder: bool,
    pub sample_import_directories: Vec<String>,
    pub preset_count: usize,
}

/// The helper's preferences as the probe reports them.
#[derive(Debug)]
pub struct UserPreferencesSummary {
    pub splice_folder_path: String,
    pub save_outside_splice_folder: bool,
    pub sample_import_directories: Vec<String>,
    pub preset_locations: usize,
}

/// What a probe of the helper found.
#[derive(Debug)]
pub struct HelperProbeResult {
    pub connected: bool,
    pub port: Option<u16>,
    pub errors: Vec<String>,
    pub session: Option<SessionSummary>,
    pub user: Option<UserSummary>,
    pub preferences: Option<UserPreferencesSummary>,
}

/// The name of a helper auth type: 1 is Auth0, 0 is Splice's own.
pub open spec fn auth_type_name(auth_type: i32) -> Seq<char> {
    if auth_type == 1 {
        "AUTH0"@
    } else if auth_type == 0 {
        "SPLICE"@
    } else {
        "UNKNOWN("@ + signed_decimal(auth_type as int) + ")"@
    }
}

/// The name of a helper auth type.
pub fn auth_type_label(auth_type: i32) -> (r: String)
    ensures
        r@ == auth_type_name(auth_type),
{
    if auth_type == 1 {
        "AUTH0".to_owned()
    } else if auth_type == 0 {
        "SPLICE".to_owned()
    } else {
        let n = i64_to_string(auth_type as i64);
        concat3("UNKNOWN(", n.as_str(), ")")
    }
}

/// `s` is the probe's summary of the helper's session `a`: whether it has
/// a token, its auth type by name, and its channel.
pub open spec fn is_session_summary(s: SessionSummary, a: AuthRecord) -> bool {
    &&& s.has_token == (a.token@.len() > 0)
    &&& s.auth_type@ == auth_type_name(a.auth_type)
    &&& s.sub_channel == a.sub_channel
}

/// `s` is the probe's summary of the helper's user `u`.
pub open spec fn is_user_summary(s: UserSummary, u: UserRecord) -> bool {
    &&& s.username == u.username
    &&& s.email == u.email
    &&& s.sounds_status == u.sounds_status
    &&& s.credits == u.credits
    &&& s.sounds_plan == u.sounds_plan
}

/// `s` is the probe's summary of the helper's preferences `p`.
pub open spec fn is_preferences_summary(s: UserPreferencesSummary, p: UserPreferencesRecord) -> bool {
    &&& s.splice_folder_path == p.splice_folder_path
    &&& s.save_outside_splice_folder == p.save_outside_splice_folder
    &&& s.sample_import_directories == p.sample_import_directories
    &&& s.preset_locations == p.preset_count
}

/// The probe's summary of the helper's session.
pub fn session_summary(auth: AuthRecord) -> (r: SessionSummary)
    ensures
        r.has_token == (auth.token@.len() > 0),
        r.auth_type@ == auth_type_name(auth.auth_type),
        r.sub_channel == auth.sub_channel,
{
    SessionSummary {
        has_token: !auth.token.as_str().is_empty(),
        auth_type: auth_type_label(auth.auth_type),
        sub_channel: auth.sub_channel,
    }
}

/// The probe's summary of the helper's user.
pub fn user_summary(user: UserRecord) -> (r: UserSummary)
    ensures
        r.username == user.username,
        r.email == user.email,
        r.sounds_status == user.sounds_status,
        r.credits == user.credits,
        r.sounds_plan == user.sounds_plan,
{
    UserSummary {
        username: user.username,
        email: user.email,
        sounds_status: user.sounds_status,
        credits: user.credits,
        sounds_plan: user.sounds_plan,
    }
}

/// The probe's summary of the helper's preferences.
pub fn preferences_summary(prefs: UserPreferencesRecord) -> (r: UserPreferencesSummary)
    ensures
        r.splice_folder_path == prefs.splice_folder_path,
        r.save_outside_splice_folder == prefs.save_outside_splice_folder,
        r.sample_import_directories == prefs.sample_import_directories,
        r.preset_locations == prefs.preset_count,
{
    UserPreferencesSummary {
        splice_folder_path: prefs.splice_folder_path,
        save_outside_splice_folder: prefs.save_outside_splice_folder,
        sample_import_directories: prefs.sample_import_directories,
        preset_locations: prefs.preset_count,
    }
}

/// The message for a failed helper call during a probe.
pub fn probe_call_failure(port: u16, call: &str, detail: &str) -> (r: String)
    ensures
        r@ == decimal(port as nat) + ": "@ + call@ + " failed: "@ + detail@,
{
    let p = u64_to_string(port as u64);
    let head = concat3(p.as_str(), ": ", call);
    concat3(head.as_str(), " failed: ", detail)
}

/// The probe result when no helper could be reached.
pub fn probe_not_connected(error: String) -> (r: HelperProbeResult)
    ensures
        !r.connected,
        r.port is None,
        r.errors@ == seq![error],
        r.session is None,
        r.user is None,
        r.preferences is None,
{
    let mut errors: Vec<String> = Vec::new();
    errors.push(error);
    HelperProbeResult { connected: false, port: None, errors, session: None, user: None, preferences: None }
}

/// The probe result for a helper reached on `port`: each call's answer is
/// summarised, and a failed call adds its message after the errors met
/// while connecting.
pub fn probe_connected(
    port: u16,
    errors: Vec<String>,
    session: Result<Option<AuthRecord>, String>,
    user: Result<Option<UserRecord>, String>,
    preferences: Result<Option<UserPreferencesRecord>, String>,
) -> (r: HelperProbeResult)
    ensures
        r.connected,
        r.port == Some(port),
        texts(r.errors@) == texts(errors@) + failure_line(
            port,
            "GetSession"@,
            session,
        ) + failure_line(port, "ValidateLogin"@, user) + failure_line(
            port,
            "UserPreferences"@,
            preferences,
        ),
        match session {
            Ok(Some(a)) => r.session matches Some(s) && is_session_summary(s, a),
            _ => r.session is None,
        },
        match user {
            Ok(Some(u)) => r.user matches Some(s) && is_user_summary(s, u),
            _ => r.user is None,
        },
        match preferences {
            Ok(Some(p)) => r.preferences matches Some(s) && is_preferences_summary(s, p),
            _ => r.preferences is None,
        },
{
    let mut errors = errors;
    let ghost start = texts(errors@);
    let session_summary = match session {
        Ok(Some(auth)) => Some(session_summary(auth)),
        Ok(None) => None,
        Err(e) => {
            errors.push(probe_call_failure(port, "GetSession", e.as_str()));
            None
        },
    };
    let ghost after_session = texts(errors@);
    assert(after_session =~= start + failure_line(port, "GetSession"@, session));
    let user_summary = match user {
        Ok(Some(u)) => Some(user_summary(u)),
        Ok(None) => None,
        Err(e) => {
            errors.push(probe_call_failure(port, "ValidateLogin", e.as_str()));
            None
        },
    };
    let ghost after_user = texts(errors@);
    assert(after_user =~= after_session + failure_line(port, "ValidateLogin"@, user));
    let preferences_summary = match preferences {
        Ok(Some(p)) => Some(preferences_summary(p)),
        Ok(None) => None,
        Err(e) => {
            errors.push(probe_call_failure(port, "UserPreferences", e.as_str()));
            None
        },
    };
    assert(texts(errors@) =~= after_user + failure_line(
        port,
        "UserPreferences"@,
        preferences,
    ));
    HelperProbeResult {
        connected: true,
        port: Some(port),
        errors,
        session: session_summary,
        user: user_summary,
        preferences: preferences_summary,
    }
}

/// The line a failed probe call adds: none when the call succeeded.
pub open spec fn failure_line<T>(port: u16, call: Seq<char>, result: Result<T, String>) -> Seq<Seq<char>> {
    match result {
        Ok(_) => Seq::empty(),
        Err(e) => seq![decimal(port as nat) + ": "@ + call + " failed: "@ + e@],
    }
}

// ---------------------------------------------------------------------------
// The helper's own session
// ---------------------------------------------------------------------------

/// What the helper reports of its session: not connected with one error
/// when it cannot be reached; otherwise its token state and auth type (as a
/// number), its user, and the errors met, each failed call adding one.
pub fn helper_auth_snapshot(
    connection: Result<Vec<String>, String>,
    session: Result<Option<AuthRecord>, String>,
    user: Result<Option<UserRecord>, String>,
) -> (r: HelperSnapshot)
    ensures
        match connection {
            Err(_) => {
                &&& !r.0 && !r.1
                &&& r.2@ == Seq::<char>::empty() && r.3@ == Seq::<char>::empty() && r.4@ == Seq::<
                    char,
                >::empty()
                &&& texts(r.5@) == seq!["Splice helper is not running"@]
            },
            Ok(connect_errors) => {
                &&& r.0
                &&& r.1 == (session matches Ok(Some(a)) && a.token@.len() > 0)
                &&& r.2@ == match session {
                    Ok(Some(a)) => signed_decimal(a.auth_type as int),
                    _ => Seq::<char>::empty(),
                }
                &&& r.3@ == match user {
                    Ok(Some(u)) => u.username@,
                    _ => Seq::<char>::empty(),
                }
                &&& r.4@ == match user {
                    Ok(Some(u)) => u.email@,
                    _ => Seq::<char>::empty(),
                }
                &&& texts(r.5@) == texts(connect_errors@)
                    + snapshot_failure("Helper GetSession failed: "@, session) + snapshot_failure(
                    "Helper ValidateLogin failed: "@,
                    user,
                )
            },
        },
{
    let mut errors = match connection {
        Ok(found) => found,
        Err(_) => {
            let mut errors: Vec<String> = Vec::new();
            errors.push("Splice helper is not running".to_owned());
            assert(texts(errors@) =~= seq!["Splice helper is not running"@]);
            return (false, false, String::new(), String::new(), String::new(), errors);
        },
    };
    let ghost start = texts(errors@);
    let mut has_token = false;
    let mut auth_type = String::new();
    match session {
        Ok(Some(auth)) => {
            has_token = !auth.token.as_str().is_empty();
            auth_type = i64_to_string(auth.auth_type as i64);
        },
        Ok(None) => {},
        Err(e) => {
            errors.push(concat("Helper GetSession failed: ", e.as_str()));
        },
    }
    let ghost mid = texts(errors@);
    assert(mid =~= start + snapshot_failure("Helper GetSession failed: "@, session));
    let mut username = String::new();
    let mut email = String::new();
    match user {
        Ok(Some(u)) => {
            username = u.username;
            email = u.email;
        },
        Ok(None) => {},
        Err(e) => {
            errors.push(concat("Helper ValidateLogin failed: ", e.as_str()));
        },
    }
    assert(texts(errors@) =~= mid + snapshot_failure(
        "Helper ValidateLogin failed: "@,
        user,
    ));
    (true, has_token, auth_type, username, email, errors)
}

/// The line a failed snapshot call adds.
pub open spec fn snapshot_failure<T>(prefix: Seq<char>, result: Result<T, String>) -> Seq<Seq<char>> {
    match result {
        Ok(_) => Seq::empty(),
        Err(e) => seq![prefix + e@],
    }
}

/// The access token of the helper's session, which must be non-empty.
pub fn helper_session_token(auth: Option<AuthRecord>) -> (r: Result<String, String>)
    ensures
        match auth {
            Some(a) if a.token@.len() > 0 => r == Ok::<String, String>(a.token),
            _ => r matches Err(m) && m@ == "No authenticated Splice session token available"@,
        },
{
    match auth {
        Some(a) => if a.token.as_str().is_empty() {
            Err("No authenticated Splice session token available".to_owned())
        } else {
            Ok(a.token)
        },
        None => Err("No authenticated Splice session token available".to_owned()),
    }
}

/// The message when neither Supuraisu's session nor the helper's gives a token.
pub fn access_token_failure(owned_error: &str, helper_error: &str) -> (r: String)
    ensures
        r@ == "Supuraisu auth failed: "@ + owned_error@ + "; helper auth failed: "@ + helper_error@,
{
    let head = concat("Supuraisu auth failed: ", owned_error);
    concat3(head.as_str(), "; helper auth failed: ", helper_error)
}

/// The access token when Supuraisu's own session gave none: the helper's
/// token; when the helper fails too after Supuraisu's session failed with
/// `owned_error`, both failures are reported.
pub fn access_token_from_helper(owned_error: Option<String>, helper: Result<String, String>) -> (r: Result<
    String,
    String,
>)
    ensures
        match helper {
            Ok(t) => r == Ok::<String, String>(t),
            Err(h) => match owned_error {
                None => r == Err::<String, String>(h),
                Some(o) => r matches Err(m) && m@ == "Supuraisu auth failed: "@ + o@
                    + "; helper auth failed: "@ + h@,
            },
        },
{
    match helper {
        Ok(t) => Ok(t),
        Err(h) => match owned_error {
            None => Err(h),
            Some(o) => Err(access_token_failure(o.as_str(), h.as_str())),
        },
    }
}

/// The report of the diagnostics view.
#[derive(Debug)]
pub struct DiagnosticsInfo {
    pub app_version: String,
    pub keychain_consent: bool,
    pub owned_signed_in: bool,
    pub owned_username: String,
    pub owned_email: String,
    pub helper_connected: bool,
    pub helper_has_token: bool,
    pub helper_auth_type: String,
    pub helper_username: String,
    pub helper_email: String,
    pub helper_synced: bool,
    pub environment: SpliceEnvironmentStatus,
    pub errors: Vec<String>,
}

/// The lines diagnostics add about the installed app.
pub open spec fn environment_problems(env: SpliceEnvironmentStatus) -> Seq<Seq<char>> {
    (if !env.helper_installed {
        seq!["Splice Helper is not installed at the expected path"@]
    } else {
        Seq::empty()
    }) + (if !env.cert_exists || !env.key_exists {
        seq!["Splice local TLS certificate/key is missing"@]
    } else {
        Seq::empty()
    })
}

/// The diagnostics name each missing piece of the installed app once: the
/// certificate line exactly when the certificate or the key is missing, the
/// helper line exactly when the helper is not installed, and nothing else.
pub proof fn lemma_diagnostics_name_missing_pieces(env: SpliceEnvironmentStatus)
    ensures
        environment_problems(env).contains("Splice local TLS certificate/key is missing"@) <==> (
        !env.cert_exists || !env.key_exists),
        environment_problems(env).contains("Splice Helper is not installed at the expected path"@)
            <==> !env.helper_installed,
        environment_problems(env).len() == (if env.helper_installed {
            0int
        } else {
            1int
        }) + (if env.cert_exists && env.key_exists {
            0int
        } else {
            1int
        }),
{
    let cert_line = "Splice local TLS certificate/key is missing"@;
    let helper_line = "Splice Helper is not installed at the expected path"@;
    reveal_strlit("Splice local TLS certificate/key is missing");
    reveal_strlit("Splice Helper is not installed at the expected path");
    assert(cert_line.len() != helper_line.len());
    let probs = environment_problems(env);
    if !env.helper_installed {
        assert(probs[0] == helper_line);
    }
    if !env.cert_exists || !env.key_exists {
        assert(probs[probs.len() - 1] == cert_line);
    }
    if probs.contains(cert_line) {
        let i = choose|i: int| 0 <= i < probs.len() && probs[i] == cert_line;
        assert(probs[i] == cert_line);
    }
    if probs.contains(helper_line) {
        let i = choose|i: int| 0 <= i < probs.len() && probs[i] == helper_line;
        assert(probs[i] == helper_line);
    }
}

/// The diagnostics report: the helper's errors, then what is missing from
/// the installed app.
pub fn supuraisu_diagnostics(
    app_version: String,
    keychain_consent: bool,
    owned: Option<&OwnedAuthSession>,
    helper: HelperSnapshot,
    environment: SpliceEnvironmentStatus,
) -> (r: DiagnosticsInfo)
    ensures
        r.app_version == app_version,
        r.keychain_consent == keychain_consent,
        r.owned_signed_in == owned is Some,
        r.owned_username@ == match owned {
            Some(s) => s.profile.username@,
            None => Seq::<char>::empty(),
        },
        r.owned_email@ == match owned {
            Some(s) => s.profile.email@,
            None => Seq::<char>::empty(),
        },
        r.helper_connected == helper.0,
        r.helper_has_token == helper.1,
        r.helper_auth_type == helper.2,
        r.helper_username == helper.3,
        r.helper_email == helper.4,
        r.helper_synced == match owned {
            Some(s) => helper_matches(s.profile.username@, s.profile.email@, snapshot_view(helper)),
            None => false,
        },
        r.environment == environment,
        texts(r.errors@) == texts(helper.5@)
            + environment_problems(environment),
{
    let helper_synced = helper_synced_with(owned, &helper);
    let (connected, has_token, auth_type, username, email, helper_errors) = helper;
    let mut errors = helper_errors;
    let ghost start = texts(errors@);
    if !environment.helper_installed {
        errors.push("Splice Helper is not installed at the expected path".to_owned());
    }
    let ghost mid = texts(errors@);
    if !environment.cert_exists || !environment.key_exists {
        errors.push("Splice local TLS certificate/key is missing".to_owned());
    }
    assert(texts(errors@) =~= start + environment_problems(environment));
    let (owned_username, owned_email) = match owned {
        Some(s) => (s.profile.username.clone(), s.profile.email.clone()),
        None => (String::new(), String::new()),
    };
    DiagnosticsInfo {
        app_version,
        keychain_consent,
        owned_signed_in: owned.is_some(),
        owned_username,
        owned_email,
        helper_connected: connected,
        helper_has_token: has_token,
        helper_auth_type: auth_type,
        helper_username: username,
        helper_email: email,
        helper_synced,
        environment,
        errors,
    }
}

// ---------------------------------------------------------------------------
// Finding the helper
// ---------------------------------------------------------------------------

/// A scan of the helper's port range, from the first port to the last.
#[derive(Debug)]
pub struct PortScan {
    next: u32,
    errors: Vec<String>,
}

impl PortScan {
    /// The port to try next, if any is left.
    pub closed spec fn pending(&self) -> Option<u16> {
        if self.next <= SPLICE_GRPC_PORT_END {
            Some(self.next as u16)
        } else {
            None
        }
    }

    /// The failures so far, one line per port tried.
    pub closed spec fn failures(&self) -> Seq<Seq<char>> {
        texts(self.errors@)
    }

    /// A scan that starts at the first port.
    pub fn new() -> (r: PortScan)
        ensures
            r.pending() == Some(SPLICE_GRPC_PORT_START),
            r.failures() == Seq::<Seq<char>>::empty(),
    {
        let r = PortScan { next: SPLICE_GRPC_PORT_START as u32, errors: Vec::new() };
        assert(r.failures() =~= Seq::<Seq<char>>::empty());
        r
    }

    /// The port to try next, if any is left.
    pub fn next_port(&self) -> (r: Option<u16>)
        ensures
            r == self.pending(),
    {
        if self.next <= SPLICE_GRPC_PORT_END as u32 {
            Some(self.next as u16)
        } else {
            None
        }
    }

    /// Records that the pending port could not be connected to.
    pub fn record_failure(&mut self, detail: &str)
        requires
            old(self).pending() is Some,
        ensures
            final(self).failures() == old(self).failures().push(
                decimal(old(self).pending()->0 as nat) + ": "@ + detail@,
            ),
            final(self).pending() == if old(self).pending()->0 < SPLICE_GRPC_PORT_END {
                Some((old(self).pending()->0 + 1) as u16)
            } else {
                None::<u16>
            },
    {
        let port = u64_to_string(self.next as u64);
        let line = concat3(port.as_str(), ": ", detail);
        self.errors.push(line);
        self.next = self.next + 1;
        assert(texts(self.errors@) =~= texts(old(self).errors@).push(line@));
    }

    /// The failure lines, once a port answered.
    pub fn into_errors(self) -> (r: Vec<String>)
        ensures
            texts(r@) == self.failures(),
    {
        self.errors
    }
}

/// `list` joined with `sep` between items.
pub open spec fn joined(list: Seq<Seq<char>>, sep: Seq<char>) -> Seq<char>
    decreases list.len(),
{
    if list.len() == 0 {
        Seq::empty()
    } else if list.len() == 1 {
        list[0]
    } else {
        joined(list.drop_last(), sep) + sep + list.last()
    }
}

/// `list.join(sep)`.
pub fn join_lines(list: &Vec<String>, sep: &str) -> (r: String)
    ensures
        r@ == joined(texts(list@), sep@),
{
    let ghost items = texts(list@);
    let mut out = String::new();
    let mut i: usize = 0;
    while i < list.len()
        invariant
            i <= list@.len(),
            items == texts(list@),
            out@ == joined(items.subrange(0, i as int), sep@),
        decreases list@.len() - i,
    {
        assert(items.subrange(0, i + 1).drop_last() =~= items.subrange(0, i as int));
        if i == 0 {
            out = list[i].clone();
        } else {
            out = concat3(out.as_str(), sep, list[i].as_str());
        }
        i = i + 1;
    }
    assert(items.subrange(0, i as int) =~= items);
    out
}

/// How a launch attempt is reported.
pub open spec fn launch_report(outcome: Result<bool, String>) -> Seq<char> {
    match outcome {
        Ok(true) => "Launched Splice Helper hosted by Supuraisu"@,
        Ok(false) => "Splice helper launch was throttled briefly"@,
        Err(e) => e@,
    }
}

/// What to do next to find the helper.
#[derive(Debug, PartialEq, Eq, Structural)]
pub enum DiscoveryAction {
    /// Scan the port range now.
    Scan,
    /// Launch the helper.
    Launch,
    /// Wait a quarter second, then scan again.
    WaitThenScan,
    /// Stop looking.
    GiveUp,
}

/// How far the search for the helper has come.
#[derive(Debug, PartialEq, Eq, Structural)]
enum SearchStage {
    Fresh,
    Scanned,
    Launched,
}

/// The search for a running helper: one scan; if that fails, one launch
/// and up to 16 further scans a quarter second apart.
#[derive(Debug)]
pub struct HelperDiscovery {
    stage: SearchStage,
    retries: u32,
    errors: Vec<String>,
}

/// Whether a scan's report names `port` with the lines `lines`.
pub open spec fn reports_port(r: Option<(u16, Vec<String>)>, port: u16, lines: Seq<Seq<char>>) -> bool {
    match r {
        Some(res) => res.0 == port && texts(res.1@) == lines,
        None => false,
    }
}

impl HelperDiscovery {
    /// The action due now.
    pub closed spec fn due(&self) -> DiscoveryAction {
        if self.stage == SearchStage::Fresh {
            DiscoveryAction::Scan
        } else if self.stage == SearchStage::Scanned {
            DiscoveryAction::Launch
        } else if self.retries < 16 {
            DiscoveryAction::WaitThenScan
        } else {
            DiscoveryAction::GiveUp
        }
    }

    /// The messages gathered since the launch.
    pub closed spec fn notes(&self) -> Seq<Seq<char>> {
        texts(self.errors@)
    }

    /// The number of scans after the launch so far.
    pub closed spec fn rescans(&self) -> nat {
        self.retries as nat
    }

    /// A search that starts with a scan.
    pub fn new() -> (r: HelperDiscovery)
        ensures
            r.due() == DiscoveryAction::Scan,
            r.notes() == Seq::<Seq<char>>::empty(),
            r.rescans() == 0,
    {
        let r = HelperDiscovery { stage: SearchStage::Fresh, retries: 0, errors: Vec::new() };
        assert(r.notes() =~= Seq::<Seq<char>>::empty());
        r
    }

    /// The action due now.
    pub fn next_action(&self) -> (r: DiscoveryAction)
        ensures
            r == self.due(),
    {
        if self.stage == SearchStage::Fresh {
            DiscoveryAction::Scan
        } else if self.stage == SearchStage::Scanned {
            DiscoveryAction::Launch
        } else if self.retries < 16 {
            DiscoveryAction::WaitThenScan
        } else {
            DiscoveryAction::GiveUp
        }
    }

    /// Takes in a scan's outcome: the port found with the scan's failure
    /// lines, or nothing. A helper found on the first scan is reported with
    /// that scan's lines; one found later, after the lines gathered since
    /// the launch.
    pub fn record_scan(&mut self, found: Option<(u16, Vec<String>)>) -> (r: Option<(u16, Vec<String>)>)
        requires
            old(self).due() == DiscoveryAction::Scan || old(self).due() == DiscoveryAction::WaitThenScan,
        ensures
            match found {
                Some(f) => reports_port(r, f.0, (if old(self).due() == DiscoveryAction::Scan {
                    Seq::<Seq<char>>::empty()
                } else {
                    old(self).notes()
                }) + texts(f.1@)),
                None => {
                    &&& r is None
                    &&& old(self).due() == DiscoveryAction::Scan ==> final(self).due()
                        == DiscoveryAction::Launch
                    &&& old(self).due() == DiscoveryAction::WaitThenScan ==> final(self).rescans()
                        == old(self).rescans() + 1
                    &&& old(self).due() == DiscoveryAction::WaitThenScan ==> (final(self).due()
                        == if final(self).rescans() < 16 {
                        DiscoveryAction::WaitThenScan
                    } else {
                        DiscoveryAction::GiveUp
                    })
                    &&& final(self).notes() == old(self).notes()
                },
            },
    {
        let first = matches!(self.stage, SearchStage::Fresh);
        match found {
            Some((port, lines)) => {
                if first {
                    assert(texts(lines@) =~= Seq::<Seq<char>>::empty()
                        + texts(lines@));
                    assert(old(self).due() == DiscoveryAction::Scan);
                    Some((port, lines))
                } else {
                    let mut all: Vec<String> = Vec::new();
                    std::mem::swap(&mut all, &mut self.errors);
                    let ghost head = texts(all@);
                    let mut rest = lines;
                    all.append(&mut rest);
                    assert(texts(all@) =~= head + texts(lines@));
                    assert(old(self).due() != DiscoveryAction::Scan);
                    assert(head == old(self).notes());
                    Some((port, all))
                }
            },
            None => {
                if first {
                    self.stage = SearchStage::Scanned;
                } else {
                    self.retries = self.retries + 1;
                }
                None
            },
        }
    }

    /// Takes in the outcome of launching the helper.
    pub fn record_launch(&mut self, outcome: Result<bool, String>)
        requires
            old(self).due() == DiscoveryAction::Launch,
        ensures
            final(self).notes() == old(self).notes().push(launch_report(outcome)),
            final(self).due() == DiscoveryAction::WaitThenScan,
            final(self).rescans() == 0,
    {
        let line = match outcome {
            Ok(true) => "Launched Splice Helper hosted by Supuraisu".to_owned(),
            Ok(false) => "Splice helper launch was throttled briefly".to_owned(),
            Err(e) => e,
        };
        self.errors.push(line);
        self.stage = SearchStage::Launched;
        self.retries = 0;
        assert(texts(self.errors@) =~= texts(old(self).errors@).push(line@));
    }

    /// The message given when the helper could not be found.
    pub fn give_up_message(&self) -> (r: String)
        ensures
            r@ == "no Splice helper found; errors: "@ + joined(self.notes(), "\n"@),
    {
        let lines = join_lines(&self.errors, "\n");
        concat("no Splice helper found; errors: ", lines.as_str())
    }
}

// ---------------------------------------------------------------------------
// Downloads
// ---------------------------------------------------------------------------

/// A download needs a file hash that is not blank.
pub fn require_file_hash(file_hash: &str) -> (r: Result<(), String>)
    ensures
        trim_seq(file_hash@).len() == 0 ==> (r matches Err(m) && m@ == "file_hash is required"@),
        trim_seq(file_hash@).len() > 0 ==> r is Ok,
{
    if trim(file_hash).unicode_len() == 0 {
        Err("file_hash is required".to_owned())
    } else {
        Ok(())
    }
}

/// What a download request reports.
#[derive(Debug)]
pub struct DownloadSampleResult {
    pub requested: bool,
    pub sample: Option<SampleSummary>,
}

/// Waiting for a requested download: the sample's details are asked for up
/// to 60 times, until it has a local file that exists.
#[derive(Debug)]
pub struct DownloadPoll {
    polls: u32,
    done: bool,
    last_sample: Option<SampleRecord>,
}

impl DownloadPoll {
    /// Whether to ask again.
    pub closed spec fn wants_more(&self) -> bool {
        !self.done && self.polls < 60
    }

    /// The number of answers taken in.
    pub closed spec fn poll_count(&self) -> nat {
        self.polls as nat
    }

    /// The latest sample details the helper gave.
    pub closed spec fn latest(&self) -> Option<SampleRecord> {
        self.last_sample
    }

    /// A wait that has asked nothing yet.
    pub fn new() -> (r: DownloadPoll)
        ensures
            r.wants_more(),
            r.poll_count() == 0,
            r.latest() is None,
    {
        DownloadPoll { polls: 0, done: false, last_sample: None }
    }

    /// Whether to ask again.
    pub fn should_poll(&self) -> (r: bool)
        ensures
            r == self.wants_more(),
    {
        !self.done && self.polls < 60
    }

    /// Takes in one answer: the sample's details if the helper gave them,
    /// and whether the local file they name exists.
    pub fn record(&mut self, sample: Option<SampleRecord>, local_file_exists: bool)
        requires
            old(self).wants_more(),
        ensures
            final(self).poll_count() == old(self).poll_count() + 1,
            final(self).latest() == match sample {
                Some(s) => Some(s),
                None => old(self).latest(),
            },
            final(self).wants_more() == (final(self).poll_count() < 60 && !(sample matches Some(s)
                && s.local_path@.len() > 0 && local_file_exists)),
    {
        let mut finished = false;
        if let Some(s) = sample {
            finished = !s.local_path.as_str().is_empty() && local_file_exists;
            self.last_sample = Some(s);
        }
        self.polls = self.polls + 1;
        self.done = finished;
    }

    /// The report once waiting is over.
    pub fn finish(self) -> (r: DownloadSampleResult)
        ensures
            r.requested,
            match self.latest() {
                Some(s) => r.sample matches Some(summary) && is_summary_of(summary, s, None, None),
                None => r.sample is None,
            },
    {
        let sample = match self.last_sample {
            Some(s) => Some(summarize_sample(s)),
            None => None,
        };
        DownloadSampleResult { requested: true, sample }
    }
}

// ---------------------------------------------------------------------------
// Requests from the UI
// ---------------------------------------------------------------------------

/// A local path must not be blank.
pub fn require_path(path: &str) -> (r: Result<(), String>)
    ensures
        trim_seq(path@).len() == 0 ==> (r matches Err(m) && m@ == "path is required"@),
        trim_seq(path@).len() > 0 ==> r is Ok,
{
    if trim(path).unicode_len() == 0 {
        Err("path is required".to_owned())
    } else {
        Ok(())
    }
}

/// Previews are fetched only from Splice's own storage.
pub open spec fn allowed_preview_url(url: Seq<char>) -> bool {
    has_prefix(url, "https://spliceproduction.s3."@) || has_prefix(url, "https://spliceblob.splice.com/"@)
}

/// Refuses to fetch previews from anywhere but Splice's own storage.
pub fn check_preview_url(url: &str) -> (r: Result<(), String>)
    ensures
        allowed_preview_url(url@) ==> r is Ok,
        !allowed_preview_url(url@) ==> (r matches Err(m) && m@ == "Refusing to fetch non-Splice preview URL"@),
{
    if starts_with(url, "https://spliceproduction.s3.") || starts_with(url, "https://spliceblob.splice.com/") {
        Ok(())
    } else {
        Err("Refusing to fetch non-Splice preview URL".to_owned())
    }
}

/// The DER bytes of the first certificate section of a PEM text, `None`
/// when it has no readable one.
pub uninterp spec fn pem_first_cert(pem: Seq<u8>) -> Option<Seq<u8>>;

/// `rustls_pki_types::CertificateDer::from_pem_slice` (via `PemObject`),
/// with the certificate's DER bytes on success and the error's text on
/// failure; the contract names the result.
#[verifier::external_body]
fn decode_pem_certificate(pem: &[u8]) -> (r: Result<Vec<u8>, String>)
    ensures
        match r {
            Ok(der) => pem_first_cert(pem@) == Some(der@),
            Err(_) => pem_first_cert(pem@) is None,
        },
{
    match rustls_pki_types::CertificateDer::from_pem_slice(pem) {
        Ok(cert) => Ok(cert.as_ref().to_vec()),
        Err(e) => Err(e.to_string()),
    }
}

/// The certificate to pin: the first certificate in the helper's PEM file,
/// or the reason it could not be read.
pub fn pinned_cert_der(cert_pem: &[u8]) -> (r: Result<Vec<u8>, String>)
    ensures
        match r {
            Ok(der) => pem_first_cert(cert_pem@) == Some(der@),
            Err(_) => pem_first_cert(cert_pem@) is None,
        },
{
    decode_pem_certificate(cert_pem)
}

/// The helper's TLS certificate is trusted exactly when it is the pinned one.
pub fn pinned_cert_matches(presented: &[u8], pinned: &[u8]) -> (r: bool)
    ensures
        r == (presented@ == pinned@),
{
    if presented.len() != pinned.len() {
        return false;
    }
    let mut i: usize = 0;
    while i < presented.len()
        invariant
            presented@.len() == pinned@.len(),
            i <= presented@.len(),
            forall|k: int| 0 <= k < i ==> presented@[k] == pinned@[k],
        decreases presented@.len() - i,
    {
        if presented[i] != pinned[i] {
            return false;
        }
        i = i + 1;
    }
    assert(presented@ =~= pinned@);
    true
}

/// The verdict on the certificate the helper presents: accepted exactly
/// when it is the pinned one.
pub fn check_pinned_cert(presented: &[u8], pinned: &[u8]) -> (r: Result<(), String>)
    ensures
        presented@ == pinned@ ==> r is Ok,
        presented@ != pinned@ ==> (r matches Err(m) && m@
            == "server certificate did not match pinned Splice local cert"@),
{
    if pinned_cert_matches(presented, pinned) {
        Ok(())
    } else {
        Err("server certificate did not match pinned Splice local cert".to_owned())
    }
}

/// A drag-out starts only from a file that exists: `is_file` says whether
/// `path` names one.
pub fn check_drag_source(path: &str, is_file: bool) -> (r: Result<(), String>)
    ensures
        is_file ==> r is Ok,
        !is_file ==> (r matches Err(m) && m@ == "Not a file: "@ + path@),
{
    if is_file {
        Ok(())
    } else {
        Err(concat("Not a file: ", path))
    }
}

} // verus!
