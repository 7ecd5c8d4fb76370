//! Where the installed Splice app keeps its helper, certificates and data,
//! and how the helper is launched.

use vstd::prelude::*;
use crate::text::{concat, decimal, texts, u64_to_string};

verus! {

/// The installed Splice app.
pub const SPLICE_APP_PATH: &'static str = "/Applications/Splice.app";

/// The helper the environment check looks for.
pub const SPLICE_HELPER_PATH: &'static str = "/Applications/Splice.app/Contents/Resources/desktop-helper";

/// The helper Supuraisu launches and hosts.
pub const SPLICE_LEGACY_HELPER_PATH: &'static str = "/Applications/Splice.app/Contents/Resources/Splice Helper.app/Contents/MacOS/Splice Helper";

/// The app archive the preview decoder comes from.
pub const SPLICE_ASAR_PATH: &'static str = "/Applications/Splice.app/Contents/Resources/app.asar";

/// The Splice data folder, relative to the home folder.
pub const SPLICE_USER_DATA_DIR: &'static str = "Library/Application Support/com.splice.Splice";

/// The first port the helper's gRPC server may listen on.
pub const SPLICE_GRPC_PORT_START: u16 = 56765;

/// The last port the helper's gRPC server may listen on.
pub const SPLICE_GRPC_PORT_END: u16 = 56785;

/// `Path::join` of a relative path: the base, a separator unless the base
/// is empty or already ends with one, then the relative path.
pub open spec fn path_join(base: Seq<char>, rel: Seq<char>) -> Seq<char> {
    if base.len() == 0 {
        rel
    } else if base.last() == '/' {
        base + rel
    } else {
        base + "/"@ + rel
    }
}

/// Joins a relative path onto `base`.
pub fn join_path(base: &str, rel: &str) -> (r: String)
    ensures
        r@ == path_join(base@, rel@),
{
    let n = base.unicode_len();
    if n == 0 {
        rel.to_owned()
    } else if base.get_char(n - 1) == '/' {
        concat(base, rel)
    } else {
        let with_separator = concat(base, "/");
        let r = concat(with_separator.as_str(), rel);
        r
    }
}

/// The Splice data folder under the home folder.
pub open spec fn user_data_path(home: Seq<char>) -> Seq<char> {
    path_join(home, SPLICE_USER_DATA_DIR@)
}

/// The Splice data folder, when the home folder is known.
pub fn splice_user_data_path(home: Option<&str>) -> (r: Option<String>)
    ensures
        match home {
            Some(h) => r matches Some(p) && p@ == user_data_path(h@),
            None => r is None,
        },
{
    match home {
        Some(h) => Some(join_path(h, SPLICE_USER_DATA_DIR)),
        None => None,
    }
}

/// A file or folder under the Splice data folder.
pub fn splice_data_file(home: Option<&str>, rel: &str) -> (r: Option<String>)
    ensures
        match home {
            Some(h) => r matches Some(p) && p@ == path_join(user_data_path(h@), rel@),
            None => r is None,
        },
{
    match splice_user_data_path(home) {
        Some(p) => Some(join_path(p.as_str(), rel)),
        None => None,
    }
}

/// The certificate the helper's TLS server presents.
pub fn splice_cert_path(home: Option<&str>) -> (r: Option<String>)
    ensures
        match home {
            Some(h) => r matches Some(p) && p@ == path_join(user_data_path(h@), ".certs/cert.pem"@),
            None => r is None,
        },
{
    splice_data_file(home, ".certs/cert.pem")
}

/// The key of the helper's TLS certificate.
pub fn splice_key_path(home: Option<&str>) -> (r: Option<String>)
    ensures
        match home {
            Some(h) => r matches Some(p) && p@ == path_join(user_data_path(h@), ".certs/key.pem"@),
            None => r is None,
        },
{
    splice_data_file(home, ".certs/key.pem")
}

/// The folder of the helper's TLS certificate and key.
pub fn splice_cert_dir(home: Option<&str>) -> (r: Option<String>)
    ensures
        match home {
            Some(h) => r matches Some(p) && p@ == path_join(user_data_path(h@), ".certs"@),
            None => r is None,
        },
{
    splice_data_file(home, ".certs")
}

/// The helper the environment check looks for.
pub fn splice_helper_path() -> (r: String)
    ensures
        r@ == SPLICE_HELPER_PATH@,
{
    SPLICE_HELPER_PATH.to_owned()
}

/// The helper Supuraisu launches.
pub fn splice_legacy_helper_path() -> (r: String)
    ensures
        r@ == SPLICE_LEGACY_HELPER_PATH@,
{
    SPLICE_LEGACY_HELPER_PATH.to_owned()
}

/// The state of the installed Splice app, as the UI shows it.
#[derive(Debug)]
pub struct SpliceEnvironmentStatus {
    pub app_path: String,
    pub app_installed: bool,
    pub helper_path: String,
    pub helper_installed: bool,
    pub user_data_path: Option<String>,
    pub cert_path: Option<String>,
    pub key_path: Option<String>,
    pub cert_exists: bool,
    pub key_exists: bool,
    pub grpc_port_start: u16,
    pub grpc_port_end: u16,
}

/// The environment report, given the home folder and which of the files
/// it names exist; certificate and key count only under a known home.
pub fn splice_environment_status(
    home: Option<&str>,
    app_exists: bool,
    helper_exists: bool,
    cert_file_exists: bool,
    key_file_exists: bool,
) -> (r: SpliceEnvironmentStatus)
    ensures
        r.app_path@ == SPLICE_APP_PATH@,
        r.app_installed == app_exists,
        r.helper_path@ == SPLICE_HELPER_PATH@,
        r.helper_installed == helper_exists,
        match home {
            Some(h) => {
                &&& r.user_data_path matches Some(p) && p@ == user_data_path(h@)
                &&& r.cert_path matches Some(p) && p@ == path_join(user_data_path(h@), ".certs/cert.pem"@)
                &&& r.key_path matches Some(p) && p@ == path_join(user_data_path(h@), ".certs/key.pem"@)
            },
            None => r.user_data_path is None && r.cert_path is None && r.key_path is None,
        },
        r.cert_exists == (home is Some && cert_file_exists),
        r.key_exists == (home is Some && key_file_exists),
        r.grpc_port_start == SPLICE_GRPC_PORT_START,
        r.grpc_port_end == SPLICE_GRPC_PORT_END,
{
    SpliceEnvironmentStatus {
        app_path: SPLICE_APP_PATH.to_owned(),
        app_installed: app_exists,
        helper_path: splice_helper_path(),
        helper_installed: helper_exists,
        user_data_path: splice_user_data_path(home),
        cert_path: splice_cert_path(home),
        key_path: splice_key_path(home),
        cert_exists: home.is_some() && cert_file_exists,
        key_exists: home.is_some() && key_file_exists,
        grpc_port_start: SPLICE_GRPC_PORT_START,
        grpc_port_end: SPLICE_GRPC_PORT_END,
    }
}

/// The arguments the hosted helper is launched with.
pub open spec fn launch_args(pid: u32, electron_port: u16, cert_dir: Seq<char>) -> Seq<Seq<char>> {
    seq![
        "-pid"@,
        decimal(pid as nat),
        "-electronPort"@,
        decimal(electron_port as nat),
        "-certPath"@,
        cert_dir,
        "-releaseChannel"@,
        "stable"@,
    ]
}

/// The arguments the hosted helper is launched with: this process, the
/// port of Supuraisu's host server, the certificate folder, and the stable
/// release channel.
pub fn helper_launch_args(pid: u32, electron_port: u16, cert_dir: &str) -> (r: Vec<String>)
    ensures
        texts(r@) == launch_args(pid, electron_port, cert_dir@),
{
    let r = vec![
        "-pid".to_owned(),
        u64_to_string(pid as u64),
        "-electronPort".to_owned(),
        u64_to_string(electron_port as u64),
        "-certPath".to_owned(),
        cert_dir.to_owned(),
        "-releaseChannel".to_owned(),
        "stable".to_owned(),
    ];
    assert(texts(r@) =~= launch_args(pid, electron_port, cert_dir@));
    r
}

/// What is reported when the hosted helper is missing.
pub fn missing_helper_message(helper_path: &str) -> (r: String)
    ensures
        r@ == "Splice Helper.app binary not found at "@ + helper_path@,
{
    concat("Splice Helper.app binary not found at ", helper_path)
}

} // verus!
