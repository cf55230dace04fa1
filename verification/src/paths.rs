//! Where the launcher keeps things. Paths are Windows paths, held as text.

use vstd::prelude::*;

verus! {

/// The directory the project is installed into.
pub const PROJECT_DIR: &'static str = r"C:\hamid-mahdavi-client";

/// The archive of the project's main branch.
pub const PROJECT_REPO_ZIP: &'static str =
    "https://github.com/denuitt1/mhr-cfw/archive/refs/heads/main.zip";

/// The local proxy that the VPN process serves.
pub const PROXY_HOST_PORT: &'static str = "127.0.0.1:8085";

/// The registry key, under the current user, that holds the system proxy
/// settings.
pub const INTERNET_SETTINGS: &'static str =
    r"Software\Microsoft\Windows\CurrentVersion\Internet Settings";

/// The hosts that bypass the proxy: local names, loopback and the private
/// IPv4 ranges.
pub const PROXY_OVERRIDE: &'static str =
    "<local>;localhost;127.*;10.*;172.16.*;172.17.*;172.18.*;172.19.*;172.20.*;172.21.*;172.22.*;172.23.*;172.24.*;172.25.*;172.26.*;172.27.*;172.28.*;172.29.*;172.30.*;172.31.*;192.168.*";

/// A Windows path separator.
pub open spec fn is_separator(c: char) -> bool {
    c == '\\' || c == '/'
}

/// `name` under the directory `dir`: a `\` goes between them unless `dir`
/// is empty or already ends in a separator.
pub open spec fn path_join(dir: Seq<char>, name: Seq<char>) -> Seq<char> {
    if dir.len() == 0 {
        name
    } else if is_separator(dir.last()) {
        dir + name
    } else {
        dir + seq!['\\'] + name
    }
}

/// Puts `name` under the directory `dir`.
pub fn join(dir: &str, name: &str) -> (r: String)
    ensures
        r@ == path_join(dir@, name@),
{
    let n = dir.unicode_len();
    let mut out = String::from_str(dir);
    if n == 0 {
        return String::from_str(name);
    }
    let last = dir.get_char(n - 1);
    if !(last == '\\' || last == '/') {
        out.append(r"\");
        proof {
            reveal_strlit(r"\");
        }
    }
    out.append(name);
    out
}

/// The project directory.
pub fn project_dir() -> (r: String)
    ensures
        r@ == PROJECT_DIR@,
{
    String::from_str(PROJECT_DIR)
}

/// The project's `config.json`, which the VPN process reads.
pub fn config_path() -> (r: String)
    ensures
        r@ == path_join(PROJECT_DIR@, "config.json"@),
{
    join(PROJECT_DIR, "config.json")
}

/// The project's example configuration.
pub fn config_example_path() -> (r: String)
    ensures
        r@ == path_join(PROJECT_DIR@, "config.example.json"@),
{
    join(PROJECT_DIR, "config.example.json")
}

/// The project's pip requirements.
pub fn requirements_path() -> (r: String)
    ensures
        r@ == path_join(PROJECT_DIR@, "requirements.txt"@),
{
    join(PROJECT_DIR, "requirements.txt")
}

/// The project's entry script.
pub fn main_script_path() -> (r: String)
    ensures
        r@ == path_join(PROJECT_DIR@, "main.py"@),
{
    join(PROJECT_DIR, "main.py")
}

/// The marker file written once the project is installed.
pub fn install_marker_path() -> (r: String)
    ensures
        r@ == path_join(PROJECT_DIR@, ".launcher-installed"@),
{
    join(PROJECT_DIR, ".launcher-installed")
}

/// The marker file written once the VPN's certificate is installed.
pub fn cert_marker_path() -> (r: String)
    ensures
        r@ == path_join(PROJECT_DIR@, ".launcher-cert-installed"@),
{
    join(PROJECT_DIR, ".launcher-cert-installed")
}

/// The directory that failure reports are written to.
pub fn log_dir() -> (r: String)
    ensures
        r@ == path_join(PROJECT_DIR@, "logs"@),
{
    join(PROJECT_DIR, "logs")
}

/// The per-user credentials store,
/// `%APPDATA%\mhr-cfw-launcher\credentials.json`; none where `APPDATA` is
/// unset.
pub fn credentials_path(appdata: Option<&str>) -> (r: Option<String>)
    ensures
        match appdata {
            Some(a) => r matches Some(p) && p@ == path_join(
                path_join(a@, "mhr-cfw-launcher"@),
                "credentials.json"@,
            ),
            None => r is None,
        },
{
    match appdata {
        Some(a) => {
            let dir = join(a, "mhr-cfw-launcher");
            Some(join(dir.as_str(), "credentials.json"))
        },
        None => None,
    }
}

} // verus!
