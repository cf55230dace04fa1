//! The VPN's credentials as `config.json` holds them, and the install check.

use vstd::prelude::*;
use crate::text::{chars_of, trim, trim_range};

verus! {

/// The credentials that the VPN process reads from `config.json`.
#[derive(Debug)]
pub struct Config {
    pub script_id: String,
    pub auth_key: String,
}

impl Clone for Config {
    fn clone(&self) -> (r: Self)
        ensures
            r == *self,
    {
        Config { script_id: self.script_id.clone(), auth_key: self.auth_key.clone() }
    }
}

/// A credential is filled in when something other than white space is
/// left of it.
pub open spec fn filled(s: Seq<char>) -> bool {
    trim(s).len() > 0
}

/// Whether `s` has a character that is not white space.
pub fn is_filled(s: &str) -> (r: bool)
    ensures
        r == filled(s@),
{
    let v = chars_of(s);
    let n = v.len();
    let (a, b) = trim_range(&v, 0, n);
    proof {
        assert(v@.subrange(0, n as int) =~= s@);
    }
    a < b
}

impl Config {
    /// Both credentials are filled in.
    pub fn is_complete(&self) -> (r: bool)
        ensures
            r == (filled(self.script_id@) && filled(self.auth_key@)),
    {
        is_filled(self.script_id.as_str()) && is_filled(self.auth_key.as_str())
    }
}

/// The project counts as installed when both the install marker and the
/// entry script are present.
pub fn is_installed(marker_present: bool, main_script_present: bool) -> (r: bool)
    ensures
        r == (marker_present && main_script_present),
{
    marker_present && main_script_present
}

} // verus!
