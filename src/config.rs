use vstd::prelude::*;

verus! {

/// Settings that the process reads once at start.
pub struct Config {
    pub listen_addr: String,
    pub static_file_directory: String,
}

pub open spec fn default_listen_addr_spec() -> Seq<char> {
    "0.0.0.0:3000"@
}

pub open spec fn default_static_file_directory_spec() -> Seq<char> {
    "../frontend/dist"@
}

/// The address listened on when none is configured.
pub fn default_listen_addr() -> (r: String)
    ensures
        r@ == default_listen_addr_spec(),
{
    String::from_str("0.0.0.0:3000")
}

/// The directory of the frontend bundle when none is configured.
pub fn default_static_file_directory() -> (r: String)
    ensures
        r@ == default_static_file_directory_spec(),
{
    String::from_str("../frontend/dist")
}

impl Config {
    /// The configuration from the settings that were given, each missing one
    /// taking its default.
    pub fn from_settings(listen_addr: Option<String>, static_file_directory: Option<String>) -> (r:
        Config)
        ensures
            r.listen_addr@ == (match listen_addr {
                Some(a) => a@,
                None => default_listen_addr_spec(),
            }),
            r.static_file_directory@ == (match static_file_directory {
                Some(d) => d@,
                None => default_static_file_directory_spec(),
            }),
    {
        let listen_addr = match listen_addr {
            Some(a) => a,
            None => default_listen_addr(),
        };
        let static_file_directory = match static_file_directory {
            Some(d) => d,
            None => default_static_file_directory(),
        };
        Config { listen_addr, static_file_directory }
    }
}

} // verus!
