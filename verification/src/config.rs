//! Server configuration values.  Reading them from the environment is the
//! application's business; the formatting of the bind address is specified
//! here.

use vstd::prelude::*;
use crate::num::{spec_u64_dec, u64_dec_chars};
use crate::text::{chars_to_string, concat_chars, to_chars};

verus! {

#[derive(Clone, Debug)]
pub struct Config {
    pub songs_directory: String,
    pub host: String,
    pub port: u16,
}

/// The address a server binds: `host:port` with the port in decimal.
pub open spec fn spec_address(host: Seq<char>, port: u16) -> Seq<char> {
    host + ":"@ + spec_u64_dec(port as int)
}

impl Config {
    pub fn address(&self) -> (r: String)
        ensures
            r@ == spec_address(self.host@, self.port),
    {
        let host = to_chars(self.host.as_str());
        let colon = to_chars(":");
        let port = u64_dec_chars(self.port as u64);
        let joined = concat_chars(&concat_chars(&host, &colon), &port);
        chars_to_string(&joined)
    }
}

} // verus!
