//! The server registry: named server entries loaded from the config file,
//! resolved to a host and port.

use vstd::prelude::*;

use crate::error::Error;
use crate::text::str_eq;

verus! {

/// The standard SQL-server port, used whenever a config entry gives no
/// explicit port.
pub fn default_port() -> (p: u16)
    ensures
        p == 1433,
{
    1433
}

/// One named server entry: either a bare host string (the port defaults to
/// 1433) or a structured form with an explicit port.
pub enum ServerInfo {
    Tuple(String),
    Struct { url: String, port: u16 },
}

impl ServerInfo {
    /// The host string of this entry.
    pub open spec fn spec_url(&self) -> Seq<char> {
        match self {
            ServerInfo::Tuple(url) => url@,
            ServerInfo::Struct { url, .. } => url@,
        }
    }

    /// The port of this entry: the explicit one if given, 1433 otherwise.
    pub open spec fn spec_port(&self) -> u16 {
        match self {
            ServerInfo::Tuple(_) => 1433,
            ServerInfo::Struct { port, .. } => *port,
        }
    }

    /// Get the server URL.
    pub fn url(&self) -> (r: &str)
        ensures
            r@ == self.spec_url(),
    {
        match self {
            ServerInfo::Tuple(url) => url.as_str(),
            ServerInfo::Struct { url, .. } => url.as_str(),
        }
    }

    /// Get the server port.
    pub fn port(&self) -> (r: u16)
        ensures
            r == self.spec_port(),
    {
        match self {
            ServerInfo::Tuple(_) => default_port(),
            ServerInfo::Struct { port, .. } => *port,
        }
    }

    /// The entry a structured config form denotes: the explicit port if one
    /// was given, the default port otherwise.
    pub open spec fn spec_from_parts(url: String, port: Option<u16>) -> ServerInfo {
        match port {
            Some(p) => ServerInfo::Struct { url, port: p },
            None => ServerInfo::Struct { url, port: 1433 },
        }
    }

    /// Build a structured entry from a host and an optional explicit port,
    /// so that the port is always concrete before use.
    pub fn from_parts(url: String, port: Option<u16>) -> (r: ServerInfo)
        ensures
            r == ServerInfo::spec_from_parts(url, port),
    {
        match port {
            Some(p) => ServerInfo::Struct { url, port: p },
            None => ServerInfo::Struct { url, port: 1433 },
        }
    }
}

/// Law: a compact-form entry and a structured-form entry without an explicit
/// port are observably equivalent — both resolve to the default port 1433.
pub proof fn lemma_default_port_forms(url: String)
    ensures
        (ServerInfo::Tuple(url)).spec_port() == 1433,
        ServerInfo::spec_from_parts(url, None).spec_port() == 1433,
{
}

/// Operator metadata carried by the config file; not used by the query logic.
pub struct Staff {
    pub login_user_id: String,
    pub pin: String,
    pub first_name: String,
    pub last_name: String,
    pub nt_username: String,
    pub email_address: String,
    pub sso_user_id: String,
}

/// Badge metadata carried by the config file; not used by the query logic.
pub struct StaffBadges {
    pub login_user_id: Option<String>,
    pub badge_data: String,
}

/// A loaded config file: the server registry plus operator metadata. Loaded
/// once at process start and read-only afterwards.
pub struct Config {
    pub servers: Vec<(String, ServerInfo)>,
    pub staff: Staff,
    pub staff_badges: StaffBadges,
}

/// The first entry under the given name, if the registry holds one.
pub open spec fn spec_find_server(servers: Seq<(String, ServerInfo)>, name: Seq<char>) -> Option<
    ServerInfo,
>
    decreases servers.len(),
{
    if servers.len() == 0 {
        None
    } else if servers[0].0@ == name {
        Some(servers[0].1)
    } else {
        spec_find_server(servers.drop_first(), name)
    }
}

impl Config {
    /// Resolve a server name to its entry; an absent name is reported, not
    /// defaulted.
    pub fn resolve(&self, name: &str) -> (r: Result<&ServerInfo, Error>)
        ensures
            match r {
                Ok(info) => spec_find_server(self.servers@, name@) == Some(*info),
                Err(e) => spec_find_server(self.servers@, name@) is None && e == Error::NotFound,
            },
    {
        let n = self.servers.len();
        let mut i: usize = 0;
        proof {
            assert(self.servers@.skip(0) =~= self.servers@);
        }
        while i < n
            invariant
                n == self.servers@.len(),
                i <= n,
                spec_find_server(self.servers@, name@) == spec_find_server(
                    self.servers@.skip(i as int),
                    name@,
                ),
            decreases n - i,
        {
            let entry = &self.servers[i];
            proof {
                assert(self.servers@.skip(i as int)[0] == self.servers@[i as int]);
            }
            if str_eq(entry.0.as_str(), name) {
                return Ok(&entry.1);
            }
            proof {
                assert(self.servers@.skip(i as int).drop_first() =~= self.servers@.skip(
                    i as int + 1,
                ));
            }
            i = i + 1;
        }
        Err(Error::NotFound)
    }
}

} // verus!
