//! Session configuration, read from `/etc/d5.conf.d/<session>.toml`.

use std::collections::BTreeMap;
use vstd::prelude::*;

verus! {

/// How a service of the session is started.
#[derive(Debug, Clone, Copy, PartialEq, Eq, Structural)]
pub enum ServiceType {
    Script,
    Systemd,
}

/// One service of the session.
#[derive(Debug)]
pub struct ServiceConfig {
    /// The command to launch the service.
    pub command: String,
    /// The type of service.
    pub service_type: ServiceType,
}

/// The `[session]` table.
#[derive(Debug)]
pub struct SessionConfig {
    /// The command to launch the leader process.
    pub leader: String,
}

/// A whole session configuration file.
#[derive(Debug)]
pub struct Config {
    pub session: SessionConfig,
    /// The `[services]` table, empty when the file has none.
    pub services: BTreeMap<String, ServiceConfig>,
}

/// Directory that holds one configuration file per session.
pub open spec fn config_dir() -> Seq<char> {
    "/etc/d5.conf.d/"@
}

/// The path of the configuration file of the session `name`.
pub open spec fn spec_config_path(name: Seq<char>) -> Seq<char> {
    config_dir() + name + ".toml"@
}

/// The path of the configuration file of the session `name`:
/// `/etc/d5.conf.d/<name>.toml`.
pub fn config_path(name: &str) -> (path: String)
    ensures
        path@ == spec_config_path(name@),
{
    let mut path = String::from_str("/etc/d5.conf.d/");
    path.append(name);
    path.append(".toml");
    path
}

} // verus!
