//! Server configuration.

use vstd::prelude::*;

verus! {

/// The address to listen on: the host and the port, joined by a colon.
pub fn bind_address(host: String, port: &str) -> (address: String)
    ensures
        address@ == host@ + ":"@ + port@,
{
    let mut host_variable = host;
    host_variable.append(":");
    host_variable.append(port);
    host_variable
}

/// The log filter: the configured one, or `info` where none is configured.
pub fn log_filter(configured: Option<String>) -> (filter: String)
    ensures
        match configured {
            Some(value) => filter@ == value@,
            None => filter@ == "info"@,
        },
{
    match configured {
        Some(value) => value,
        None => String::from_str("info"),
    }
}

} // verus!
