//! Verified core of the remote-exec broker: configuration rules, the port
//! forward bookkeeping and the small protocols the broker runs with daemons.
use vstd::prelude::*;

pub mod admin;
pub mod assoc;
pub mod broker_tls;
pub mod cli;
pub mod client;
pub mod config;
pub mod daemon_client;
pub mod local;
pub mod port_forward;
pub mod request_log;
pub mod reverse;
pub mod session_store;
pub mod text;
pub mod tool_output;

verus! {

/// Prepares TLS for the broker; a broker built without TLS support has
/// nothing to prepare.
pub fn install_crypto_provider() -> (res: Result<(), String>)
    ensures
        res is Ok,
{
    broker_tls::disabled::install_crypto_provider()
}

} // verus!
