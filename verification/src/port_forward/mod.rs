use vstd::prelude::*;

pub mod entry;
pub mod frame;
pub mod generation;
pub mod heartbeat;
pub mod limits;
pub mod listen_close;
pub mod loop_steps;
pub mod open;
pub mod reconnect;
pub mod session;
pub mod side;
pub mod store;
pub mod tcp_ledger;
pub mod tcp_state;
pub mod tcp_steps;
pub mod tunnel;
pub mod tunnel_open;
pub mod udp_connectors;

verus! {

} // verus!
