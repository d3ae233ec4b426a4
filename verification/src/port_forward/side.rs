//! The two ends of a forward: a configured target reached through its
//! daemon, or the broker host itself.
use vstd::prelude::*;

use crate::config::local_target_name;

verus! {

/// Who serves a side: the broker host, or a target's daemon instance.
#[derive(Debug, Clone, PartialEq, Eq)]
pub enum SideOwner {
    BrokerHost,
    Target { name: String, daemon_instance_id: String },
}

/// A side of a forward: a target with its handle `T` and the daemon
/// instance it answered with, or the broker host through its port client `L`.
pub enum SideHandle<T, L> {
    Target { name: String, handle: T, daemon_instance_id: String },
    Local(L),
}

impl<T, L> SideHandle<T, L> {
    pub fn target(name: String, handle: T, daemon_instance_id: String) -> (res: Self)
        ensures
            res == (SideHandle::<T, L>::Target { name, handle, daemon_instance_id }),
    {
        SideHandle::Target { name, handle, daemon_instance_id }
    }

    /// The side's name; the broker host goes by `local`.
    pub fn name(&self) -> (res: &str)
        ensures
            res@ == match self {
                SideHandle::Target { name, .. } => name@,
                SideHandle::Local(_) => local_target_name(),
            },
    {
        match self {
            SideHandle::Target { name, .. } => name.as_str(),
            SideHandle::Local(_) => "local",
        }
    }

    /// Who serves the side.
    pub fn owner(&self) -> (res: SideOwner)
        ensures
            match self {
                SideHandle::Target { name, daemon_instance_id, .. } => res matches SideOwner::Target { name: n, daemon_instance_id: d }
                    && n@ == name@ && d@ == daemon_instance_id@,
                SideHandle::Local(_) => res is BrokerHost,
            },
    {
        match self {
            SideHandle::Target { name, daemon_instance_id, .. } => SideOwner::Target {
                name: name.clone(),
                daemon_instance_id: daemon_instance_id.clone(),
            },
            SideHandle::Local(_) => SideOwner::BrokerHost,
        }
    }
}

} // verus!
