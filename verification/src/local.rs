//! The broker host itself as an endpoint, selected by the reserved name
//! `local`. That name does not always mean a configured `[local]` target:
//! transfers and port forwards may use the broker host without one.
use vstd::prelude::*;

use crate::config::local_target_name;
use crate::text::str_eq;

verus! {

/// Whether `name` is the reserved broker-host name.
pub fn is_target_name(name: &str) -> (res: bool)
    ensures
        res == (name@ == local_target_name()),
{
    str_eq(name, "local")
}

/// An endpoint name: the broker host, or a configured target.
#[derive(Debug, Clone, Copy, PartialEq, Eq)]
pub enum BrokerHostOrTarget<'a> {
    BrokerHost,
    Target(&'a str),
}

impl<'a> BrokerHostOrTarget<'a> {
    pub fn from_name(name: &'a str) -> (res: Self)
        ensures
            if name@ == local_target_name() { res is BrokerHost } else { res matches BrokerHostOrTarget::Target(t) && t@ == name@ },
    {
        if is_target_name(name) {
            BrokerHostOrTarget::BrokerHost
        } else {
            BrokerHostOrTarget::Target(name)
        }
    }
}

/// One item the broker host's export task sends while it archives a path.
#[derive(Debug)]
pub enum ExportArchiveItem<E> {
    /// Archive bytes.
    Data(Vec<u8>),
    /// The archive is complete.
    Complete,
    /// Exporting failed.
    Error(E),
}

/// Why reading an export stream fails.
#[derive(Debug)]
pub enum ExportReadError<E> {
    /// The export task reported this error.
    Transfer(E),
    /// The export task went away before it sent a terminal item.
    MissingTerminal,
}

/// What a reader of an export stream yields after receiving one item
/// (`None` when the sender is gone).
#[derive(Debug)]
pub enum ExportReadStep<E> {
    /// These bytes; then read the next item.
    Data(Vec<u8>),
    /// The stream ends here.
    End,
    /// This error; the stream ends after it.
    Fail(ExportReadError<E>),
}

/// The step of an export stream reader: bytes go on, completion ends the
/// stream, a failure or a sender gone before any terminal item is an error
/// after which the stream ends.
pub fn export_read_step<E>(item: Option<ExportArchiveItem<E>>) -> (res: ExportReadStep<E>)
    ensures
        match item {
            Some(ExportArchiveItem::Data(b)) => res matches ExportReadStep::Data(d) && d@ == b@,
            Some(ExportArchiveItem::Complete) => res is End,
            Some(ExportArchiveItem::Error(e)) => res == ExportReadStep::Fail(ExportReadError::Transfer(e)),
            None => res matches ExportReadStep::Fail(ExportReadError::MissingTerminal),
        },
{
    match item {
        Some(ExportArchiveItem::Data(b)) => ExportReadStep::Data(b),
        Some(ExportArchiveItem::Complete) => ExportReadStep::End,
        Some(ExportArchiveItem::Error(e)) => ExportReadStep::Fail(ExportReadError::Transfer(e)),
        None => ExportReadStep::Fail(ExportReadError::MissingTerminal),
    }
}

pub open spec fn missing_terminal_text() -> Seq<char> {
    "transfer export stream ended before terminal state"@
}

/// The message of an export stream whose sender went away too early.
pub fn missing_terminal_message() -> (res: String)
    ensures
        res@ == missing_terminal_text(),
{
    String::from_str("transfer export stream ended before terminal state")
}

} // verus!
