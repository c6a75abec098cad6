//! The lines that a session writes to the log.

use vstd::prelude::*;
use vstd::string::StringExecFns;
use crate::identity::SessionIdentity;
use crate::log::{EntryModel, LogEntry, LogKind};
use crate::url::ValidationError;

verus! {

/// Why a connected session came to its end without being superseded.
#[derive(Clone, Copy, Debug, PartialEq, Eq, Structural)]
pub enum EndCause {
    /// The peer closed the connection.
    PeerClosed,
    /// Reading from the socket failed.
    ReadError,
}

/// The characters of a line: the identity's label, then `infix`, then `tail`.
pub open spec fn line(id: SessionIdentity, infix: Seq<char>, tail: Seq<char>) -> Seq<char> {
    id.label() + infix + tail
}

/// `<id> connected to <url>`, of kind `Success`.
pub open spec fn connected(id: SessionIdentity, url: Seq<char>) -> EntryModel {
    EntryModel { text: line(id, " connected to "@, url), kind: LogKind::Success }
}

/// `<id> could not connect to <url>`, of kind `Error`.
pub open spec fn connect_failed(id: SessionIdentity, url: Seq<char>) -> EntryModel {
    EntryModel { text: line(id, " could not connect to "@, url), kind: LogKind::Error }
}

/// `<id> superseded before handshake completed`, of kind `Warning`.
pub open spec fn superseded(id: SessionIdentity) -> EntryModel {
    EntryModel {
        text: line(id, " superseded before handshake completed"@, Seq::<char>::empty()),
        kind: LogKind::Warning,
    }
}

/// `<id> disconnected from <url>`, of kind `Warning`.
pub open spec fn disconnected(id: SessionIdentity, url: Seq<char>) -> EntryModel {
    EntryModel { text: line(id, " disconnected from "@, url), kind: LogKind::Warning }
}

/// `<id> received message: <text>`, of kind `Info`.
pub open spec fn received(id: SessionIdentity, text: Seq<char>) -> EntryModel {
    EntryModel { text: line(id, " received message: "@, text), kind: LogKind::Info }
}

/// The line for a session that ended on its own: `<id> connection closed by
/// <url>` as a `Warning` where the peer hung up, `<id> read failed on <url>`
/// as an `Error` where reading failed.
pub open spec fn ended(id: SessionIdentity, url: Seq<char>, cause: EndCause) -> EntryModel {
    match cause {
        EndCause::PeerClosed => EntryModel {
            text: line(id, " connection closed by "@, url),
            kind: LogKind::Warning,
        },
        EndCause::ReadError => EntryModel {
            text: line(id, " read failed on "@, url),
            kind: LogKind::Error,
        },
    }
}

/// The `Error` line for an address that was refused.
pub open spec fn refused(reason: ValidationError) -> EntryModel {
    EntryModel { text: reason.text(), kind: LogKind::Error }
}

fn compose(id: SessionIdentity, infix: &str, tail: &str, kind: LogKind) -> (entry: LogEntry)
    ensures
        entry@ == (EntryModel { text: line(id, infix@, tail@), kind: kind }),
{
    let mut text = id.to_text();
    text.append(infix);
    text.append(tail);
    LogEntry::new(text, kind)
}

pub fn connected_entry(id: SessionIdentity, url: &str) -> (entry: LogEntry)
    ensures
        entry@ == connected(id, url@),
{
    compose(id, " connected to ", url, LogKind::Success)
}

pub fn connect_failed_entry(id: SessionIdentity, url: &str) -> (entry: LogEntry)
    ensures
        entry@ == connect_failed(id, url@),
{
    compose(id, " could not connect to ", url, LogKind::Error)
}

pub fn superseded_entry(id: SessionIdentity) -> (entry: LogEntry)
    ensures
        entry@ == superseded(id),
{
    let empty = String::new();
    compose(id, " superseded before handshake completed", empty.as_str(), LogKind::Warning)
}

pub fn disconnected_entry(id: SessionIdentity, url: &str) -> (entry: LogEntry)
    ensures
        entry@ == disconnected(id, url@),
{
    compose(id, " disconnected from ", url, LogKind::Warning)
}

pub fn received_entry(id: SessionIdentity, text: &str) -> (entry: LogEntry)
    ensures
        entry@ == received(id, text@),
{
    compose(id, " received message: ", text, LogKind::Info)
}

pub fn ended_entry(id: SessionIdentity, url: &str, cause: EndCause) -> (entry: LogEntry)
    ensures
        entry@ == ended(id, url@, cause),
{
    match cause {
        EndCause::PeerClosed => compose(id, " connection closed by ", url, LogKind::Warning),
        EndCause::ReadError => compose(id, " read failed on ", url, LogKind::Error),
    }
}

pub fn refused_entry(reason: ValidationError) -> (entry: LogEntry)
    ensures
        entry@ == refused(reason),
{
    LogEntry::new(reason.message(), LogKind::Error)
}

} // verus!
