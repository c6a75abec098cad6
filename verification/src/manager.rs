//! The session manager: which connection attempt is authoritative, and what
//! each worker must do next.
//!
//! The manager never touches a socket. The controller calls `connect` and
//! `disconnect` and performs what they hand back; each worker reports what
//! happened on its socket and is told whether to go on. Every decision is
//! made here, on one value, so a caller that guards that value with a lock
//! gets a linearizable session slot.

use vstd::prelude::*;
use crate::identity::{random_token, SessionIdentity};
use crate::log::{cleared, EntryModel, EventLog};
use crate::message::{
    connect_failed, connect_failed_entry, connected, connected_entry, disconnected,
    disconnected_entry, ended, ended_entry, received, received_entry, refused, refused_entry,
    superseded, superseded_entry, EndCause,
};
use crate::url::{validate_url, validation, ValidationError};

verus! {

/// The manager's hold on an installed session: which session it is, and the
/// means to close its socket. The manager never uses `closer` itself; it
/// keeps it while the session is installed and hands it out when the
/// session is retired, so that the caller can close the socket at once.
#[derive(Debug, PartialEq, Eq)]
pub struct SessionHandle<C> {
    pub identity: SessionIdentity,
    pub closer: C,
}

impl<C: Clone> Clone for SessionHandle<C> {
    /// A second handle on the same session.
    fn clone(&self) -> (copy: SessionHandle<C>)
        ensures
            copy.identity == self.identity,
    {
        SessionHandle { identity: self.identity, closer: self.closer.clone() }
    }
}

/// The session slot. At most one identity is in it at any time.
///
/// A session that is being closed is not a value of the slot: a retired
/// session leaves the slot at once, within the request that retires it, and
/// its worker comes to its end on its own.
#[derive(Debug, PartialEq, Eq)]
pub enum Slot<C> {
    /// No session.
    Idle,
    /// A worker with this identity is performing its handshake.
    Connecting(SessionIdentity),
    /// The session with this handle is installed as current.
    Connected(SessionHandle<C>),
}

impl<C> Slot<C> {
    /// The identity that the manager expects to hear from, if any.
    pub open spec fn expected(self) -> Option<SessionIdentity> {
        match self {
            Slot::Idle => None,
            Slot::Connecting(id) => Some(id),
            Slot::Connected(handle) => Some(handle.identity),
        }
    }

    /// The handle of the installed session, if any.
    pub open spec fn current(self) -> Option<SessionHandle<C>> {
        match self {
            Slot::Connected(handle) => Some(handle),
            _ => None,
        }
    }

    /// The slot waits for the handshake of worker `id`.
    pub open spec fn waits_for(self, id: SessionIdentity) -> bool {
        self == Slot::<C>::Connecting(id)
    }

    /// Worker `id` is the installed session.
    pub open spec fn holds(self, id: SessionIdentity) -> bool {
        match self {
            Slot::Connected(handle) => handle.identity == id,
            _ => false,
        }
    }
}

/// What the controller must do after a connect request.
#[derive(Debug, PartialEq, Eq)]
pub enum ConnectOutcome<C> {
    /// The address was refused: nothing is to be started.
    Rejected(ValidationError),
    /// A worker must be started under `identity`. Where `retired` holds a
    /// handle, the socket of that session must be closed first.
    Started { identity: SessionIdentity, retired: Option<SessionHandle<C>> },
}

/// What a worker must do after it has reported an event.
#[derive(Clone, Copy, Debug, PartialEq, Eq, Structural)]
pub enum WorkerStep {
    /// Go on: read the next frame.
    Continue,
    /// Close the socket and end.
    Stop,
}

/// The manager as a plain value: the slot, the log, and how many identities
/// have been minted.
pub struct ManagerModel<C> {
    pub slot: Slot<C>,
    pub log: Seq<EntryModel>,
    pub minted: nat,
}

impl<C> ManagerModel<C> {
    /// A manager that has seen nothing yet.
    pub open spec fn initial() -> ManagerModel<C> {
        ManagerModel { slot: Slot::Idle, log: Seq::<EntryModel>::empty(), minted: 0 }
    }

    /// The slot holds no identity but the one minted last, and the count of
    /// minted identities fits its counter.
    pub open spec fn wf(self) -> bool {
        &&& self.minted <= u64::MAX
        &&& match self.slot.expected() {
            Some(id) => id.serial + 1 == self.minted,
            None => true,
        }
    }

    /// One more identity can be minted.
    pub open spec fn can_mint(self) -> bool {
        self.minted < u64::MAX
    }

    /// The identity that the next accepted connect request mints with `token`.
    pub open spec fn next_identity(self, token: u128) -> SessionIdentity {
        SessionIdentity { serial: self.minted as u64, token: token }
    }

    /// The manager after a connect request for `url`, where `token` is the
    /// random part of the new identity.
    pub open spec fn connect(self, url: Seq<char>, token: u128) -> ManagerModel<C> {
        match validation(url) {
            Some(reason) => ManagerModel { log: self.log.push(refused(reason)), ..self },
            None => ManagerModel {
                slot: Slot::Connecting(self.next_identity(token)),
                log: self.log,
                minted: self.minted + 1,
            },
        }
    }

    /// What that connect request hands back.
    pub open spec fn connect_outcome(self, url: Seq<char>, token: u128) -> ConnectOutcome<C> {
        match validation(url) {
            Some(reason) => ConnectOutcome::Rejected(reason),
            None => ConnectOutcome::Started {
                identity: self.next_identity(token),
                retired: self.slot.current(),
            },
        }
    }

    /// The manager after a disconnect request.
    pub open spec fn disconnect(self) -> ManagerModel<C> {
        ManagerModel { slot: Slot::Idle, ..self }
    }

    /// The manager after its log was cleared.
    pub open spec fn clear_log(self) -> ManagerModel<C> {
        ManagerModel { log: cleared(self.log), ..self }
    }

    /// The manager after worker `id` failed to connect to `url`.
    pub open spec fn handshake_failed(self, id: SessionIdentity, url: Seq<char>) -> ManagerModel<C> {
        ManagerModel {
            slot: if self.slot.waits_for(id) {
                Slot::Idle
            } else {
                self.slot
            },
            log: self.log.push(connect_failed(id, url)),
            minted: self.minted,
        }
    }

    /// The manager after worker `id` completed its handshake with `url` and
    /// offered `closer` as the means to close its socket.
    pub open spec fn handshake_succeeded(
        self,
        id: SessionIdentity,
        url: Seq<char>,
        closer: C,
    ) -> ManagerModel<C> {
        if self.slot.waits_for(id) {
            ManagerModel {
                slot: Slot::Connected(SessionHandle { identity: id, closer: closer }),
                log: self.log.push(connected(id, url)),
                minted: self.minted,
            }
        } else {
            ManagerModel {
                log: self.log.push(connected(id, url)).push(superseded(id)),
                ..self
            }
        }
    }

    /// Worker `id` is the installed session.
    pub open spec fn is_current(self, id: SessionIdentity) -> bool {
        self.slot.holds(id)
    }

    /// The manager after worker `id` asked, before a read, whether to go on.
    pub open spec fn before_read(self, id: SessionIdentity, url: Seq<char>) -> ManagerModel<C> {
        if self.is_current(id) {
            self
        } else {
            ManagerModel { log: self.log.push(disconnected(id, url)), ..self }
        }
    }

    /// The manager after worker `id` received the text frame `text`.
    pub open spec fn frame_received(
        self,
        id: SessionIdentity,
        url: Seq<char>,
        text: Seq<char>,
    ) -> ManagerModel<C> {
        if self.is_current(id) {
            ManagerModel { log: self.log.push(received(id, text)), ..self }
        } else {
            ManagerModel { log: self.log.push(disconnected(id, url)), ..self }
        }
    }

    /// The manager after the socket of worker `id` came to its end.
    pub open spec fn session_ended(
        self,
        id: SessionIdentity,
        url: Seq<char>,
        cause: EndCause,
    ) -> ManagerModel<C> {
        if self.is_current(id) {
            ManagerModel {
                slot: Slot::Idle,
                log: self.log.push(ended(id, url, cause)),
                minted: self.minted,
            }
        } else {
            ManagerModel { log: self.log.push(disconnected(id, url)), ..self }
        }
    }

    /// What worker `id` is told after a completed handshake: to go on exactly
    /// where it was the expected one.
    pub open spec fn step_after_handshake(self, id: SessionIdentity) -> WorkerStep {
        if self.slot.waits_for(id) {
            WorkerStep::Continue
        } else {
            WorkerStep::Stop
        }
    }

    /// What worker `id` is told before a read and after a frame: to go on
    /// exactly where it is the installed session.
    pub open spec fn step_while_reading(self, id: SessionIdentity) -> WorkerStep {
        if self.is_current(id) {
            WorkerStep::Continue
        } else {
            WorkerStep::Stop
        }
    }
}

/// The controller of one session slot and its log.
pub struct SessionManager<C> {
    slot: Slot<C>,
    log: EventLog,
    minted: u64,
}

impl<C> View for SessionManager<C> {
    type V = ManagerModel<C>;

    closed spec fn view(&self) -> ManagerModel<C> {
        ManagerModel { slot: self.slot, log: self.log@, minted: self.minted as nat }
    }
}

impl<C> SessionManager<C> {
    /// A manager with an idle slot and an empty log.
    pub fn new() -> (manager: SessionManager<C>)
        ensures
            manager@ == ManagerModel::<C>::initial(),
            manager@.wf(),
    {
        SessionManager { slot: Slot::Idle, log: EventLog::new(), minted: 0 }
    }

    /// The slot as it stands.
    pub fn slot(&self) -> (slot: &Slot<C>)
        ensures
            *slot == self@.slot,
    {
        &self.slot
    }

    /// The handle of the installed session, if there is one.
    pub fn current(&self) -> (handle: Option<&SessionHandle<C>>)
        ensures
            handle.is_some() == self@.slot.current().is_some(),
            handle.is_some() ==> *handle.unwrap() == self@.slot.current().unwrap(),
    {
        match &self.slot {
            Slot::Connected(handle) => Some(handle),
            _ => None,
        }
    }

    /// The identity that the slot holds, installed or still connecting, if
    /// there is one.
    pub fn expected(&self) -> (id: Option<SessionIdentity>)
        ensures
            id == self@.slot.expected(),
    {
        match &self.slot {
            Slot::Idle => None,
            Slot::Connecting(id) => Some(*id),
            Slot::Connected(handle) => Some(handle.identity),
        }
    }

    /// Whether the slot waits for the handshake of worker `id`.
    pub fn waits_for(&self, id: SessionIdentity) -> (waiting: bool)
        ensures
            waiting == self@.slot.waits_for(id),
    {
        match &self.slot {
            Slot::Connecting(held) => *held == id,
            _ => false,
        }
    }

    /// Whether `id` is the installed session.
    pub fn is_current(&self, id: SessionIdentity) -> (current: bool)
        ensures
            current == self@.is_current(id),
    {
        match &self.slot {
            Slot::Connected(handle) => handle.identity == id,
            _ => false,
        }
    }

    /// How many identities this manager has minted.
    pub fn minted(&self) -> (count: u64)
        ensures
            count == self@.minted,
    {
        self.minted
    }

    /// The log, for reading.
    pub fn log(&self) -> (log: &EventLog)
        ensures
            log@ == self@.log,
    {
        &self.log
    }

    /// Discards every entry of the log. The slot is not touched.
    pub fn clear_log(&mut self)
        ensures
            final(self)@ == old(self)@.clear_log(),
    {
        self.log.clear();
    }

    /// A connect request whose identity gets `token` as its random part.
    ///
    /// An empty address, or one without `ws://` or `wss://` in front, is
    /// refused: the log gains one `Error` line and nothing else changes.
    /// Otherwise a fresh identity takes the slot as `Connecting`, whatever
    /// was there, and the outcome holds the handle of the installed session
    /// that this retires, so that its socket can be closed.
    pub fn connect_with(&mut self, url: &str, token: u128) -> (outcome: ConnectOutcome<C>)
        requires
            old(self)@.wf(),
            validation(url@).is_none() ==> old(self)@.can_mint(),
        ensures
            final(self)@ == old(self)@.connect(url@, token),
            outcome == old(self)@.connect_outcome(url@, token),
            final(self)@.wf(),
    {
        match validate_url(url) {
            Err(reason) => {
                self.log.append(refused_entry(reason));
                ConnectOutcome::Rejected(reason)
            },
            Ok(()) => {
                let identity = SessionIdentity { serial: self.minted, token: token };
                let mut slot = Slot::Connecting(identity);
                core::mem::swap(&mut self.slot, &mut slot);
                self.minted = self.minted + 1;
                let retired = match slot {
                    Slot::Connected(handle) => Some(handle),
                    _ => None,
                };
                ConnectOutcome::Started { identity: identity, retired: retired }
            },
        }
    }

    /// A connect request. The identity's random part is drawn here; apart
    /// from that the request is handled as by `connect_with`.
    pub fn connect(&mut self, url: &str) -> (outcome: ConnectOutcome<C>)
        requires
            old(self)@.wf(),
            validation(url@).is_none() ==> old(self)@.can_mint(),
        ensures
            exists|token: u128|
                final(self)@ == #[trigger] old(self)@.connect(url@, token) && outcome == old(
                    self,
                )@.connect_outcome(url@, token),
            outcome matches ConnectOutcome::Started { identity, retired } ==> {
                &&& validation(url@).is_none()
                &&& final(self)@.slot == Slot::<C>::Connecting(identity)
                &&& identity.serial == old(self)@.minted
                &&& old(self)@.slot.expected() != Some(identity)
                &&& retired == old(self)@.slot.current()
                &&& final(self)@.log == old(self)@.log
            },
            outcome matches ConnectOutcome::Rejected(reason) ==> {
                &&& validation(url@) == Some(reason)
                &&& final(self)@.slot == old(self)@.slot
                &&& final(self)@.minted == old(self)@.minted
                &&& final(self)@.log == old(self)@.log.push(refused(reason))
            },
            final(self)@.wf(),
    {
        let token: u128 = random_token();
        self.connect_with(url, token)
    }

    /// A disconnect request. The slot becomes idle and the log is left as it
    /// is; the result is the handle of the installed session, if there was
    /// one, whose socket is to be closed. With an idle slot nothing changes.
    pub fn disconnect(&mut self) -> (retired: Option<SessionHandle<C>>)
        requires
            old(self)@.wf(),
        ensures
            final(self)@ == old(self)@.disconnect(),
            retired == old(self)@.slot.current(),
            old(self)@.slot == Slot::<C>::Idle ==> final(self)@ == old(self)@,
            final(self)@.wf(),
    {
        let mut slot = Slot::Idle;
        core::mem::swap(&mut self.slot, &mut slot);
        match slot {
            Slot::Connected(handle) => Some(handle),
            _ => None,
        }
    }

    /// Worker `id` could not connect to `url`: the log gains the `Error`
    /// line, and the slot becomes idle where it was waiting for this worker.
    pub fn handshake_failed(&mut self, id: SessionIdentity, url: &str)
        requires
            old(self)@.wf(),
        ensures
            final(self)@ == old(self)@.handshake_failed(id, url@),
            final(self)@.wf(),
    {
        self.log.append(connect_failed_entry(id, url));
        if self.waits_for(id) {
            self.slot = Slot::Idle;
        }
    }

    /// Worker `id` completed its handshake with `url`. The log gains the
    /// `Success` line. Where the slot was waiting for this worker, it is
    /// installed with `closer` in its handle and told to go on. Otherwise it
    /// was superseded in the meantime: the slot stays as it is, `closer` is
    /// let go, the log gains the `Warning` line, and the worker is told to
    /// close its socket and end.
    pub fn handshake_succeeded(&mut self, id: SessionIdentity, url: &str, closer: C) -> (step:
        WorkerStep)
        requires
            old(self)@.wf(),
        ensures
            final(self)@ == old(self)@.handshake_succeeded(id, url@, closer),
            step == old(self)@.step_after_handshake(id),
            final(self)@.wf(),
    {
        self.log.append(connected_entry(id, url));
        if self.waits_for(id) {
            self.slot = Slot::Connected(SessionHandle { identity: id, closer: closer });
            WorkerStep::Continue
        } else {
            self.log.append(superseded_entry(id));
            WorkerStep::Stop
        }
    }

    /// Worker `id` is about to read. Where it is still the installed session
    /// nothing changes and it goes on. Otherwise the log gains the `Warning`
    /// line of its disconnection and it is told to close its socket and end.
    pub fn before_read(&mut self, id: SessionIdentity, url: &str) -> (step: WorkerStep)
        requires
            old(self)@.wf(),
        ensures
            final(self)@ == old(self)@.before_read(id, url@),
            step == old(self)@.step_while_reading(id),
            final(self)@.wf(),
    {
        if self.is_current(id) {
            WorkerStep::Continue
        } else {
            self.log.append(disconnected_entry(id, url));
            WorkerStep::Stop
        }
    }

    /// Worker `id` received the text frame `text`. Where it is still the
    /// installed session the log gains the `Info` line and it goes on.
    /// Otherwise the frame is dropped: the log gains the `Warning` line of
    /// the worker's disconnection and it is told to close its socket and end.
    pub fn frame_received(&mut self, id: SessionIdentity, url: &str, text: &str) -> (step:
        WorkerStep)
        requires
            old(self)@.wf(),
        ensures
            final(self)@ == old(self)@.frame_received(id, url@, text@),
            step == old(self)@.step_while_reading(id),
            final(self)@.wf(),
    {
        if self.is_current(id) {
            self.log.append(received_entry(id, text));
            WorkerStep::Continue
        } else {
            self.log.append(disconnected_entry(id, url));
            WorkerStep::Stop
        }
    }

    /// The socket of worker `id` came to its end: the peer closed it or a
    /// read failed. Where the worker was the installed session the slot
    /// becomes idle and the log gains the line for `cause`. Otherwise it had
    /// been superseded, and the log gains the `Warning` line of its
    /// disconnection. Either way the worker ends.
    pub fn session_ended(&mut self, id: SessionIdentity, url: &str, cause: EndCause)
        requires
            old(self)@.wf(),
        ensures
            final(self)@ == old(self)@.session_ended(id, url@, cause),
            final(self)@.wf(),
    {
        if self.is_current(id) {
            self.slot = Slot::Idle;
            self.log.append(ended_entry(id, url, cause));
        } else {
            self.log.append(disconnected_entry(id, url));
        }
    }
}

} // verus!
