//! The connection worker: the decisions of the task that drives one socket.
//!
//! The worker does no I/O itself. Its caller connects, reads and closes as
//! the worker says, and reports what the socket did; the worker records it
//! with the manager and says what to do next.

use vstd::prelude::*;
use crate::identity::SessionIdentity;
use crate::manager::{ManagerModel, SessionManager, Slot, WorkerStep};
use crate::message::{connected, disconnected, superseded, EndCause};
use crate::url::validation;

verus! {

/// Where a worker stands.
#[derive(Clone, Copy, Debug, PartialEq, Eq, Structural)]
pub enum Phase {
    /// The handshake has not been reported yet.
    Handshaking,
    /// The worker is installed and reads frames.
    Reading,
    /// The worker is over; nothing that it reports is recorded any more.
    Ended,
}

/// What the socket did.
#[derive(Debug)]
pub enum SocketEvent<C> {
    /// The connect attempt failed.
    HandshakeFailed,
    /// The connect attempt succeeded; with it comes the means to close the
    /// socket from outside the worker.
    HandshakeCompleted(C),
    /// A read ran into its time limit: nothing arrived.
    Quiet,
    /// A text frame arrived.
    Text(String),
    /// The peer closed the connection.
    PeerClosed,
    /// A read failed.
    ReadFailed,
}

/// A `SocketEvent` with its text as characters.
pub enum SocketEventModel<C> {
    HandshakeFailed,
    HandshakeCompleted(C),
    Quiet,
    Text(Seq<char>),
    PeerClosed,
    ReadFailed,
}

impl<C> View for SocketEvent<C> {
    type V = SocketEventModel<C>;

    open spec fn view(&self) -> SocketEventModel<C> {
        match self {
            SocketEvent::HandshakeFailed => SocketEventModel::HandshakeFailed,
            SocketEvent::HandshakeCompleted(closer) => SocketEventModel::HandshakeCompleted(
                *closer,
            ),
            SocketEvent::Quiet => SocketEventModel::Quiet,
            SocketEvent::Text(text) => SocketEventModel::Text(text@),
            SocketEvent::PeerClosed => SocketEventModel::PeerClosed,
            SocketEvent::ReadFailed => SocketEventModel::ReadFailed,
        }
    }
}

/// What the caller must do next for the worker.
#[derive(Clone, Copy, Debug, PartialEq, Eq, Structural)]
pub enum WorkerAction {
    /// Attempt the handshake and report how it went.
    Connect,
    /// Read one frame, with a time limit, and report what came.
    Read,
    /// Close the socket; the worker is over.
    CloseAndEnd,
    /// The worker is over and holds no socket.
    End,
}

/// A worker as a plain value.
pub struct WorkerModel {
    pub id: SessionIdentity,
    pub url: Seq<char>,
    pub phase: Phase,
}

impl WorkerModel {
    /// The manager after this worker reported `event`.
    ///
    /// While handshaking only the outcome of the handshake is recorded.
    /// While reading, a frame, the peer's close and a read failure are
    /// recorded as such, and anything else counts as a quiet read: the
    /// worker asks whether it may go on. An ended worker records nothing.
    pub open spec fn manager_after<C>(
        self,
        m: ManagerModel<C>,
        event: SocketEventModel<C>,
    ) -> ManagerModel<C> {
        match self.phase {
            Phase::Handshaking => match event {
                SocketEventModel::HandshakeFailed => m.handshake_failed(self.id, self.url),
                SocketEventModel::HandshakeCompleted(closer) => m.handshake_succeeded(
                    self.id,
                    self.url,
                    closer,
                ),
                _ => m,
            },
            Phase::Reading => match event {
                SocketEventModel::Text(text) => m.frame_received(self.id, self.url, text),
                SocketEventModel::PeerClosed => m.session_ended(
                    self.id,
                    self.url,
                    EndCause::PeerClosed,
                ),
                SocketEventModel::ReadFailed => m.session_ended(
                    self.id,
                    self.url,
                    EndCause::ReadError,
                ),
                _ => m.before_read(self.id, self.url),
            },
            Phase::Ended => m,
        }
    }

    /// What the worker asks for after it reported `event`.
    pub open spec fn action_after<C>(
        self,
        m: ManagerModel<C>,
        event: SocketEventModel<C>,
    ) -> WorkerAction {
        match self.phase {
            Phase::Handshaking => match event {
                SocketEventModel::HandshakeFailed => WorkerAction::End,
                SocketEventModel::HandshakeCompleted(closer) => match m.step_after_handshake(
                    self.id,
                ) {
                    WorkerStep::Continue => WorkerAction::Read,
                    WorkerStep::Stop => WorkerAction::CloseAndEnd,
                },
                _ => WorkerAction::Connect,
            },
            Phase::Reading => match event {
                SocketEventModel::PeerClosed => WorkerAction::CloseAndEnd,
                SocketEventModel::ReadFailed => WorkerAction::CloseAndEnd,
                _ => match m.step_while_reading(self.id) {
                    WorkerStep::Continue => WorkerAction::Read,
                    WorkerStep::Stop => WorkerAction::CloseAndEnd,
                },
            },
            Phase::Ended => WorkerAction::End,
        }
    }

    /// The phase that belongs to an action.
    pub open spec fn phase_for(action: WorkerAction) -> Phase {
        match action {
            WorkerAction::Connect => Phase::Handshaking,
            WorkerAction::Read => Phase::Reading,
            WorkerAction::CloseAndEnd => Phase::Ended,
            WorkerAction::End => Phase::Ended,
        }
    }

    /// The worker after it reported `event`.
    pub open spec fn after<C>(self, m: ManagerModel<C>, event: SocketEventModel<C>) -> WorkerModel {
        WorkerModel { phase: Self::phase_for(self.action_after(m, event)), ..self }
    }
}

/// The worker of one connection attempt.
pub struct ConnectionWorker {
    id: SessionIdentity,
    url: String,
    phase: Phase,
}

impl View for ConnectionWorker {
    type V = WorkerModel;

    closed spec fn view(&self) -> WorkerModel {
        WorkerModel { id: self.id, url: self.url@, phase: self.phase }
    }
}

fn action_of(step: WorkerStep) -> (action: WorkerAction)
    ensures
        action == match step {
            WorkerStep::Continue => WorkerAction::Read,
            WorkerStep::Stop => WorkerAction::CloseAndEnd,
        },
{
    match step {
        WorkerStep::Continue => WorkerAction::Read,
        WorkerStep::Stop => WorkerAction::CloseAndEnd,
    }
}

impl ConnectionWorker {
    /// A worker for the attempt `id` on `url`, about to connect.
    pub fn new(id: SessionIdentity, url: String) -> (worker: ConnectionWorker)
        ensures
            worker@ == (WorkerModel { id: id, url: url@, phase: Phase::Handshaking }),
    {
        ConnectionWorker { id, url, phase: Phase::Handshaking }
    }

    pub fn identity(&self) -> (id: SessionIdentity)
        ensures
            id == self@.id,
    {
        self.id
    }

    pub fn url(&self) -> (url: &str)
        ensures
            url@ == self@.url,
    {
        self.url.as_str()
    }

    pub fn phase(&self) -> (phase: Phase)
        ensures
            phase == self@.phase,
    {
        self.phase
    }

    /// What the caller must do for the worker as it stands.
    pub fn pending(&self) -> (action: WorkerAction)
        ensures
            action == match self@.phase {
                Phase::Handshaking => WorkerAction::Connect,
                Phase::Reading => WorkerAction::Read,
                Phase::Ended => WorkerAction::End,
            },
    {
        match self.phase {
            Phase::Handshaking => WorkerAction::Connect,
            Phase::Reading => WorkerAction::Read,
            Phase::Ended => WorkerAction::End,
        }
    }

    /// Records with `manager` what the socket did and says what to do next.
    ///
    /// The worker goes on reading only while the manager holds it as the
    /// installed session; on every other path it ends, and where it holds a
    /// socket the caller is told to close it.
    pub fn advance<C>(&mut self, manager: &mut SessionManager<C>, event: SocketEvent<C>) -> (action:
        WorkerAction)
        requires
            old(manager)@.wf(),
        ensures
            final(manager)@ == old(self)@.manager_after(old(manager)@, event@),
            action == old(self)@.action_after(old(manager)@, event@),
            final(self)@ == old(self)@.after(old(manager)@, event@),
            final(manager)@.wf(),
    {
        let action = match self.phase {
            Phase::Handshaking => match event {
                SocketEvent::HandshakeFailed => {
                    manager.handshake_failed(self.id, self.url.as_str());
                    WorkerAction::End
                },
                SocketEvent::HandshakeCompleted(closer) => action_of(
                    manager.handshake_succeeded(self.id, self.url.as_str(), closer),
                ),
                _ => WorkerAction::Connect,
            },
            Phase::Reading => match event {
                SocketEvent::Text(text) => action_of(
                    manager.frame_received(self.id, self.url.as_str(), text.as_str()),
                ),
                SocketEvent::PeerClosed => {
                    manager.session_ended(self.id, self.url.as_str(), EndCause::PeerClosed);
                    WorkerAction::CloseAndEnd
                },
                SocketEvent::ReadFailed => {
                    manager.session_ended(self.id, self.url.as_str(), EndCause::ReadError);
                    WorkerAction::CloseAndEnd
                },
                _ => action_of(manager.before_read(self.id, self.url.as_str())),
            },
            Phase::Ended => WorkerAction::End,
        };
        self.phase = match action {
            WorkerAction::Connect => Phase::Handshaking,
            WorkerAction::Read => Phase::Reading,
            WorkerAction::CloseAndEnd => Phase::Ended,
            WorkerAction::End => Phase::Ended,
        };
        action
    }
}

/// A worker is told to read only while it is the installed session.
pub proof fn lemma_reads_only_while_current<C>(
    w: WorkerModel,
    m: ManagerModel<C>,
    event: SocketEventModel<C>,
)
    requires
        w.action_after(m, event) == WorkerAction::Read,
    ensures
        w.manager_after(m, event).is_current(w.id),
        w.after(m, event).phase == Phase::Reading,
{
}

/// An ended worker is inert: whatever it reports, the manager stays as it
/// is and the worker stays ended.
pub proof fn lemma_ended_worker_is_inert<C>(
    w: WorkerModel,
    m: ManagerModel<C>,
    event: SocketEventModel<C>,
)
    requires
        w.phase == Phase::Ended,
    ensures
        w.manager_after(m, event) == m,
        w.after(m, event) == w,
        w.action_after(m, event) == WorkerAction::End,
{
}

/// A reading worker that is no longer the installed session ends at its next
/// report, whatever that is: the log gains the one `Warning` line of its
/// disconnection, the slot is left alone, and its socket is to be closed.
pub proof fn lemma_superseded_worker_ends<C>(
    w: WorkerModel,
    m: ManagerModel<C>,
    event: SocketEventModel<C>,
)
    requires
        w.phase == Phase::Reading,
        !m.is_current(w.id),
    ensures
        w.manager_after(m, event).log == m.log.push(disconnected(w.id, w.url)),
        w.manager_after(m, event).slot == m.slot,
        w.action_after(m, event) == WorkerAction::CloseAndEnd,
        w.after(m, event).phase == Phase::Ended,
{
}

/// Every path on which a worker that holds a socket stops reading tells the
/// caller to close it: a worker that was reading never ends with `End`.
pub proof fn lemma_socket_is_always_released<C>(
    w: WorkerModel,
    m: ManagerModel<C>,
    event: SocketEventModel<C>,
)
    requires
        w.phase == Phase::Reading || (w.phase == Phase::Handshaking
            && event is HandshakeCompleted),
    ensures
        w.action_after(m, event) == WorkerAction::Read || w.action_after(m, event)
            == WorkerAction::CloseAndEnd,
{
}

/// The worker and the manager after the worker reported `events` in turn,
/// oldest first, with nothing else happening in between.
pub open spec fn drive<C>(
    w: WorkerModel,
    m: ManagerModel<C>,
    events: Seq<SocketEventModel<C>>,
) -> (WorkerModel, ManagerModel<C>)
    decreases events.len(),
{
    if events.len() == 0 {
        (w, m)
    } else {
        let (w1, m1) = drive(w, m, events.drop_last());
        (w1.after(m1, events.last()), w1.manager_after(m1, events.last()))
    }
}

/// A worker that completes its handshake after it was superseded is not
/// installed: the log gains its `Success` line and then the `Warning` line
/// of its supersession, the slot is left alone, and the worker ends with
/// its socket to be closed.
pub proof fn lemma_superseded_handshake_ends<C>(w: WorkerModel, m: ManagerModel<C>, closer: C)
    requires
        w.phase == Phase::Handshaking,
        !m.slot.waits_for(w.id),
    ensures
        w.manager_after(m, SocketEventModel::HandshakeCompleted(closer)).log == m.log.push(
            connected(w.id, w.url),
        ).push(superseded(w.id)),
        w.manager_after(m, SocketEventModel::HandshakeCompleted(closer)).slot == m.slot,
        w.action_after(m, SocketEventModel::HandshakeCompleted(closer))
            == WorkerAction::CloseAndEnd,
        w.after(m, SocketEventModel::HandshakeCompleted(closer)).phase == Phase::Ended,
{
}

/// A reading worker that is no longer the installed session logs once and
/// for all: whatever it reports, and however often, the log gains exactly
/// the one `Warning` line of its disconnection, at its first report, and
/// nothing of this worker follows that line. The slot is left alone.
pub proof fn lemma_stale_worker_logs_once<C>(
    w: WorkerModel,
    m: ManagerModel<C>,
    events: Seq<SocketEventModel<C>>,
)
    requires
        w.phase == Phase::Reading,
        !m.is_current(w.id),
        events.len() > 0,
    ensures
        w.action_after(m, events[0]) == WorkerAction::CloseAndEnd,
        drive(w, m, events).0.phase == Phase::Ended,
        drive(w, m, events).1.log == m.log.push(disconnected(w.id, w.url)),
        drive(w, m, events).1.slot == m.slot,
    decreases events.len(),
{
    let before = events.drop_last();
    if before.len() == 0 {
        assert(drive(w, m, before) == (w, m));
        lemma_superseded_worker_ends(w, m, events.last());
    } else {
        lemma_stale_worker_logs_once(w, m, before);
        let (w1, m1) = drive(w, m, before);
        lemma_ended_worker_is_inert(w1, m1, events.last());
        assert(before[0] == events[0]);
    }
}

/// After a later connect request is accepted, the worker that was installed
/// ends at its first report with its socket to be closed, and whatever it
/// reports, then and later, the log gains exactly the one `Warning` line of
/// its disconnection. The slot keeps waiting for the new worker.
pub proof fn lemma_connect_ends_worker<C>(
    w: WorkerModel,
    m: ManagerModel<C>,
    url: Seq<char>,
    token: u128,
    events: Seq<SocketEventModel<C>>,
)
    requires
        w.phase == Phase::Reading,
        m.is_current(w.id),
        validation(url).is_none(),
        events.len() > 0,
    ensures
        w.action_after(m.connect(url, token), events[0]) == WorkerAction::CloseAndEnd,
        drive(w, m.connect(url, token), events).0.phase == Phase::Ended,
        drive(w, m.connect(url, token), events).1.log == m.log.push(disconnected(w.id, w.url)),
        drive(w, m.connect(url, token), events).1.slot == Slot::<C>::Connecting(
            m.next_identity(token),
        ),
{
    lemma_stale_worker_logs_once(w, m.connect(url, token), events);
}

/// After a disconnect request the installed worker ends at its first report
/// with its socket to be closed, and whatever it reports, then and later,
/// the log gains exactly the one `Warning` line of its disconnection and
/// the slot stays idle.
pub proof fn lemma_disconnect_ends_worker<C>(
    w: WorkerModel,
    m: ManagerModel<C>,
    events: Seq<SocketEventModel<C>>,
)
    requires
        w.phase == Phase::Reading,
        m.is_current(w.id),
        events.len() > 0,
    ensures
        w.action_after(m.disconnect(), events[0]) == WorkerAction::CloseAndEnd,
        drive(w, m.disconnect(), events).0.phase == Phase::Ended,
        drive(w, m.disconnect(), events).1.log == m.log.push(disconnected(w.id, w.url)),
        drive(w, m.disconnect(), events).1.slot == Slot::<C>::Idle,
{
    lemma_stale_worker_logs_once(w, m.disconnect(), events);
}

} // verus!
