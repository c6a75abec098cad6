//! What holds of the manager over whole histories of requests and worker
//! events, stated over `ManagerModel` and proved.

use vstd::prelude::*;
use crate::identity::SessionIdentity;
use crate::log::{count_kind, lemma_count_kind_push, LogKind};
use crate::manager::{ConnectOutcome, ManagerModel, SessionHandle, Slot, WorkerStep};
use crate::message::{disconnected, refused, EndCause};
use crate::url::validation;

verus! {

/// One call on the manager, with its arguments as plain values.
pub enum Event<C> {
    Connect { url: Seq<char>, token: u128 },
    Disconnect,
    ClearLog,
    HandshakeFailed { id: SessionIdentity, url: Seq<char> },
    HandshakeSucceeded { id: SessionIdentity, url: Seq<char>, closer: C },
    BeforeRead { id: SessionIdentity, url: Seq<char> },
    FrameReceived { id: SessionIdentity, url: Seq<char>, text: Seq<char> },
    SessionEnded { id: SessionIdentity, url: Seq<char>, cause: EndCause },
}

/// The manager after one event.
pub open spec fn step<C>(m: ManagerModel<C>, event: Event<C>) -> ManagerModel<C> {
    match event {
        Event::Connect { url, token } => m.connect(url, token),
        Event::Disconnect => m.disconnect(),
        Event::ClearLog => m.clear_log(),
        Event::HandshakeFailed { id, url } => m.handshake_failed(id, url),
        Event::HandshakeSucceeded { id, url, closer } => m.handshake_succeeded(id, url, closer),
        Event::BeforeRead { id, url } => m.before_read(id, url),
        Event::FrameReceived { id, url, text } => m.frame_received(id, url, text),
        Event::SessionEnded { id, url, cause } => m.session_ended(id, url, cause),
    }
}

/// The manager after a history of events, oldest first.
pub open spec fn run<C>(m: ManagerModel<C>, events: Seq<Event<C>>) -> ManagerModel<C>
    decreases events.len(),
{
    if events.len() == 0 {
        m
    } else {
        step(run(m, events.drop_last()), events.last())
    }
}

/// Identity `id` was minted by `m` at some earlier time and is not the one
/// that the slot holds: its worker has been superseded, or has ended.
pub open spec fn retired<C>(m: ManagerModel<C>, id: SessionIdentity) -> bool {
    id.serial < m.minted && m.slot.expected() != Some(id)
}

/// The event is a connect request whose address is accepted.
pub open spec fn is_accepted_connect<C>(event: Event<C>) -> bool {
    match event {
        Event::Connect { url, token } => validation(url).is_none(),
        _ => false,
    }
}

/// How many of `events` are connect requests whose address is accepted.
pub open spec fn accepted_connects<C>(events: Seq<Event<C>>) -> nat
    decreases events.len(),
{
    if events.len() == 0 {
        0
    } else {
        accepted_connects(events.drop_last()) + if is_accepted_connect(events.last()) {
            1nat
        } else {
            0nat
        }
    }
}

/// One event keeps the manager well formed, and mints an identity exactly
/// where it is an accepted connect request.
pub proof fn lemma_step_keeps_wf<C>(m: ManagerModel<C>, event: Event<C>)
    requires
        m.wf(),
        is_accepted_connect(event) ==> m.can_mint(),
    ensures
        step(m, event).wf(),
        step(m, event).minted == m.minted + if is_accepted_connect(event) {
            1nat
        } else {
            0nat
        },
{
}

/// Single session: after any history of requests and worker events the
/// manager has minted one identity for each accepted connect request, and
/// the slot holds at most one identity, which is the one minted by the last
/// of them. No history brings back an earlier worker, and none leaves two
/// in place.
pub proof fn lemma_single_session<C>(m: ManagerModel<C>, events: Seq<Event<C>>)
    requires
        m.wf(),
        m.minted + accepted_connects(events) <= u64::MAX,
    ensures
        run(m, events).wf(),
        run(m, events).minted == m.minted + accepted_connects(events),
        match run(m, events).slot.expected() {
            Some(id) => id.serial + 1 == m.minted + accepted_connects(events),
            None => true,
        },
    decreases events.len(),
{
    if events.len() > 0 {
        lemma_single_session(m, events.drop_last());
        lemma_step_keeps_wf(run(m, events.drop_last()), events.last());
    }
}

/// The latest accepted connect request owns the slot: right after it the
/// slot waits for the identity it minted, and once that worker reports its
/// handshake it is the installed session.
pub proof fn lemma_latest_connect_owns_slot<C>(
    m: ManagerModel<C>,
    url: Seq<char>,
    token: u128,
    closer: C,
)
    requires
        m.wf(),
        m.can_mint(),
        validation(url).is_none(),
    ensures
        m.connect(url, token).slot == Slot::<C>::Connecting(m.next_identity(token)),
        m.connect(url, token).handshake_succeeded(m.next_identity(token), url, closer).slot
            == Slot::Connected(SessionHandle { identity: m.next_identity(token), closer: closer }),
        m.connect(url, token).handshake_succeeded(m.next_identity(token), url, closer).is_current(
            m.next_identity(token),
        ),
        m.connect(url, token).log == m.log,
{
}

/// A fresh identity is new: the identity that an accepted connect request
/// mints takes the slot, differs from the one that was there, and differs
/// from every identity minted before.
pub proof fn lemma_fresh_identity_is_new<C>(
    m: ManagerModel<C>,
    url: Seq<char>,
    token: u128,
    earlier: SessionIdentity,
)
    requires
        m.wf(),
        validation(url).is_none(),
        earlier.serial < m.minted,
    ensures
        m.connect(url, token).slot.expected() == Some(m.next_identity(token)),
        m.slot.expected() != Some(m.next_identity(token)),
        m.next_identity(token) != earlier,
        m.connect_outcome(url, token) == (ConnectOutcome::Started {
            identity: m.next_identity(token),
            retired: m.slot.current(),
        }),
{
}

/// An accepted connect request retires every identity minted before it,
/// the one in the slot included.
pub proof fn lemma_connect_retires_earlier<C>(
    m: ManagerModel<C>,
    url: Seq<char>,
    token: u128,
    earlier: SessionIdentity,
)
    requires
        m.wf(),
        m.can_mint(),
        validation(url).is_none(),
        earlier.serial < m.minted,
    ensures
        retired(m.connect(url, token), earlier),
{
}

/// A refused address starts nothing: the outcome is a rejection, the slot
/// and the count of identities stay, and the log gains exactly one line, of
/// kind `Error`.
pub proof fn lemma_refused_connect<C>(m: ManagerModel<C>, url: Seq<char>, token: u128)
    requires
        validation(url) is Some,
    ensures
        m.connect_outcome(url, token) == ConnectOutcome::<C>::Rejected(validation(url).unwrap()),
        m.connect(url, token).slot == m.slot,
        m.connect(url, token).minted == m.minted,
        m.connect(url, token).log == m.log.push(refused(validation(url).unwrap())),
        count_kind(m.connect(url, token).log, LogKind::Error) == count_kind(m.log, LogKind::Error)
            + 1,
{
    lemma_count_kind_push(m.log, refused(validation(url).unwrap()), LogKind::Error);
}

/// A retired worker stays retired over one event.
pub proof fn lemma_step_keeps_retired<C>(m: ManagerModel<C>, id: SessionIdentity, event: Event<C>)
    requires
        m.wf(),
        is_accepted_connect(event) ==> m.can_mint(),
        retired(m, id),
    ensures
        retired(step(m, event), id),
{
}

/// Supersession is final: a retired worker is never the installed session
/// again, whatever requests and events follow.
pub proof fn lemma_retired_never_current<C>(
    m: ManagerModel<C>,
    id: SessionIdentity,
    events: Seq<Event<C>>,
)
    requires
        m.wf(),
        m.minted + accepted_connects(events) <= u64::MAX,
        retired(m, id),
    ensures
        retired(run(m, events), id),
        !run(m, events).is_current(id),
    decreases events.len(),
{
    if events.len() > 0 {
        let before = events.drop_last();
        lemma_retired_never_current(m, id, before);
        lemma_single_session(m, before);
        lemma_step_keeps_retired(run(m, before), id, events.last());
    }
}

/// A worker that is not the installed session logs no received message: a
/// frame that it reports adds the `Warning` line of its disconnection and
/// nothing of kind `Info`, and it is told to stop; so is it before a read.
pub proof fn lemma_stale_worker_logs_no_message<C>(
    m: ManagerModel<C>,
    id: SessionIdentity,
    url: Seq<char>,
    text: Seq<char>,
)
    requires
        !m.is_current(id),
    ensures
        m.frame_received(id, url, text).log == m.log.push(disconnected(id, url)),
        count_kind(m.frame_received(id, url, text).log, LogKind::Info) == count_kind(
            m.log,
            LogKind::Info,
        ),
        m.step_while_reading(id) == WorkerStep::Stop,
        m.before_read(id, url).log == m.log.push(disconnected(id, url)),
{
    lemma_count_kind_push(m.log, disconnected(id, url), LogKind::Info);
}

/// After a later connect request is accepted, the worker of an earlier one
/// never logs a received message again, whatever follows: a frame that it
/// reports adds only the `Warning` line of its disconnection.
pub proof fn lemma_superseded_worker_is_silenced<C>(
    m: ManagerModel<C>,
    url: Seq<char>,
    token: u128,
    events: Seq<Event<C>>,
    earlier: SessionIdentity,
    earlier_url: Seq<char>,
    text: Seq<char>,
)
    requires
        m.wf(),
        earlier.serial < m.minted,
        validation(url).is_none(),
        m.minted + 1 + accepted_connects(events) <= u64::MAX,
    ensures
        !run(m.connect(url, token), events).is_current(earlier),
        run(m.connect(url, token), events).frame_received(earlier, earlier_url, text).log == run(
            m.connect(url, token),
            events,
        ).log.push(disconnected(earlier, earlier_url)),
{
    lemma_connect_retires_earlier(m, url, token, earlier);
    lemma_retired_never_current(m.connect(url, token), earlier, events);
}

/// Disconnecting with an idle slot changes nothing, and disconnecting twice
/// is the same as disconnecting once.
pub proof fn lemma_disconnect_idempotent<C>(m: ManagerModel<C>)
    ensures
        m.slot == Slot::<C>::Idle ==> m.disconnect() == m,
        m.disconnect().disconnect() == m.disconnect(),
        m.disconnect().log == m.log,
        m.disconnect().slot.current().is_none(),
{
}

/// Nothing but a clear removes an entry: any other event leaves every
/// earlier entry at its place and only adds after them.
pub proof fn lemma_step_keeps_entries<C>(m: ManagerModel<C>, event: Event<C>)
    requires
        !(event is ClearLog),
    ensures
        m.log.is_prefix_of(step(m, event).log),
{
    let after = step(m, event).log;
    assert(after.subrange(0, m.log.len() as int) =~= m.log);
}

/// Over a history without a clear the log only grows: what was logged
/// before is still there, in the same order, in front of what came after.
pub proof fn lemma_run_keeps_entries<C>(m: ManagerModel<C>, events: Seq<Event<C>>)
    requires
        forall|i: int| 0 <= i < events.len() ==> !(#[trigger] events[i] is ClearLog),
    ensures
        m.log.is_prefix_of(run(m, events).log),
    decreases events.len(),
{
    if events.len() == 0 {
        assert(m.log.subrange(0, m.log.len() as int) =~= m.log);
    } else {
        let before = events.drop_last();
        assert forall|i: int| 0 <= i < before.len() implies !(#[trigger] before[i] is ClearLog) by {
            assert(before[i] == events[i]);
        }
        lemma_run_keeps_entries(m, before);
        let mid = run(m, before);
        lemma_step_keeps_entries(mid, events.last());
        let last = run(m, events).log;
        assert forall|i: int| 0 <= i < m.log.len() implies last[i] == m.log[i] by {
            assert(last.subrange(0, mid.log.len() as int)[i] == mid.log[i]);
            assert(mid.log.subrange(0, m.log.len() as int)[i] == m.log[i]);
        }
        assert(last.subrange(0, m.log.len() as int) =~= m.log);
    }
}

} // verus!
