use ws_session::identity::SessionIdentity;
use ws_session::log::LogKind;
use ws_session::manager::{ConnectOutcome, SessionHandle, SessionManager, Slot, WorkerStep};
use ws_session::message::EndCause;
use ws_session::url::ValidationError;

const URL_A: &str = "ws://127.0.0.1:3456";
const URL_B: &str = "wss://example.org/feed";

type Manager = SessionManager<u32>;

fn lines(m: &Manager) -> Vec<(String, LogKind)> {
    m.log().snapshot().iter().map(|e| (e.text().to_string(), e.kind())).collect()
}

fn label(id: SessionIdentity) -> String {
    uuid::Uuid::from_u128(id.token).to_string()
}

fn current(m: &Manager) -> Option<SessionIdentity> {
    m.current().map(|handle| handle.identity)
}

fn handle(identity: SessionIdentity, closer: u32) -> SessionHandle<u32> {
    SessionHandle { identity, closer }
}

fn started(outcome: ConnectOutcome<u32>) -> (SessionIdentity, Option<SessionHandle<u32>>) {
    match outcome {
        ConnectOutcome::Started { identity, retired } => (identity, retired),
        ConnectOutcome::Rejected(reason) => panic!("refused: {:?}", reason),
    }
}

#[test]
fn new_manager_is_idle() {
    let m = Manager::new();
    assert_eq!(*m.slot(), Slot::Idle);
    assert_eq!(current(&m), None);
    assert_eq!(m.minted(), 0);
    assert!(m.log().is_empty());
}

#[test]
fn connect_with_empty_address_logs_one_error() {
    let mut m = Manager::new();
    let out = m.connect("");
    assert_eq!(out, ConnectOutcome::Rejected(ValidationError::EmptyUrl));
    assert_eq!(*m.slot(), Slot::Idle);
    assert_eq!(m.minted(), 0);
    assert_eq!(lines(&m), vec![("请输入连接地址！".to_string(), LogKind::Error)]);
    assert_eq!(m.log().count(LogKind::Error), 1);
}

#[test]
fn connect_without_scheme_logs_one_error() {
    let mut m = Manager::new();
    let out = m.connect("http://x");
    assert_eq!(out, ConnectOutcome::Rejected(ValidationError::MissingScheme));
    assert_eq!(*m.slot(), Slot::Idle);
    assert_eq!(m.minted(), 0);
    assert_eq!(
        lines(&m),
        vec![("the protocol must be explicit: ws:// or wss://".to_string(), LogKind::Error)]
    );
    assert_eq!(m.log().len(), 1);
}

#[test]
fn refused_connect_leaves_the_session_in_place() {
    let mut m = Manager::new();
    let (a, _) = started(m.connect_with(URL_A, 11));
    assert_eq!(m.handshake_succeeded(a, URL_A, 1), WorkerStep::Continue);
    let out = m.connect_with("ftp://x", 12);
    assert_eq!(out, ConnectOutcome::Rejected(ValidationError::MissingScheme));
    assert_eq!(*m.slot(), Slot::Connected(handle(a, 1)));
    assert_eq!(m.minted(), 1);
    assert_eq!(m.before_read(a, URL_A), WorkerStep::Continue);
    assert_eq!(m.log().count(LogKind::Error), 1);
}

#[test]
fn connect_mints_a_fresh_identity_each_time() {
    let mut m = Manager::new();
    let (a, retired_a) = started(m.connect(URL_A));
    assert_eq!(a.serial, 0);
    assert_eq!(retired_a, None);
    assert_eq!(*m.slot(), Slot::Connecting(a));
    let (b, retired_b) = started(m.connect(URL_B));
    assert_eq!(b.serial, 1);
    assert_eq!(retired_b, None);
    assert_eq!(*m.slot(), Slot::Connecting(b));
    assert_ne!(a, b);
    assert_eq!(m.minted(), 2);
    assert!(m.log().is_empty());
    assert_eq!(uuid::Uuid::from_u128(a.token).get_version_num(), 4);
    assert_eq!(uuid::Uuid::from_u128(b.token).get_version_num(), 4);
}

#[test]
fn connect_with_uses_the_given_token() {
    let mut m = Manager::new();
    let out = m.connect_with(URL_A, 77);
    assert_eq!(
        out,
        ConnectOutcome::Started { identity: SessionIdentity { serial: 0, token: 77 }, retired: None }
    );
    assert_eq!(*m.slot(), Slot::Connecting(SessionIdentity { serial: 0, token: 77 }));
}

#[test]
fn handshake_installs_the_expected_worker() {
    let mut m = Manager::new();
    let (a, _) = started(m.connect_with(URL_A, 5));
    assert_eq!(current(&m), None);
    assert_eq!(m.expected(), Some(a));
    assert!(m.waits_for(a));
    assert!(!m.is_current(a));
    assert_eq!(m.handshake_succeeded(a, URL_A, 1), WorkerStep::Continue);
    assert!(!m.waits_for(a));
    assert_eq!(m.expected(), Some(a));
    assert_eq!(*m.slot(), Slot::Connected(handle(a, 1)));
    assert_eq!(current(&m), Some(a));
    assert!(m.is_current(a));
    assert_eq!(
        lines(&m),
        vec![(format!("{} connected to {}", label(a), URL_A), LogKind::Success)]
    );
}

#[test]
fn handshake_failure_logs_an_error_and_frees_the_slot() {
    let mut m = Manager::new();
    let (a, _) = started(m.connect_with(URL_A, 5));
    m.handshake_failed(a, URL_A);
    assert_eq!(*m.slot(), Slot::Idle);
    assert_eq!(
        lines(&m),
        vec![(format!("{} could not connect to {}", label(a), URL_A), LogKind::Error)]
    );
}

#[test]
fn failure_of_a_superseded_worker_leaves_the_slot() {
    let mut m = Manager::new();
    let (a, _) = started(m.connect_with(URL_A, 5));
    let (b, _) = started(m.connect_with(URL_B, 6));
    m.handshake_failed(a, URL_A);
    assert_eq!(*m.slot(), Slot::Connecting(b));
    assert_eq!(m.log().count(LogKind::Error), 1);
}

#[test]
fn worker_superseded_during_handshake_is_not_installed() {
    let mut m = Manager::new();
    let (a, _) = started(m.connect_with(URL_A, 5));
    let (b, retired) = started(m.connect_with(URL_B, 6));
    assert_eq!(retired, None);
    assert_eq!(m.handshake_succeeded(a, URL_A, 1), WorkerStep::Stop);
    assert_eq!(*m.slot(), Slot::Connecting(b));
    assert_eq!(
        lines(&m),
        vec![
            (format!("{} connected to {}", label(a), URL_A), LogKind::Success),
            (format!("{} superseded before handshake completed", label(a)), LogKind::Warning),
        ]
    );
    assert_eq!(m.handshake_succeeded(b, URL_B, 2), WorkerStep::Continue);
    assert_eq!(current(&m), Some(b));
}

#[test]
fn handshake_after_disconnect_is_not_installed() {
    let mut m = Manager::new();
    let (a, _) = started(m.connect_with(URL_A, 5));
    assert_eq!(m.disconnect(), None);
    assert_eq!(*m.slot(), Slot::Idle);
    assert_eq!(m.handshake_succeeded(a, URL_A, 1), WorkerStep::Stop);
    assert_eq!(*m.slot(), Slot::Idle);
    assert_eq!(m.log().count(LogKind::Warning), 1);
}

#[test]
fn second_connect_supersedes_the_first() {
    let mut m = Manager::new();
    let (a, _) = started(m.connect_with(URL_A, 5));
    assert_eq!(m.handshake_succeeded(a, URL_A, 1), WorkerStep::Continue);
    assert_eq!(m.frame_received(a, URL_A, "one"), WorkerStep::Continue);

    let (b, retired) = started(m.connect_with(URL_B, 6));
    assert_eq!(retired, Some(handle(a, 1)));
    assert_eq!(*m.slot(), Slot::Connecting(b));
    assert!(!m.is_current(a));
    assert_eq!(m.handshake_succeeded(b, URL_B, 2), WorkerStep::Continue);

    assert_eq!(m.frame_received(a, URL_A, "late"), WorkerStep::Stop);
    assert_eq!(m.frame_received(b, URL_B, "two"), WorkerStep::Continue);
    assert_eq!(current(&m), Some(b));
    assert_eq!(
        lines(&m),
        vec![
            (format!("{} connected to {}", label(a), URL_A), LogKind::Success),
            (format!("{} received message: one", label(a)), LogKind::Info),
            (format!("{} connected to {}", label(b), URL_B), LogKind::Success),
            (format!("{} disconnected from {}", label(a), URL_A), LogKind::Warning),
            (format!("{} received message: two", label(b)), LogKind::Info),
        ]
    );
}

#[test]
fn only_the_last_of_many_connects_is_current() {
    let mut m = Manager::new();
    let mut ids: Vec<SessionIdentity> = Vec::new();
    for n in 0..5u64 {
        let (id, _) = started(m.connect(URL_A));
        assert_eq!(id.serial, n);
        ids.push(id);
    }
    for id in ids.iter().take(4) {
        assert_eq!(m.handshake_succeeded(*id, URL_A, 8), WorkerStep::Stop);
        assert_eq!(current(&m), None);
    }
    assert_eq!(m.handshake_succeeded(ids[4], URL_A, 9), WorkerStep::Continue);
    assert_eq!(current(&m), Some(ids[4]));
    for id in ids.iter().take(4) {
        assert_eq!(m.before_read(*id, URL_A), WorkerStep::Stop);
        assert_eq!(current(&m), Some(ids[4]));
    }
    assert_eq!(m.minted(), 5);
}

#[test]
fn disconnect_without_session_is_a_no_op() {
    let mut m = Manager::new();
    assert_eq!(m.disconnect(), None);
    assert_eq!(*m.slot(), Slot::Idle);
    assert!(m.log().is_empty());
    assert_eq!(m.minted(), 0);
    assert_eq!(m.disconnect(), None);
    assert!(m.log().is_empty());
}

#[test]
fn disconnect_retires_the_installed_session() {
    let mut m = Manager::new();
    let (a, _) = started(m.connect_with(URL_A, 5));
    m.handshake_succeeded(a, URL_A, 1);
    assert_eq!(m.disconnect(), Some(handle(a, 1)));
    assert_eq!(*m.slot(), Slot::Idle);
    assert_eq!(m.log().len(), 1);
    assert_eq!(m.disconnect(), None);
    assert_eq!(m.log().len(), 1);
}

#[test]
fn before_read_lets_the_current_worker_go_on() {
    let mut m = Manager::new();
    let (a, _) = started(m.connect_with(URL_A, 5));
    m.handshake_succeeded(a, URL_A, 1);
    assert_eq!(m.before_read(a, URL_A), WorkerStep::Continue);
    assert_eq!(m.before_read(a, URL_A), WorkerStep::Continue);
    assert_eq!(m.log().len(), 1);
}

#[test]
fn peer_close_frees_the_slot_with_a_warning() {
    let mut m = Manager::new();
    let (a, _) = started(m.connect_with(URL_A, 5));
    m.handshake_succeeded(a, URL_A, 1);
    m.session_ended(a, URL_A, EndCause::PeerClosed);
    assert_eq!(*m.slot(), Slot::Idle);
    let all = lines(&m);
    assert_eq!(all.len(), 2);
    assert_eq!(
        all[1],
        (format!("{} connection closed by {}", label(a), URL_A), LogKind::Warning)
    );
}

#[test]
fn read_error_frees_the_slot_with_an_error() {
    let mut m = Manager::new();
    let (a, _) = started(m.connect_with(URL_A, 5));
    m.handshake_succeeded(a, URL_A, 1);
    m.session_ended(a, URL_A, EndCause::ReadError);
    assert_eq!(*m.slot(), Slot::Idle);
    let all = lines(&m);
    assert_eq!(all[1], (format!("{} read failed on {}", label(a), URL_A), LogKind::Error));
}

#[test]
fn end_of_a_superseded_session_is_a_disconnection() {
    let mut m = Manager::new();
    let (a, _) = started(m.connect_with(URL_A, 5));
    m.handshake_succeeded(a, URL_A, 1);
    let (b, _) = started(m.connect_with(URL_B, 6));
    m.session_ended(a, URL_A, EndCause::ReadError);
    assert_eq!(*m.slot(), Slot::Connecting(b));
    let all = lines(&m);
    assert_eq!(all[1], (format!("{} disconnected from {}", label(a), URL_A), LogKind::Warning));
    assert_eq!(m.log().count(LogKind::Error), 0);
}

#[test]
fn clear_log_keeps_the_session() {
    let mut m = Manager::new();
    let (a, _) = started(m.connect_with(URL_A, 5));
    m.handshake_succeeded(a, URL_A, 1);
    m.frame_received(a, URL_A, "x");
    m.clear_log();
    assert!(m.log().is_empty());
    assert_eq!(current(&m), Some(a));
    assert_eq!(m.frame_received(a, URL_A, "y"), WorkerStep::Continue);
    assert_eq!(lines(&m), vec![(format!("{} received message: y", label(a)), LogKind::Info)]);
}

#[test]
fn session_from_connect_to_disconnect() {
    let url = "ws://127.0.0.1:3456";
    let mut m = Manager::new();
    let (id, retired) = started(m.connect(url));
    assert_eq!(retired, None);
    assert_eq!(m.handshake_succeeded(id, url, 7), WorkerStep::Continue);
    assert_eq!(m.before_read(id, url), WorkerStep::Continue);
    assert_eq!(m.frame_received(id, url, "连接时间：10"), WorkerStep::Continue);
    assert_eq!(m.before_read(id, url), WorkerStep::Continue);
    assert_eq!(m.frame_received(id, url, "连接时间：20"), WorkerStep::Continue);

    let before = lines(&m);
    assert_eq!(before[0], (format!("{} connected to {}", label(id), url), LogKind::Success));
    assert_eq!(before[1], (format!("{} received message: 连接时间：10", label(id)), LogKind::Info));
    assert_eq!(m.log().count(LogKind::Success), 1);
    assert_eq!(m.log().count(LogKind::Info), 2);
    assert_eq!(m.log().count(LogKind::Warning), 0);

    assert_eq!(m.disconnect(), Some(handle(id, 7)));
    assert_eq!(m.log().len(), 3);
    assert_eq!(m.frame_received(id, url, "连接时间：30"), WorkerStep::Stop);

    let after = lines(&m);
    assert_eq!(after.len(), 4);
    assert_eq!(after[3], (format!("{} disconnected from {}", label(id), url), LogKind::Warning));
    assert_eq!(m.log().count(LogKind::Warning), 1);
    assert_eq!(m.log().count(LogKind::Info), 2);
    assert_eq!(*m.slot(), Slot::Idle);
}

#[test]
fn handle_clone_names_the_same_session() {
    let h = handle(SessionIdentity { serial: 2, token: 40 }, 17);
    let copy = h.clone();
    assert_eq!(copy, h);
    assert_eq!(copy.identity, SessionIdentity { serial: 2, token: 40 });
    assert_eq!(copy.closer, 17);
}

#[test]
fn log_only_grows_between_clears() {
    let mut m = Manager::new();
    m.connect_with("", 1);
    let (a, _) = started(m.connect_with(URL_A, 2));
    m.handshake_succeeded(a, URL_A, 1);
    let before = lines(&m);
    m.frame_received(a, URL_A, "x");
    m.disconnect();
    m.before_read(a, URL_A);
    m.connect_with("nope", 3);
    let after = lines(&m);
    assert_eq!(after.len(), before.len() + 3);
    assert_eq!(&after[..before.len()], &before[..]);
}
