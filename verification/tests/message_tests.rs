use ws_session::identity::SessionIdentity;
use ws_session::log::LogKind;
use ws_session::message::{
    connect_failed_entry, connected_entry, disconnected_entry, ended_entry, received_entry,
    refused_entry, superseded_entry, EndCause,
};
use ws_session::url::ValidationError;

const TOKEN: u128 = 0xa1a2a3a4b1b2c1c2d1d2d3d4d5d6d7d8;
const LABEL: &str = "a1a2a3a4-b1b2-c1c2-d1d2-d3d4d5d6d7d8";

fn id() -> SessionIdentity {
    SessionIdentity { serial: 3, token: TOKEN }
}

#[test]
fn identity_text_is_the_hyphenated_identifier() {
    assert_eq!(id().to_text(), LABEL);
    assert_eq!(
        SessionIdentity { serial: 0, token: 0 }.to_text(),
        "00000000-0000-0000-0000-000000000000"
    );
    assert_eq!(
        SessionIdentity { serial: 9, token: u128::MAX }.to_text(),
        "ffffffff-ffff-ffff-ffff-ffffffffffff"
    );
}

#[test]
fn identity_text_agrees_with_uuid() {
    let token: u128 = 0x0123456789abcdef0123456789abcdef;
    let expected = uuid::Uuid::from_u128(token).to_string();
    assert_eq!(SessionIdentity { serial: 1, token }.to_text(), expected);
}

#[test]
fn identity_text_ignores_the_serial() {
    let a = SessionIdentity { serial: 1, token: TOKEN };
    let b = SessionIdentity { serial: 2, token: TOKEN };
    assert_eq!(a.to_text(), b.to_text());
    assert_ne!(a, b);
}

#[test]
fn connected_line() {
    let e = connected_entry(id(), "ws://127.0.0.1:3456");
    assert_eq!(e.text(), format!("{} connected to ws://127.0.0.1:3456", LABEL));
    assert_eq!(e.kind(), LogKind::Success);
}

#[test]
fn connect_failed_line() {
    let e = connect_failed_entry(id(), "ws://nowhere");
    assert_eq!(e.text(), format!("{} could not connect to ws://nowhere", LABEL));
    assert_eq!(e.kind(), LogKind::Error);
}

#[test]
fn superseded_line() {
    let e = superseded_entry(id());
    assert_eq!(e.text(), format!("{} superseded before handshake completed", LABEL));
    assert_eq!(e.kind(), LogKind::Warning);
}

#[test]
fn disconnected_line() {
    let e = disconnected_entry(id(), "wss://h/p");
    assert_eq!(e.text(), format!("{} disconnected from wss://h/p", LABEL));
    assert_eq!(e.kind(), LogKind::Warning);
}

#[test]
fn received_line() {
    let e = received_entry(id(), "连接时间：120");
    assert_eq!(e.text(), format!("{} received message: 连接时间：120", LABEL));
    assert_eq!(e.kind(), LogKind::Info);
    let empty = received_entry(id(), "");
    assert_eq!(empty.text(), format!("{} received message: ", LABEL));
}

#[test]
fn ended_lines() {
    let closed = ended_entry(id(), "ws://h", EndCause::PeerClosed);
    assert_eq!(closed.text(), format!("{} connection closed by ws://h", LABEL));
    assert_eq!(closed.kind(), LogKind::Warning);
    let failed = ended_entry(id(), "ws://h", EndCause::ReadError);
    assert_eq!(failed.text(), format!("{} read failed on ws://h", LABEL));
    assert_eq!(failed.kind(), LogKind::Error);
}

#[test]
fn refused_lines() {
    let empty = refused_entry(ValidationError::EmptyUrl);
    assert_eq!(empty.text(), "请输入连接地址！");
    assert_eq!(empty.kind(), LogKind::Error);
    let scheme = refused_entry(ValidationError::MissingScheme);
    assert_eq!(scheme.text(), "the protocol must be explicit: ws:// or wss://");
    assert_eq!(scheme.kind(), LogKind::Error);
}
