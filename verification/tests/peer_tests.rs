use ws_session::peer::{after_send, heartbeat, to_decimal, PeerAction};

#[test]
fn decimal_numerals() {
    assert_eq!(to_decimal(0), "0");
    assert_eq!(to_decimal(7), "7");
    assert_eq!(to_decimal(9), "9");
    assert_eq!(to_decimal(10), "10");
    assert_eq!(to_decimal(25), "25");
    assert_eq!(to_decimal(1090), "1090");
    assert_eq!(to_decimal(1234567890), "1234567890");
    assert_eq!(to_decimal(u64::MAX as u128), "18446744073709551615");
    assert_eq!(to_decimal(u128::MAX), "340282366920938463463374607431768211455");
}

#[test]
fn decimal_agrees_with_std() {
    let mut n: u128 = 1;
    while n < u128::MAX / 7 {
        assert_eq!(to_decimal(n), n.to_string());
        assert_eq!(to_decimal(n - 1), (n - 1).to_string());
        n *= 7;
    }
}

#[test]
fn heartbeat_line() {
    assert_eq!(heartbeat(0), "连接时长：0 ms");
    assert_eq!(heartbeat(25), "连接时长：25 ms");
    assert_eq!(heartbeat(120034), "连接时长：120034 ms");
    assert_eq!(heartbeat(u128::MAX), "连接时长：340282366920938463463374607431768211455 ms");
}

#[test]
fn peer_stops_when_a_send_fails() {
    assert_eq!(after_send(true), PeerAction::Wait);
    assert_eq!(after_send(false), PeerAction::CloseAndStop);
}

#[test]
fn heartbeats_follow_the_clock() {
    let readings: [u128; 5] = [0, 10, 10, 21, 1000];
    let frames: Vec<String> = readings.iter().map(|ms| heartbeat(*ms)).collect();
    assert_eq!(
        frames,
        vec!["连接时长：0 ms", "连接时长：10 ms", "连接时长：10 ms", "连接时长：21 ms", "连接时长：1000 ms"]
    );
}
