//! The heartbeat peer: the counterpart that a session talks to.
//!
//! For each connection the peer sends, at a fixed interval, a text frame
//! that tells how long the connection has lasted, and stops when a send
//! fails. What it sends and when it stops is decided here.

use vstd::prelude::*;
use vstd::string::StringExecFns;

verus! {

/// The character of one decimal digit.
pub open spec fn digit_char(d: nat) -> char {
    if d == 0 {
        '0'
    } else if d == 1 {
        '1'
    } else if d == 2 {
        '2'
    } else if d == 3 {
        '3'
    } else if d == 4 {
        '4'
    } else if d == 5 {
        '5'
    } else if d == 6 {
        '6'
    } else if d == 7 {
        '7'
    } else if d == 8 {
        '8'
    } else {
        '9'
    }
}

/// The decimal numeral of `n`: no sign, no leading zero, `0` for zero.
pub open spec fn decimal(n: nat) -> Seq<char>
    decreases n,
{
    if n < 10 {
        seq![digit_char(n)]
    } else {
        decimal(n / 10).push(digit_char(n % 10))
    }
}

/// The text of a heartbeat sent `elapsed_ms` milliseconds into a connection:
/// `连接时长：<n> ms`.
pub open spec fn heartbeat_text(elapsed_ms: nat) -> Seq<char> {
    "连接时长："@ + decimal(elapsed_ms) + " ms"@
}

fn digit_str(d: u8) -> (text: &'static str)
    requires
        d < 10,
    ensures
        text@ == seq![digit_char(d as nat)],
{
    proof {
        reveal_strlit("0");
        reveal_strlit("1");
        reveal_strlit("2");
        reveal_strlit("3");
        reveal_strlit("4");
        reveal_strlit("5");
        reveal_strlit("6");
        reveal_strlit("7");
        reveal_strlit("8");
        reveal_strlit("9");
    }
    let text = if d == 0 {
        "0"
    } else if d == 1 {
        "1"
    } else if d == 2 {
        "2"
    } else if d == 3 {
        "3"
    } else if d == 4 {
        "4"
    } else if d == 5 {
        "5"
    } else if d == 6 {
        "6"
    } else if d == 7 {
        "7"
    } else if d == 8 {
        "8"
    } else {
        "9"
    };
    assert(text@ =~= seq![digit_char(d as nat)]);
    text
}

/// Writes `n` as a decimal numeral.
pub fn to_decimal(n: u128) -> (text: String)
    ensures
        text@ == decimal(n as nat),
    decreases n,
{
    if n < 10 {
        String::from_str(digit_str(n as u8))
    } else {
        let mut text = to_decimal(n / 10);
        text.append(digit_str((n % 10) as u8));
        assert(text@ =~= decimal(n as nat));
        text
    }
}

/// The heartbeat to send `elapsed_ms` milliseconds into a connection.
pub fn heartbeat(elapsed_ms: u128) -> (text: String)
    ensures
        text@ == heartbeat_text(elapsed_ms as nat),
{
    let mut text = String::from_str("连接时长：");
    let number = to_decimal(elapsed_ms);
    text.append(number.as_str());
    text.append(" ms");
    text
}

/// What the peer does after a heartbeat.
#[derive(Clone, Copy, Debug, PartialEq, Eq, Structural)]
pub enum PeerAction {
    /// Wait one interval and send the next heartbeat.
    Wait,
    /// The client is gone: close the connection and stop sending.
    CloseAndStop,
}

/// The peer goes on exactly while its heartbeats can be sent.
pub fn after_send(sent: bool) -> (action: PeerAction)
    ensures
        action == if sent {
            PeerAction::Wait
        } else {
            PeerAction::CloseAndStop
        },
{
    if sent {
        PeerAction::Wait
    } else {
        PeerAction::CloseAndStop
    }
}

} // verus!
