//! Log streaming: what the web socket echoes, the server-sent events of a load
//! test's log, and the lines of the test stream.
use vstd::prelude::*;
use vstd::string::*;

use crate::text::{decimal_text, decimal_u64};

verus! {

/// A message that arrived on the log web socket.
#[derive(Debug, Clone)]
pub enum WsMessage {
    Text(String),
    Binary(Vec<u8>),
    Ping(Vec<u8>),
    /// Any other frame (pong, close, continuation).
    Other,
}

/// What the log web socket sends back.
#[derive(Debug, Clone)]
pub enum WsReply {
    Text(String),
    Binary(Vec<u8>),
    Pong(Vec<u8>),
    Nothing,
}

/// The web socket echoes text and binary messages, answers a ping with a pong
/// of the same payload, and ignores everything else.
pub fn echo_reply(msg: WsMessage) -> (res: WsReply)
    ensures
        msg matches WsMessage::Text(t) ==> res == WsReply::Text(t),
        msg matches WsMessage::Binary(b) ==> res == WsReply::Binary(b),
        msg matches WsMessage::Ping(p) ==> res == WsReply::Pong(p),
        msg is Other ==> res is Nothing,
{
    match msg {
        WsMessage::Text(t) => WsReply::Text(t),
        WsMessage::Binary(b) => WsReply::Binary(b),
        WsMessage::Ping(p) => WsReply::Pong(p),
        WsMessage::Other => WsReply::Nothing,
    }
}

/// The first event of a log stream.
pub fn initial_log_event() -> (res: String)
    ensures
        res@ == "data: <pre><code>Initializing log...</code></pre>\n\n"@,
{
    String::from_str("data: <pre><code>Initializing log...</code></pre>\n\n")
}

/// The event sent for one item of a load test's log channel: the line itself,
/// or an error event when the channel lost messages (`None`).
pub fn log_event(line: Option<String>) -> (res: String)
    ensures
        line matches Some(l) ==> res == l,
        line is None ==> res@ == "data: <pre><code>Unknown error</code></pre>\n\n"@,
{
    match line {
        Some(l) => l,
        None => String::from_str("data: <pre><code>Unknown error</code></pre>\n\n"),
    }
}

/// The message sent first to a load test's log socket.
pub fn initial_socket_message() -> (res: String)
    ensures
        res@ == "<div id='logs'><pre><code>Initializing logs...</code></pre></div>"@,
{
    String::from_str("<div id='logs'><pre><code>Initializing logs...</code></pre></div>")
}

/// The number of lines that the test stream sends.
pub open spec fn test_line_count() -> int {
    1_000_000_000
}

/// The line number `count` of the test stream.
pub open spec fn test_line(count: int) -> Seq<char> {
    "<div id='logs' hx-swap-oob='beforeend'><pre><code>\u{1F525} Server Log "@ + decimal_text(count)
        + ": Update every 1 nano seconds!</code></pre></div>"@
}

/// One step of the test stream after `count` lines were sent: the number of the
/// next line, its text, and whether it is the last.
pub fn test_log_step(count: u64) -> (res: (u64, String, bool))
    requires
        count < test_line_count(),
    ensures
        res.0 == count + 1,
        res.1@ == test_line(res.0 as int),
        res.2 == (res.0 >= test_line_count()),
{
    let next = count + 1;
    let n = decimal_u64(next);
    let mut line = String::from_str(
        "<div id='logs' hx-swap-oob='beforeend'><pre><code>\u{1F525} Server Log ",
    );
    line.append(n.as_str());
    line.append(": Update every 1 nano seconds!</code></pre></div>");
    (next, line, next >= 1_000_000_000)
}

} // verus!
