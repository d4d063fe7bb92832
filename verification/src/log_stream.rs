//! The thread that follows the device's log: what it does next.
//!
//! The thread performs an action, hands its outcome to `log_step` as an event,
//! and gets the next action.

use vstd::prelude::*;
use vstd::string::*;
use vstd::utf8::*;

use crate::config;
use crate::config::Config;
use crate::log_line;
use crate::state::{AppModel, PollMessage};
use crate::text;
use crate::text::trim;

verus! {

/// How many seconds pass before the log stream is opened again.
pub const RECONNECT_SECS: u64 = 2;

/// A message of the log stream.
#[derive(Debug)]
pub enum Frame {
    /// Text.
    Text(String),
    /// Bytes.
    Binary(Vec<u8>),
    /// The device closes the stream.
    Close,
    /// Something of the protocol itself.
    Other,
}

/// What the thread does once it has tried to send something.
#[derive(Clone, Copy, Debug, PartialEq, Eq, Structural)]
pub enum AfterSend {
    /// It reads on, or ends if the dashboard is gone.
    Read,
    /// It waits, or ends if the dashboard is gone.
    Wait,
    /// It waits in any case.
    WaitAnyway,
}

/// What the thread is to do.
#[derive(Debug)]
pub enum LogAction {
    /// Open the stream.
    Connect(String),
    /// Read a message of the stream.
    Read,
    /// Send something to the dashboard.
    Send(PollMessage, AfterSend),
    /// Wait.
    Sleep { secs: u64 },
    /// End.
    Stop,
}

/// What happened to the thread.
#[derive(Debug)]
pub enum LogEvent {
    /// It was started, or a wait ended.
    Woke,
    /// The stream was opened.
    Connected,
    /// The stream could not be opened.
    ConnectFailed(String),
    /// A message came.
    Received(Frame),
    /// The stream broke.
    ReadFailed(String),
    /// Something was sent, or could not be.
    Sent(AfterSend, bool),
}

/// What is read of bytes that may not be UTF-8.
pub uninterp spec fn lossy_text(bytes: Seq<u8>) -> Seq<char>;

/// `String::from_utf8_lossy` decodes bytes as UTF-8 and puts a replacement
/// character where they are not. The contract claims that the text depends on
/// the bytes alone, and that valid UTF-8 is decoded as it stands.
#[verifier::external_body]
fn decode_lossily(bytes: &Vec<u8>) -> (r: String)
    ensures
        r@ == lossy_text(bytes@),
        valid_utf8(bytes@) ==> r@ == decode_utf8(bytes@),
{
    String::from_utf8_lossy(bytes).into_owned()
}

/// `action` is to send `line` to the dashboard, and to read on.
pub open spec fn forwards(action: LogAction, line: Seq<char>) -> bool {
    action matches LogAction::Send(PollMessage::LogLine(text), then) && text@ == line && then
        == AfterSend::Read
}

/// `action` is to send the news `status` to the dashboard.
pub open spec fn announces(action: LogAction, status: Seq<char>, after: AfterSend) -> bool {
    action matches LogAction::Send(PollMessage::LogStatus(text), then) && text@ == status && then
        == after
}

/// `action` is what follows the bytes that read `line`: they are forwarded,
/// unless nothing is left of them.
pub open spec fn forwards_trimmed(action: LogAction, line: Seq<char>) -> bool {
    if text::trimmed(line).len() == 0 {
        action is Read
    } else {
        forwards(action, text::trimmed(line))
    }
}

/// `action` is what follows `event`, for a device at `base_url`.
pub open spec fn log_follows(base_url: Seq<char>, event: LogEvent, action: LogAction) -> bool {
    match event {
        LogEvent::Woke => action matches LogAction::Connect(url) && url@ == config::log_url(
            base_url,
        ),
        LogEvent::Connected => announces(
            action,
            "ws connected to "@ + config::log_url(base_url),
            AfterSend::Read,
        ),
        LogEvent::ConnectFailed(error) => announces(
            action,
            "ws connect failed: "@ + error@ + "; retrying"@,
            AfterSend::Wait,
        ),
        LogEvent::Received(Frame::Text(line)) => forwards(action, line@),
        LogEvent::Received(Frame::Binary(bytes)) => forwards_trimmed(action, lossy_text(bytes@)),
        LogEvent::Received(Frame::Close) => announces(
            action,
            "ws closed by Bitaxe, retrying"@,
            AfterSend::WaitAnyway,
        ),
        LogEvent::Received(Frame::Other) => action is Read,
        LogEvent::ReadFailed(error) => announces(
            action,
            "ws error: "@ + error@ + "; reconnecting"@,
            AfterSend::WaitAnyway,
        ),
        LogEvent::Sent(AfterSend::Read, true) => action is Read,
        LogEvent::Sent(AfterSend::Wait, true) | LogEvent::Sent(AfterSend::WaitAnyway, _) => action
            matches LogAction::Sleep { secs } && secs == RECONNECT_SECS,
        LogEvent::Sent(AfterSend::Read, false) | LogEvent::Sent(AfterSend::Wait, false) => action
            is Stop,
    }
}

/// What follows bytes that read `line`.
pub fn forward_bytes_as(line: &str) -> (action: LogAction)
    ensures
        forwards_trimmed(action, line@),
{
    let line = trim(line);
    if line.as_str().is_empty() {
        LogAction::Read
    } else {
        LogAction::Send(PollMessage::LogLine(line), AfterSend::Read)
    }
}

/// What the thread is to do after `event`.
pub fn log_step(config: &Config, event: LogEvent) -> (action: LogAction)
    ensures
        log_follows(config.base_url@, event, action),
        event matches LogEvent::Received(Frame::Binary(bytes)) ==> (valid_utf8(bytes@)
            ==> forwards_trimmed(action, decode_utf8(bytes@))),
{
    match event {
        LogEvent::Woke => LogAction::Connect(config.websocket_url()),
        LogEvent::Connected => {
            let mut status = "ws connected to ".to_owned();
            status.append(config.websocket_url().as_str());
            LogAction::Send(PollMessage::LogStatus(status), AfterSend::Read)
        },
        LogEvent::ConnectFailed(error) => {
            let mut status = "ws connect failed: ".to_owned();
            status.append(error.as_str());
            status.append("; retrying");
            LogAction::Send(PollMessage::LogStatus(status), AfterSend::Wait)
        },
        LogEvent::Received(frame) => match frame {
            Frame::Text(line) => LogAction::Send(PollMessage::LogLine(line), AfterSend::Read),
            Frame::Binary(bytes) => forward_bytes_as(decode_lossily(&bytes).as_str()),
            Frame::Close => LogAction::Send(
                PollMessage::LogStatus("ws closed by Bitaxe, retrying".to_owned()),
                AfterSend::WaitAnyway,
            ),
            Frame::Other => LogAction::Read,
        },
        LogEvent::ReadFailed(error) => {
            let mut status = "ws error: ".to_owned();
            status.append(error.as_str());
            status.append("; reconnecting");
            LogAction::Send(PollMessage::LogStatus(status), AfterSend::WaitAnyway)
        },
        LogEvent::Sent(then, sent) => match then {
            AfterSend::Read => if sent {
                LogAction::Read
            } else {
                LogAction::Stop
            },
            AfterSend::Wait => if sent {
                LogAction::Sleep { secs: RECONNECT_SECS }
            } else {
                LogAction::Stop
            },
            AfterSend::WaitAnyway => LogAction::Sleep { secs: RECONNECT_SECS },
        },
    }
}

// ---------------------------------------------------------------------------
// Laws
// ---------------------------------------------------------------------------

/// A stream that could not be opened, was closed or broke is told to the
/// dashboard, and opened again after a pause, as long as the dashboard is there.
pub proof fn lost_stream_is_opened_again(
    base_url: Seq<char>,
    event: LogEvent,
    told: LogAction,
    paused: LogAction,
    resumed: LogAction,
)
    requires
        event is ConnectFailed || event is ReadFailed || event == LogEvent::Received(Frame::Close),
        log_follows(base_url, event, told),
        told matches LogAction::Send(_, then) && log_follows(
            base_url,
            LogEvent::Sent(then, true),
            paused,
        ),
        log_follows(base_url, LogEvent::Woke, resumed),
    ensures
        told matches LogAction::Send(message, _) && message is LogStatus,
        paused == (LogAction::Sleep { secs: RECONNECT_SECS }),
        resumed matches LogAction::Connect(url) && url@ == config::log_url(base_url),
{
}

/// `action` sends a message that adds `line`, made printable, to the log of `m`.
pub open spec fn adds_to_log(action: LogAction, line: Seq<char>, m: AppModel, now: u64) -> bool {
    action matches LogAction::Send(message, _) && m.told(message, now) == m.logged(
        log_line::sanitized(line),
    )
}

/// A line that the device sends as text stands in the dashboard's log, made
/// printable; and so does one that it sends as bytes of UTF-8, unless it is
/// blank.
pub proof fn lines_reach_the_log(
    base_url: Seq<char>,
    frame: Frame,
    action: LogAction,
    m: AppModel,
    now: u64,
)
    requires
        log_follows(base_url, LogEvent::Received(frame), action),
        frame matches Frame::Binary(bytes) ==> (valid_utf8(bytes@) ==> forwards_trimmed(
            action,
            decode_utf8(bytes@),
        )),
    ensures
        frame matches Frame::Text(line) ==> adds_to_log(action, line@, m, now),
        frame matches Frame::Binary(bytes) ==> (valid_utf8(bytes@) && text::trimmed(
            decode_utf8(bytes@),
        ).len() > 0 ==> adds_to_log(action, text::trimmed(decode_utf8(bytes@)), m, now)),
{
}

/// The thread ends only when the dashboard no longer takes what is sent.
pub proof fn following_ends_with_the_dashboard(
    base_url: Seq<char>,
    event: LogEvent,
    action: LogAction,
)
    requires
        log_follows(base_url, event, action),
        action is Stop,
    ensures
        event matches LogEvent::Sent(_, sent) && !sent,
{
}

/// `action` sends `status` to the dashboard as news of the stream.
pub open spec fn tells_of_the_stream(action: LogAction, status: Seq<char>) -> bool {
    action matches LogAction::Send(PollMessage::LogStatus(text), _) && text@ == status
}

/// The stream is opened at the address of the device, with only the scheme
/// replaced, and announced under the very URL.
pub proof fn stream_belongs_to_the_address(
    host: Seq<char>,
    woken: LogAction,
    connected: LogAction,
    secure: LogAction,
)
    requires
        log_follows("http://"@ + host, LogEvent::Woke, woken),
        log_follows("http://"@ + host, LogEvent::Connected, connected),
        log_follows("https://"@ + host, LogEvent::Woke, secure),
    ensures
        woken matches LogAction::Connect(url) && url@ == "ws://"@ + host + "/api/ws"@,
        secure matches LogAction::Connect(url) && url@ == "wss://"@ + host + "/api/ws"@,
        tells_of_the_stream(connected, "ws connected to "@ + ("ws://"@ + host + "/api/ws"@)),
{
    config::log_url_keeps_the_address(host);
}

/// What went wrong with the stream is told, every character of it, and what will
/// be done about it.
pub proof fn lost_stream_is_told(
    base_url: Seq<char>,
    error: String,
    unopened: LogAction,
    broken: LogAction,
    closed: LogAction,
)
    requires
        log_follows(base_url, LogEvent::ConnectFailed(error), unopened),
        log_follows(base_url, LogEvent::ReadFailed(error), broken),
        log_follows(base_url, LogEvent::Received(Frame::Close), closed),
    ensures
        tells_of_the_stream(unopened, "ws connect failed: "@ + error@ + "; retrying"@),
        tells_of_the_stream(broken, "ws error: "@ + error@ + "; reconnecting"@),
        tells_of_the_stream(closed, "ws closed by Bitaxe, retrying"@),
{
}

/// A line that came as text is handed on as it came, every character of it; one
/// that came as bytes without the blanks around it, and not at all where nothing
/// else is left; and the protocol's own messages are passed over.
pub proof fn lines_are_handed_on(
    base_url: Seq<char>,
    text: String,
    handed: LogAction,
    before: Seq<char>,
    line: Seq<char>,
    behind: Seq<char>,
    trimmed: LogAction,
    other: LogAction,
)
    requires
        log_follows(base_url, LogEvent::Received(Frame::Text(text)), handed),
        text::blank(before),
        text::blank(behind),
        text::no_white_ends(line),
        forwards_trimmed(trimmed, before + line + behind),
        log_follows(base_url, LogEvent::Received(Frame::Other), other),
    ensures
        handed matches LogAction::Send(PollMessage::LogLine(sent), then) && sent@ == text@ && then
            == AfterSend::Read,
        line.len() > 0 ==> (trimmed matches LogAction::Send(PollMessage::LogLine(sent), then)
            && sent@ == line && then == AfterSend::Read),
        line.len() == 0 ==> trimmed is Read,
        other is Read,
{
    text::trimming_removes_the_blanks_around(before, line, behind);
}

/// Bytes are handed on as the text that they are read as.
pub proof fn bytes_are_handed_on_as_they_read(
    base_url: Seq<char>,
    bytes: Vec<u8>,
    action: LogAction,
    before: Seq<char>,
    line: Seq<char>,
    behind: Seq<char>,
)
    requires
        log_follows(base_url, LogEvent::Received(Frame::Binary(bytes)), action),
        lossy_text(bytes@) == before + line + behind,
        text::blank(before),
        text::blank(behind),
        text::no_white_ends(line),
    ensures
        line.len() > 0 ==> (action matches LogAction::Send(PollMessage::LogLine(sent), then)
            && sent@ == line && then == AfterSend::Read),
        line.len() == 0 ==> action is Read,
{
    text::trimming_removes_the_blanks_around(before, line, behind);
}

/// The event brings a line of the device's log.
pub open spec fn brings_a_line(event: LogEvent) -> bool {
    match event {
        LogEvent::Received(Frame::Text(_)) | LogEvent::Received(Frame::Binary(_)) => true,
        _ => false,
    }
}

/// Once something was sent the thread reads on while the stream is open; once the
/// stream is lost it pauses for two seconds. Where the dashboard is gone it ends,
/// but for the news that an open stream was lost, after which it pauses all the
/// same.
pub proof fn sending_is_followed_by_reading_or_a_pause(
    base_url: Seq<char>,
    event: LogEvent,
    action: LogAction,
    then: AfterSend,
    sent: bool,
    next: LogAction,
)
    requires
        log_follows(base_url, event, action),
        action matches LogAction::Send(_, after) && after == then,
        log_follows(base_url, LogEvent::Sent(then, sent), next),
    ensures
        event is Connected || brings_a_line(event) ==> (if sent {
            next is Read
        } else {
            next is Stop
        }),
        event is ConnectFailed ==> (if sent {
            next == (LogAction::Sleep { secs: 2 })
        } else {
            next is Stop
        }),
        event is ReadFailed || event == LogEvent::Received(Frame::Close) ==> next == (
        LogAction::Sleep { secs: 2 }),
{
}

} // verus!
