//! The state of the dashboard, and what each message does to it.
//!
//! Times are counted in nanoseconds from a fixed moment, which the caller
//! chooses.

use std::collections::VecDeque;
use vstd::prelude::*;
use vstd::string::*;

use crate::config::Config;
use crate::log_line;
use crate::log_line::sanitize_log_line;
use crate::reading;
use crate::snapshot::{BitaxeSnapshot, Rendered};
use crate::text;
use crate::text::decimal_text;

verus! {

/// How many hashrates the history holds.
pub const HISTORY_CAP: usize = 120;

/// How many lines the log holds.
pub const LOG_CAP: usize = 14;

/// The nanoseconds in a second.
pub const SECOND: u64 = 1_000_000_000;

/// For how long the first answer may keep the user waiting without a word.
pub const PATIENCE: u64 = 5_000_000_000;

/// The highest hashrate of the history is drawn at ten parts of this many.
pub const HEADROOM_TENTHS: u16 = 18;

/// What the threads that talk to the device tell the dashboard.
#[derive(Debug)]
pub enum PollMessage {
    /// A poll succeeded.
    Snapshot(BitaxeSnapshot, Rendered),
    /// A poll failed.
    Error(String),
    /// The device wrote a line to its log.
    LogLine(String),
    /// The log stream was opened, closed or lost.
    LogStatus(String),
}

/// What the dashboard tells the thread that polls the device.
#[derive(Clone, Copy, Debug, PartialEq, Eq, Structural)]
pub enum ControlMessage {
    /// To poll at once.
    Refresh,
}

/// The last `cap` elements of `s`, or all of them.
pub open spec fn last_of<T>(s: Seq<T>, cap: nat) -> Seq<T> {
    if s.len() <= cap {
        s
    } else {
        s.skip(s.len() - cap)
    }
}

/// The history `s` with one more hashrate, and without its oldest where that
/// would make it longer than its cap.
pub open spec fn recorded(s: Seq<u64>, hashrate: u64) -> Seq<u64> {
    if s.len() >= HISTORY_CAP {
        s.push(hashrate).skip(1)
    } else {
        s.push(hashrate)
    }
}

/// The highest of the hashrates `s`, or one where there are none.
pub open spec fn peak_of(s: Seq<u64>) -> u64
    decreases s.len(),
{
    if s.len() == 0 {
        1
    } else if s.len() == 1 || peak_of(s.drop_last()) < s.last() {
        s.last()
    } else {
        peak_of(s.drop_last())
    }
}

/// The top of the hashrate chart, for the highest hashrate with room above it:
/// never zero.
pub open spec fn chart_top(padded_peak: u64) -> u64 {
    if padded_peak == 0 {
        1
    } else {
        padded_peak
    }
}

/// The whole seconds from `then` to `now`; none where the clock stands before.
pub open spec fn seconds_since(then: u64, now: u64) -> nat {
    if now < then {
        0
    } else {
        ((now - then) / SECOND as int) as nat
    }
}

/// The model of the dashboard's state.
pub struct AppModel {
    /// The address of the device.
    pub base_url: Seq<char>,
    /// When the dashboard was started.
    pub started_at: u64,
    /// When a poll last succeeded.
    pub last_success: Option<u64>,
    /// The error of the last poll, if it failed.
    pub last_error: Option<Seq<char>>,
    /// The hashrates of the last polls, the newest at the end.
    pub hashrate_spark: Seq<u64>,
    /// The last lines of the log, the newest at the end.
    pub logs: Seq<Seq<char>>,
    /// The device at the last successful poll.
    pub snapshot: BitaxeSnapshot,
    /// What was computed of that snapshot.
    pub rendered: Rendered,
    /// The message to the user.
    pub message: Seq<char>,
}

impl AppModel {
    /// The history and the log are never empty, and never longer than their
    /// caps.
    pub open spec fn wf(self) -> bool {
        &&& 1 <= self.hashrate_spark.len() <= HISTORY_CAP
        &&& 1 <= self.logs.len() <= LOG_CAP
    }

    /// The state at the start, at `now`.
    pub open spec fn fresh(
        base_url: Seq<char>,
        now: u64,
        snapshot: BitaxeSnapshot,
        rendered: Rendered,
    ) -> Self {
        AppModel {
            base_url,
            started_at: now,
            last_success: None,
            last_error: None,
            hashrate_spark: seq![0u64],
            logs: seq!["waiting for Bitaxe websocket log stream..."@],
            snapshot,
            rendered,
            message: "Connecting to Bitaxe API and waiting for telemetry."@,
        }
    }

    /// The state with one more line in the log.
    pub open spec fn logged(self, line: Seq<char>) -> Self {
        AppModel { logs: last_of(self.logs.push(line), LOG_CAP as nat), ..self }
    }

    /// The state after a tick of the clock at `now`.
    pub open spec fn ticked(self, now: u64) -> Self {
        if self.last_success is None && now - self.started_at > PATIENCE {
            AppModel {
                message: "Still waiting for "@ + self.base_url
                    + " to answer /api/system/info."@,
                ..self
            }
        } else {
            self
        }
    }

    /// The state after the user asked for a poll, where `sent` tells whether
    /// the polling thread could be told.
    pub open spec fn refreshed(self, sent: bool) -> Self {
        if sent {
            AppModel {
                message: "Manual refresh sent to the Bitaxe poller."@,
                ..self.logged("manual refresh requested"@)
            }
        } else {
            AppModel {
                message: "Refresh failed because the poller is no longer running."@,
                ..self.logged("warn refresh request failed; poller offline"@)
            }
        }
    }

    /// The state after `message`, which came at `now`.
    pub open spec fn told(self, message: PollMessage, now: u64) -> Self {
        match message {
            PollMessage::Snapshot(snapshot, rendered) => AppModel {
                last_success: Some(now),
                last_error: None,
                message: snapshot.summary(rendered),
                hashrate_spark: recorded(
                    self.hashrate_spark,
                    snapshot.hashrate.rounded() as u64,
                ),
                snapshot,
                rendered,
                ..self
            },
            PollMessage::Error(error) => AppModel {
                last_error: Some(error@),
                message: "API poll failed: "@ + error@,
                ..self.logged("api error: "@ + error@)
            },
            PollMessage::LogLine(line) => self.logged(log_line::sanitized(line@)),
            PollMessage::LogStatus(status) => self.logged(log_line::sanitized(status@)),
        }
    }

    /// The word for the state of the connection.
    pub open spec fn connection(self) -> Seq<char> {
        if self.last_error is Some {
            "degraded"@
        } else if self.last_success is Some {
            "connected"@
        } else {
            "connecting"@
        }
    }

    /// What there is to say of the connection at `now`.
    pub open spec fn connection_details(self, now: u64) -> Seq<char> {
        match (self.last_error, self.last_success) {
            (Some(error), _) => "last error: "@ + error,
            (None, Some(last)) => "last poll "@ + text::decimal(seconds_since(last, now))
                + "s ago"@,
            (None, None) => "waiting for first successful poll"@,
        }
    }

    /// The age of the snapshot at `now`.
    pub open spec fn last_update(self, now: u64) -> Seq<char> {
        match self.last_success {
            Some(last) => "updated "@ + text::decimal(seconds_since(last, now)) + "s ago"@,
            None => "no data yet"@,
        }
    }

    /// The word for the state of the device.
    pub open spec fn status(self) -> Seq<char> {
        if self.snapshot.hot(self.rendered.limits) {
            "Hot"@
        } else if self.snapshot.is_using_fallback_stratum {
            "Fallback Pool"@
        } else if self.last_error is Some {
            "API Error"@
        } else {
            "Mining"@
        }
    }
}

/// The state of the dashboard.
#[derive(Debug)]
pub struct App {
    base_url: String,
    started_at: u64,
    last_success: Option<u64>,
    last_error: Option<String>,
    hashrate_spark: VecDeque<u64>,
    logs: VecDeque<String>,
    snapshot: BitaxeSnapshot,
    rendered: Rendered,
    message: String,
}

impl View for App {
    type V = AppModel;

    closed spec fn view(&self) -> AppModel {
        AppModel {
            base_url: self.base_url@,
            started_at: self.started_at,
            last_success: self.last_success,
            last_error: match self.last_error {
                Some(error) => Some(error@),
                None => None,
            },
            hashrate_spark: self.hashrate_spark@,
            logs: self.logs.deep_view(),
            snapshot: self.snapshot,
            rendered: self.rendered,
            message: self.message@,
        }
    }
}

/// The whole seconds from `then` to `now`.
fn seconds_between(then: u64, now: u64) -> (r: u64)
    ensures
        r == seconds_since(then, now),
{
    if now < then {
        0
    } else {
        (now - then) / SECOND
    }
}

impl App {
    /// The state is well-formed.
    pub open spec fn wf(&self) -> bool {
        self@.wf()
    }

    /// The state at the start, at `now`, where `rendered` is what was computed
    /// of the placeholder snapshot.
    pub fn new(config: Config, now: u64, rendered: Rendered) -> (r: Self)
        ensures
            r.wf(),
            r@.base_url == config.base_url@,
            r@.started_at == now,
            r@.last_success is None,
            r@.last_error is None,
            r@.hashrate_spark == seq![0u64],
            r@.logs == seq!["waiting for Bitaxe websocket log stream..."@],
            r@.snapshot.is_placeholder(),
            r@.rendered == rendered,
            r@.message == "Connecting to Bitaxe API and waiting for telemetry."@,
            r@ == AppModel::fresh(config.base_url@, now, r@.snapshot, rendered),
    {
        let mut hashrate_spark: VecDeque<u64> = VecDeque::new();
        hashrate_spark.push_back(0);
        let mut logs: VecDeque<String> = VecDeque::new();
        logs.push_back("waiting for Bitaxe websocket log stream...".to_owned());
        let r = App {
            base_url: config.base_url,
            started_at: now,
            last_success: None,
            last_error: None,
            hashrate_spark,
            logs,
            snapshot: BitaxeSnapshot::placeholder(),
            rendered,
            message: "Connecting to Bitaxe API and waiting for telemetry.".to_owned(),
        };
        assert(r@.hashrate_spark =~= seq![0u64]);
        assert(r@.logs =~= seq!["waiting for Bitaxe websocket log stream..."@]);
        r
    }

    /// A tick of the clock, at `now`.
    pub fn on_tick(&mut self, now: u64)
        ensures
            final(self)@ == old(self)@.ticked(now),
            old(self).wf() ==> final(self).wf(),
    {
        if self.last_success.is_none() && now >= self.started_at && now - self.started_at
            > PATIENCE {
            let mut message = "Still waiting for ".to_owned();
            message.append(self.base_url.as_str());
            message.append(" to answer /api/system/info.");
            self.message = message;
        }
    }

    /// The user asked for a poll; `sent` tells whether the polling thread could
    /// be told.
    pub fn request_refresh(&mut self, sent: bool)
        ensures
            final(self)@ == old(self)@.refreshed(sent),
            old(self).wf() ==> final(self).wf(),
    {
        if sent {
            self.push_log("manual refresh requested".to_owned());
            self.message = "Manual refresh sent to the Bitaxe poller.".to_owned();
        } else {
            self.push_log("warn refresh request failed; poller offline".to_owned());
            self.message = "Refresh failed because the poller is no longer running.".to_owned();
        }
    }

    /// Takes in a message, which came at `now`.
    pub fn handle_poll_message(&mut self, message: PollMessage, now: u64)
        ensures
            final(self)@ == old(self)@.told(message, now),
            old(self).wf() ==> final(self).wf(),
    {
        match message {
            PollMessage::Snapshot(snapshot, rendered) => {
                self.last_success = Some(now);
                self.last_error = None;
                self.message = snapshot.summary_message(&rendered);
                self.hashrate_spark.push_back(snapshot.hashrate.round());
                if self.hashrate_spark.len() > HISTORY_CAP {
                    self.hashrate_spark.pop_front();
                }
                self.snapshot = snapshot;
                self.rendered = rendered;
                assert(self@.hashrate_spark =~= old(self)@.told(message, now).hashrate_spark);
            },
            PollMessage::Error(error) => {
                let mut text = "API poll failed: ".to_owned();
                text.append(error.as_str());
                let mut line = "api error: ".to_owned();
                line.append(error.as_str());
                self.last_error = Some(error);
                self.message = text;
                self.push_log(line);
            },
            PollMessage::LogLine(line) => {
                self.push_log(sanitize_log_line(line.as_str()));
            },
            PollMessage::LogStatus(status) => {
                self.push_log(sanitize_log_line(status.as_str()));
            },
        }
    }

    /// Appends a line to the log.
    pub fn push_log(&mut self, line: String)
        ensures
            final(self)@ == old(self)@.logged(line@),
            old(self).wf() ==> final(self).wf(),
    {
        self.logs.push_back(line);
        assert(self.logs.deep_view() =~= old(self).logs.deep_view().push(line@));
        let ghost full = self.logs.deep_view();
        while self.logs.len() > LOG_CAP
            invariant
                1 <= self.logs@.len() <= full.len(),
                self.logs.deep_view() == full.skip(full.len() - self.logs@.len()),
                full.len() > LOG_CAP ==> self.logs@.len() >= LOG_CAP,
                full.len() <= LOG_CAP ==> self.logs@.len() == full.len(),
                self@ == (AppModel { logs: self.logs.deep_view(), ..old(self)@ }),
            decreases self.logs@.len(),
        {
            let ghost before = self.logs.deep_view();
            self.logs.pop_front();
            assert(self.logs.deep_view() =~= before.skip(1));
            assert(before.skip(1) =~= full.skip(full.len() - self.logs@.len()));
        }
        assert(self.logs.deep_view() =~= last_of(full, LOG_CAP as nat));
    }

    /// The word for the state of the connection.
    pub fn connection_label(&self) -> (r: &'static str)
        ensures
            r@ == self@.connection(),
    {
        if self.last_error.is_some() {
            "degraded"
        } else if self.last_success.is_some() {
            "connected"
        } else {
            "connecting"
        }
    }

    /// What there is to say of the connection at `now`.
    pub fn connection_detail(&self, now: u64) -> (r: String)
        ensures
            r@ == self@.connection_details(now),
    {
        if let Some(error) = &self.last_error {
            let mut r = "last error: ".to_owned();
            r.append(error.as_str());
            r
        } else if let Some(last) = self.last_success {
            let mut r = "last poll ".to_owned();
            r.append(decimal_text(seconds_between(last, now)).as_str());
            r.append("s ago");
            r
        } else {
            "waiting for first successful poll".to_owned()
        }
    }

    /// The age of the snapshot at `now`.
    pub fn last_update_text(&self, now: u64) -> (r: String)
        ensures
            r@ == self@.last_update(now),
    {
        match self.last_success {
            Some(last) => {
                let mut r = "updated ".to_owned();
                r.append(decimal_text(seconds_between(last, now)).as_str());
                r.append("s ago");
                r
            },
            None => "no data yet".to_owned(),
        }
    }

    /// The word for the state of the device.
    pub fn status_text(&self) -> (r: String)
        ensures
            r@ == self@.status(),
    {
        if self.snapshot.is_hot(self.rendered.limits) {
            "Hot".to_owned()
        } else if self.snapshot.is_using_fallback_stratum {
            "Fallback Pool".to_owned()
        } else if self.last_error.is_some() {
            "API Error".to_owned()
        } else {
            "Mining".to_owned()
        }
    }

    /// The highest hashrate of the history.
    pub fn hashrate_peak(&self) -> (r: u64)
        ensures
            r == peak_of(self@.hashrate_spark),
    {
        let n: usize = self.hashrate_spark.len();
        if n == 0 {
            return 1;
        }
        let mut peak: u64 = self.hashrate_spark[0];
        let mut i: usize = 1;
        assert(self.hashrate_spark@.take(1).drop_last() =~= Seq::empty());
        while i < n
            invariant
                1 <= i <= n == self.hashrate_spark@.len(),
                peak == peak_of(self.hashrate_spark@.take(i as int)),
            decreases n - i,
        {
            let next: u64 = self.hashrate_spark[i];
            assert(self.hashrate_spark@.take(i + 1).drop_last() =~= self.hashrate_spark@.take(
                i as int,
            ));
            if peak < next {
                peak = next;
            }
            i += 1;
        }
        assert(self.hashrate_spark@.take(i as int) =~= self.hashrate_spark@);
        peak
    }

    /// The top of the hashrate chart, where `padded_peak` is the highest
    /// hashrate with `HEADROOM_TENTHS` tenths of room, rounded up. It is never
    /// zero.
    pub fn hashrate_scale_max(padded_peak: u64) -> (r: u64)
        ensures
            r == chart_top(padded_peak),
    {
        if padded_peak == 0 {
            1
        } else {
            padded_peak
        }
    }

    /// The address of the device.
    pub fn base_url(&self) -> (r: &str)
        ensures
            r@ == self@.base_url,
    {
        self.base_url.as_str()
    }

    /// The hashrates of the last polls.
    pub fn hashrate_spark(&self) -> (r: &VecDeque<u64>)
        ensures
            r@ == self@.hashrate_spark,
    {
        &self.hashrate_spark
    }

    /// The last lines of the log.
    pub fn logs(&self) -> (r: &VecDeque<String>)
        ensures
            r.deep_view() == self@.logs,
    {
        &self.logs
    }

    /// The device at the last successful poll.
    pub fn snapshot(&self) -> (r: &BitaxeSnapshot)
        ensures
            *r == self@.snapshot,
    {
        &self.snapshot
    }

    /// What was computed of the snapshot.
    pub fn rendered(&self) -> (r: &Rendered)
        ensures
            *r == self@.rendered,
    {
        &self.rendered
    }

    /// The message to the user.
    pub fn message(&self) -> (r: &str)
        ensures
            r@ == self@.message,
    {
        self.message.as_str()
    }
}

// ---------------------------------------------------------------------------
// Laws
// ---------------------------------------------------------------------------

/// What can happen to the dashboard.
pub enum Happening {
    /// A message came, at this time.
    Told(PollMessage, u64),
    /// The user asked for a poll, and the polling thread could be told or not.
    Refreshed(bool),
    /// The clock ticked, at this time.
    Ticked(u64),
}

impl AppModel {
    /// The state after `happening`.
    pub open spec fn after(self, happening: Happening) -> Self {
        match happening {
            Happening::Told(message, now) => self.told(message, now),
            Happening::Refreshed(sent) => self.refreshed(sent),
            Happening::Ticked(now) => self.ticked(now),
        }
    }
}

/// The hashrate that `happening` adds to the history, if it adds one.
pub open spec fn hashrate_added(happening: Happening) -> Seq<u64> {
    match happening {
        Happening::Told(PollMessage::Snapshot(snapshot, _), _) => seq![
            snapshot.hashrate.rounded() as u64,
        ],
        _ => Seq::empty(),
    }
}

/// The line that `happening` adds to the log, if it adds one.
pub open spec fn line_added(happening: Happening) -> Seq<Seq<char>> {
    match happening {
        Happening::Told(message, _) => match message {
            PollMessage::Snapshot(_, _) => Seq::empty(),
            PollMessage::Error(error) => seq!["api error: "@ + error@],
            PollMessage::LogLine(line) => seq![log_line::sanitized(line@)],
            PollMessage::LogStatus(status) => seq![log_line::sanitized(status@)],
        },
        Happening::Refreshed(sent) => seq![
            if sent {
                "manual refresh requested"@
            } else {
                "warn refresh request failed; poller offline"@
            },
        ],
        Happening::Ticked(_) => Seq::empty(),
    }
}

/// The hashrates that the happenings add to the history, in order.
pub open spec fn hashrates_added(happenings: Seq<Happening>) -> Seq<u64>
    decreases happenings.len(),
{
    if happenings.len() == 0 {
        Seq::empty()
    } else {
        hashrates_added(happenings.drop_last()) + hashrate_added(happenings.last())
    }
}

/// The lines that the happenings add to the log, in order.
pub open spec fn lines_added(happenings: Seq<Happening>) -> Seq<Seq<char>>
    decreases happenings.len(),
{
    if happenings.len() == 0 {
        Seq::empty()
    } else {
        lines_added(happenings.drop_last()) + line_added(happenings.last())
    }
}

/// How many of the happenings are successful polls.
pub open spec fn polls_among(happenings: Seq<Happening>) -> nat
    decreases happenings.len(),
{
    if happenings.len() == 0 {
        0
    } else {
        polls_among(happenings.drop_last()) + match happenings.last() {
            Happening::Told(PollMessage::Snapshot(_, _), _) => 1nat,
            _ => 0nat,
        }
    }
}

/// The state after the happenings, in order.
pub open spec fn after_all(start: AppModel, happenings: Seq<Happening>) -> AppModel
    decreases happenings.len(),
{
    if happenings.len() == 0 {
        start
    } else {
        after_all(start, happenings.drop_last()).after(happenings.last())
    }
}

/// To keep the newest of a list, it is enough to keep the newest at each step.
proof fn newest_of_the_newest<T>(s: Seq<T>, x: T, cap: nat)
    requires
        cap > 0,
    ensures
        last_of(last_of(s, cap).push(x), cap) == last_of(s.push(x), cap),
{
    assert(last_of(last_of(s, cap).push(x), cap) =~= last_of(s.push(x), cap));
}

/// What one happening does to the history and the log.
proof fn happening_adds_at_the_end(m: AppModel, happening: Happening)
    requires
        m.wf(),
    ensures
        m.after(happening).hashrate_spark == last_of(
            m.hashrate_spark + hashrate_added(happening),
            HISTORY_CAP as nat,
        ),
        m.after(happening).logs == last_of(m.logs + line_added(happening), LOG_CAP as nat),
        m.after(happening).wf(),
{
    if hashrate_added(happening).len() == 0 {
        assert(m.hashrate_spark + hashrate_added(happening) =~= m.hashrate_spark);
    } else {
        assert(m.hashrate_spark + hashrate_added(happening) =~= m.hashrate_spark.push(
            hashrate_added(happening)[0],
        ));
    }
    if line_added(happening).len() == 0 {
        assert(m.logs + line_added(happening) =~= m.logs);
    } else {
        assert(m.logs + line_added(happening) =~= m.logs.push(line_added(happening)[0]));
    }
}

/// Adding at most one element to the newest of a list.
proof fn newest_after_adding<T>(s: Seq<T>, added: Seq<T>, cap: nat)
    requires
        cap > 0,
        added.len() <= 1,
    ensures
        last_of(last_of(s, cap) + added, cap) == last_of(s + added, cap),
{
    if added.len() == 1 {
        newest_of_the_newest(s, added[0], cap);
        assert(last_of(s, cap) + added =~= last_of(s, cap).push(added[0]));
        assert(s + added =~= s.push(added[0]));
    } else {
        assert(last_of(s, cap) + added =~= last_of(s, cap));
        assert(s + added =~= s);
    }
}

/// Whatever happens to the dashboard, and in whatever order, the history holds
/// the newest hashrates and the log the newest lines, in the order in which they
/// came, up to the caps; and the state stays well-formed.
pub proof fn newest_are_kept(start: AppModel, happenings: Seq<Happening>)
    requires
        start.wf(),
    ensures
        after_all(start, happenings).wf(),
        after_all(start, happenings).hashrate_spark == last_of(
            start.hashrate_spark + hashrates_added(happenings),
            HISTORY_CAP as nat,
        ),
        after_all(start, happenings).logs == last_of(
            start.logs + lines_added(happenings),
            LOG_CAP as nat,
        ),
    decreases happenings.len(),
{
    if happenings.len() == 0 {
        assert(start.hashrate_spark + hashrates_added(happenings) =~= start.hashrate_spark);
        assert(start.logs + lines_added(happenings) =~= start.logs);
    } else {
        let front = happenings.drop_last();
        let last = happenings.last();
        newest_are_kept(start, front);
        happening_adds_at_the_end(after_all(start, front), last);
        let rates = start.hashrate_spark + hashrates_added(front);
        let lines = start.logs + lines_added(front);
        newest_after_adding(rates, hashrate_added(last), HISTORY_CAP as nat);
        newest_after_adding(lines, line_added(last), LOG_CAP as nat);
        assert(start.hashrate_spark + hashrates_added(happenings) =~= rates + hashrate_added(
            last,
        ));
        assert(start.logs + lines_added(happenings) =~= lines + line_added(last));
    }
}

/// The happenings add one hashrate for each successful poll.
proof fn one_hashrate_per_poll(happenings: Seq<Happening>)
    ensures
        hashrates_added(happenings).len() == polls_among(happenings),
    decreases happenings.len(),
{
    if happenings.len() > 0 {
        one_hashrate_per_poll(happenings.drop_last());
    }
}

/// Whatever happens to the dashboard, and in whatever order, the history grows
/// by one entry for each successful poll, until it is as long as its cap, and
/// never shrinks.
pub proof fn history_has_one_entry_per_poll(start: AppModel, happenings: Seq<Happening>)
    requires
        start.wf(),
    ensures
        after_all(start, happenings).hashrate_spark.len() == if start.hashrate_spark.len()
            + polls_among(happenings) <= HISTORY_CAP {
            start.hashrate_spark.len() + polls_among(happenings)
        } else {
            HISTORY_CAP as nat
        },
{
    newest_are_kept(start, happenings);
    one_hashrate_per_poll(happenings);
}

/// Whatever happens to the dashboard, the address of the device and the time of
/// the start stay as they are; and once a poll has succeeded, that is never
/// forgotten.
pub proof fn address_and_start_stay(start: AppModel, happenings: Seq<Happening>)
    ensures
        after_all(start, happenings).base_url == start.base_url,
        after_all(start, happenings).started_at == start.started_at,
        after_all(start, happenings).last_success is Some <==> start.last_success is Some
            || polls_among(happenings) > 0,
    decreases happenings.len(),
{
    if happenings.len() > 0 {
        address_and_start_stay(start, happenings.drop_last());
    }
}

/// Only a successful poll changes the snapshot, the history and the time of the
/// last success; a failed one is told in the message and the log.
pub proof fn failed_poll_keeps_the_telemetry(m: AppModel, message: PollMessage, now: u64)
    requires
        !(message is Snapshot),
    ensures
        m.told(message, now).snapshot == m.snapshot,
        m.told(message, now).rendered == m.rendered,
        m.told(message, now).hashrate_spark == m.hashrate_spark,
        m.told(message, now).last_success == m.last_success,
        message matches PollMessage::Error(error) ==> {
            &&& m.told(message, now).connection() == "degraded"@
            &&& m.told(message, now).last_error == Some(error@)
            &&& m.told(message, now).logs.last() == "api error: "@ + error@
        },
{
}

/// After a successful poll, whatever came before it, the dashboard holds its
/// snapshot, complains no more about the connection, and has the log as it was.
pub proof fn successful_poll_clears_the_error(
    m: AppModel,
    snapshot: BitaxeSnapshot,
    rendered: Rendered,
    now: u64,
)
    ensures
        ({
            let after = m.told(PollMessage::Snapshot(snapshot, rendered), now);
            &&& after.connection() == "connected"@
            &&& after.status() != "API Error"@
            &&& after.last_update(now) == "updated 0s ago"@
            &&& after.hashrate_spark.last() == snapshot.hashrate.rounded()
            &&& after.snapshot == snapshot
            &&& after.logs == m.logs
        }),
{
    reveal_strlit("Hot");
    reveal_strlit("Fallback Pool");
    reveal_strlit("Mining");
    reveal_strlit("API Error");
    reveal_strlit("updated 0s ago");
    reveal_strlit("updated ");
    reveal_strlit("s ago");
    let after = m.told(PollMessage::Snapshot(snapshot, rendered), now);
    reading::rounded_reading_fits(snapshot.hashrate);
    assert(after.last_update(now) =~= "updated 0s ago"@);
    assert("API Error"@.len() == 9);
    assert(after.status().len() != 9);
}

/// What the log stream sends reaches the log alone, and it reaches it printable.
pub proof fn log_messages_reach_the_log_alone(m: AppModel, line: String, now: u64)
    ensures
        m.told(PollMessage::LogLine(line), now) == m.logged(log_line::sanitized(line@)),
        m.told(PollMessage::LogStatus(line), now) == m.logged(log_line::sanitized(line@)),
        m.logged(log_line::sanitized(line@)).message == m.message,
        m.logged(log_line::sanitized(line@)).last_error == m.last_error,
        log_line::printable(m.logged(log_line::sanitized(line@)).logs.last()),
{
    log_line::sanitized_line_is_printable(line@);
}

/// Once a poll has succeeded, no tick of the clock complains of waiting; before
/// that, a tick changes nothing but the message.
pub proof fn waiting_ends_with_the_first_answer(m: AppModel, now: u64)
    ensures
        m.last_success is Some ==> m.ticked(now) == m,
        m.ticked(now) == (AppModel { message: m.ticked(now).message, ..m }),
{
}

/// The highest hashrate is one of the history, and none of the history exceeds
/// it.
pub proof fn peak_is_the_maximum(s: Seq<u64>)
    requires
        s.len() > 0,
    ensures
        s.contains(peak_of(s)),
        forall|i: int| 0 <= i < s.len() ==> #[trigger] s[i] <= peak_of(s),
    decreases s.len(),
{
    assert(s.contains(s.last()));
    if s.len() > 1 {
        let front = s.drop_last();
        peak_is_the_maximum(front);
        let i = choose|i: int| 0 <= i < front.len() && front[i] == peak_of(front);
        assert(s[i] == peak_of(front));
        assert forall|i: int| 0 <= i < s.len() implies #[trigger] s[i] <= peak_of(s) by {
            if i < front.len() {
                assert(front[i] == s[i]);
            }
        }
    }
}

/// No bar of the hashrate chart exceeds its top, as long as the room above the
/// highest hashrate is not negative.
pub proof fn no_bar_exceeds_the_chart(s: Seq<u64>, padded_peak: u64)
    requires
        s.len() > 0,
        padded_peak >= peak_of(s),
    ensures
        forall|i: int| 0 <= i < s.len() ==> #[trigger] s[i] <= chart_top(padded_peak),
        chart_top(padded_peak) > 0,
{
    peak_is_the_maximum(s);
}

/// `after` is `before` with `x` at its end, and without its oldest where it would
/// be longer than `cap`.
pub open spec fn gains<T>(before: Seq<T>, after: Seq<T>, x: T, cap: nat) -> bool {
    &&& after.len() == if before.len() < cap {
        before.len() + 1
    } else {
        cap
    }
    &&& after.last() == x
    &&& forall|i: int|
        0 <= i < after.len() - 1 ==> #[trigger] after[i] == before[before.len() + 1 - after.len()
            + i]
}

/// The newest of a list are its end: as many as there are, up to the cap, in
/// their order.
pub proof fn newest_are_the_end_of_the_list<T>(s: Seq<T>, cap: nat)
    ensures
        last_of(s, cap).len() == if s.len() <= cap {
            s.len()
        } else {
            cap
        },
        forall|i: int|
            0 <= i < last_of(s, cap).len() ==> #[trigger] last_of(s, cap)[i] == s[s.len()
                - last_of(s, cap).len() + i],
{
}

/// A line that is logged stands at the end of the log, with the lines before it
/// as they were, up to fourteen; and nothing else changes.
pub proof fn logged_line_stands_at_the_end(m: AppModel, line: Seq<char>)
    requires
        m.wf(),
    ensures
        gains(m.logs, m.logged(line).logs, line, 14),
        m.logged(line) == (AppModel { logs: m.logged(line).logs, ..m }),
{
}

/// A successful poll is taken in whole: the snapshot and what was computed of it
/// become the present ones, the message sums it up, the time is noted, no error
/// is left, and the rounded hashrate joins the history at its end, with those
/// before it as they were, up to a hundred and twenty. The address, the start and
/// the log stay.
pub proof fn successful_poll_is_taken_in_whole(
    m: AppModel,
    snapshot: BitaxeSnapshot,
    rendered: Rendered,
    now: u64,
)
    requires
        m.wf(),
    ensures
        ({
            let after = m.told(PollMessage::Snapshot(snapshot, rendered), now);
            &&& after.snapshot == snapshot
            &&& after.rendered == rendered
            &&& after.message == snapshot.summary(rendered)
            &&& after.last_success == Some(now)
            &&& after.last_error is None
            &&& gains(
                m.hashrate_spark,
                after.hashrate_spark,
                snapshot.hashrate.rounded() as u64,
                120,
            )
            &&& after.logs == m.logs
            &&& after.base_url == m.base_url
            &&& after.started_at == m.started_at
        }),
{
}

/// A failed poll is told three times: as the last error, in the message and in
/// the log. What was known of the device stays, and so do the address, the start
/// and the time of the last success.
pub proof fn failed_poll_is_told_everywhere(m: AppModel, error: String, now: u64)
    requires
        m.wf(),
    ensures
        ({
            let after = m.told(PollMessage::Error(error), now);
            &&& after.last_error == Some(error@)
            &&& after.message == "API poll failed: "@ + error@
            &&& gains(m.logs, after.logs, "api error: "@ + error@, 14)
            &&& after.snapshot == m.snapshot
            &&& after.rendered == m.rendered
            &&& after.hashrate_spark == m.hashrate_spark
            &&& after.last_success == m.last_success
            &&& after.base_url == m.base_url
            &&& after.started_at == m.started_at
        }),
{
}

/// A line of the log stream, and news of the stream, join the log printable, and
/// change nothing else.
pub proof fn stream_reaches_the_log_and_nothing_else(m: AppModel, line: String, now: u64)
    requires
        m.wf(),
    ensures
        ({
            let told = m.told(PollMessage::LogLine(line), now);
            &&& gains(m.logs, told.logs, log_line::sanitized(line@), 14)
            &&& told == (AppModel { logs: told.logs, ..m })
            &&& m.told(PollMessage::LogStatus(line), now) == told
        }),
{
}

/// The user's request is answered in the message and in the log, according to
/// whether the polling thread could be told; nothing else changes.
pub proof fn request_is_answered(m: AppModel)
    requires
        m.wf(),
    ensures
        ({
            let yes = m.refreshed(true);
            let no = m.refreshed(false);
            &&& yes.message == "Manual refresh sent to the Bitaxe poller."@
            &&& gains(m.logs, yes.logs, "manual refresh requested"@, 14)
            &&& yes == (AppModel { message: yes.message, logs: yes.logs, ..m })
            &&& no.message == "Refresh failed because the poller is no longer running."@
            &&& gains(m.logs, no.logs, "warn refresh request failed; poller offline"@, 14)
            &&& no == (AppModel { message: no.message, logs: no.logs, ..m })
        }),
{
}

/// The clock complains exactly when no poll has succeeded yet and more than five
/// seconds have passed since the start; it names the address that does not
/// answer, every character of it, and changes nothing but the message.
pub proof fn clock_complains_after_five_seconds(m: AppModel, now: u64)
    ensures
        m.last_success is None && now > m.started_at + 5_000_000_000 ==> m.ticked(now) == (
        AppModel {
            message: "Still waiting for "@ + m.base_url + " to answer /api/system/info."@,
            ..m
        }),
        m.last_success is Some || now <= m.started_at + 5_000_000_000 ==> m.ticked(now) == m,
{
}

/// Seconds are counted when they are full.
pub proof fn seconds_are_counted_when_full(then: u64, now: u64)
    ensures
        now < then ==> seconds_since(then, now) == 0,
        now >= then ==> then + seconds_since(then, now) * 1_000_000_000 <= now < then + (
        seconds_since(then, now) + 1) * 1_000_000_000,
{
}

/// The connection is degraded exactly while the last poll failed; else it is
/// connected once a poll has succeeded, and connecting before.
pub proof fn connection_tells_how_the_last_poll_went(m: AppModel)
    ensures
        m.last_error is Some ==> m.connection() == "degraded"@,
        m.last_error is None && m.last_success is Some ==> m.connection() == "connected"@,
        m.last_error is None && m.last_success is None ==> m.connection() == "connecting"@,
{
}

/// What is said of the connection is the error, every character of it, while the
/// last poll failed; else how many full seconds ago a poll succeeded; and the age
/// of the data counts from the last success, whatever has failed since.
pub proof fn ages_count_from_the_last_success(
    m: AppModel,
    error: Seq<char>,
    last: u64,
    now: u64,
)
    ensures
        m.last_error == Some(error) ==> m.connection_details(now) == "last error: "@ + error,
        m.last_error is None && m.last_success == Some(last) ==> m.connection_details(now)
            == "last poll "@ + text::decimal(seconds_since(last, now)) + "s ago"@,
        m.last_error is None && m.last_success is None ==> m.connection_details(now)
            == "waiting for first successful poll"@,
        m.last_success == Some(last) ==> m.last_update(now) == "updated "@ + text::decimal(
            seconds_since(last, now),
        ) + "s ago"@,
        m.last_success is None ==> m.last_update(now) == "no data yet"@,
{
}

/// The state of the device names the worst first: heat whenever the temperature
/// exceeds its limit, else the fallback pool, else a failed poll; it is mining
/// exactly when none of them holds.
pub proof fn status_names_the_worst_first(m: AppModel)
    ensures
        ({
            let hot = m.rendered.limits.hot.less(m.snapshot.temp);
            let fallback = m.snapshot.is_using_fallback_stratum;
            let failed = m.last_error is Some;
            &&& hot ==> m.status() == "Hot"@
            &&& !hot && fallback ==> m.status() == "Fallback Pool"@
            &&& !hot && !fallback && failed ==> m.status() == "API Error"@
            &&& !hot && !fallback && !failed ==> m.status() == "Mining"@
        }),
{
}

/// At the start the dashboard is connecting to the address that it was given,
/// has no data, and its history and its log hold one entry each.
pub proof fn fresh_dashboard_is_connecting(
    base_url: Seq<char>,
    now: u64,
    later: u64,
    snapshot: BitaxeSnapshot,
    rendered: Rendered,
)
    ensures
        ({
            let m = AppModel::fresh(base_url, now, snapshot, rendered);
            &&& m.wf()
            &&& m.base_url == base_url
            &&& m.started_at == now
            &&& m.snapshot == snapshot
            &&& m.rendered == rendered
            &&& m.connection() == "connecting"@
            &&& m.connection_details(later) == "waiting for first successful poll"@
            &&& m.last_update(later) == "no data yet"@
            &&& m.message == "Connecting to Bitaxe API and waiting for telemetry."@
            &&& m.hashrate_spark.len() == 1 && m.hashrate_spark[0] == 0
            &&& m.logs.len() == 1 && m.logs[0] == "waiting for Bitaxe websocket log stream..."@
        }),
{
}

/// The top of the chart is the highest hashrate with its room, as it was given;
/// only nothing at all is raised to one.
pub proof fn chart_has_the_room_that_was_given(padded_peak: u64)
    ensures
        padded_peak > 0 ==> chart_top(padded_peak) == padded_peak,
        padded_peak == 0 ==> chart_top(padded_peak) == 1,
        HEADROOM_TENTHS == 18,
{
}

} // verus!
