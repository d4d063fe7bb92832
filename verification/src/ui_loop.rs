//! The loop of the user interface: what it does next.
//!
//! The loop performs an action, hands its outcome to `Ui::step` as an event, and
//! gets the next action. One round takes in the messages that have come, draws,
//! waits for a key, and ticks if it is time.

use vstd::prelude::*;

use crate::state;
use crate::state::{App, AppModel, Happening, PollMessage, PATIENCE};

verus! {

/// The nanoseconds between two ticks.
pub const TICK: u64 = 200_000_000;

/// A key of the keyboard, as far as it matters.
#[derive(Clone, Copy, Debug, PartialEq, Eq, Structural)]
pub enum Key {
    Char(char),
    Escape,
    Other,
}

/// What happened to a key.
#[derive(Clone, Copy, Debug, PartialEq, Eq, Structural)]
pub enum KeyMotion {
    /// It went down.
    Press,
    /// It is held down.
    Repeat,
    /// It went up.
    Release,
}

/// What the terminal reported.
#[derive(Clone, Copy, Debug, PartialEq, Eq, Structural)]
pub enum Input {
    /// Something happened to a key.
    Key(Key, KeyMotion),
    /// Anything else.
    Other,
}

/// What the loop is to do.
#[derive(Clone, Copy, Debug, PartialEq, Eq, Structural)]
pub enum UiAction {
    /// Take a message of the threads, if one has come.
    TakeMessage,
    /// Draw the dashboard.
    Draw,
    /// Wait for input, at most this long.
    WaitInput { nanos: u64 },
    /// Read the input that is there.
    ReadInput,
    /// Tell the polling thread to poll.
    SendRefresh,
    /// End.
    Quit,
}

/// What happened to the loop.
#[derive(Debug)]
pub enum UiEvent {
    /// A round begins.
    Begun,
    /// A message had come.
    Told(PollMessage),
    /// No message had come.
    NothingTold,
    /// The dashboard was drawn.
    Drawn,
    /// Input is there, or the wait for it ended without.
    Waited { input: bool },
    /// Input was read.
    Read(Input),
    /// The polling thread was told to poll, or could not be.
    RefreshSent(bool),
}

/// The user interface.
#[derive(Debug)]
pub struct Ui {
    app: App,
    last_tick: u64,
}

/// The model of the user interface.
pub struct UiModel {
    /// The state of the dashboard.
    pub app: AppModel,
    /// When the last tick was.
    pub last_tick: u64,
}

/// Whether the input ends the program: the press of `q` or of Escape.
pub open spec fn quits(input: Input) -> bool {
    input == Input::Key(Key::Char('q'), KeyMotion::Press) || input == Input::Key(
        Key::Escape,
        KeyMotion::Press,
    )
}

/// Whether the input asks for a poll: the press of `r`.
pub open spec fn refreshes(input: Input) -> bool {
    input == Input::Key(Key::Char('r'), KeyMotion::Press)
}

/// The time that has passed since the last tick.
pub open spec fn since_tick(last_tick: u64, now: u64) -> u64 {
    if now < last_tick {
        0
    } else {
        (now - last_tick) as u64
    }
}

/// How long the loop may wait for input: until the next tick.
pub open spec fn patience(last_tick: u64, now: u64) -> u64 {
    if since_tick(last_tick, now) >= TICK {
        0
    } else {
        (TICK - since_tick(last_tick, now)) as u64
    }
}

impl UiModel {
    /// The state after the end of a round at `now`.
    pub open spec fn round_ended(self, now: u64) -> Self {
        if since_tick(self.last_tick, now) >= TICK {
            UiModel { app: self.app.ticked(now), last_tick: now }
        } else {
            self
        }
    }

    /// The state after `event` at `now`.
    pub open spec fn after(self, event: UiEvent, now: u64) -> Self {
        match event {
            UiEvent::Told(message) => UiModel { app: self.app.told(message, now), ..self },
            UiEvent::Waited { input: false } => self.round_ended(now),
            UiEvent::Read(input) => if quits(input) || refreshes(input) {
                self
            } else {
                self.round_ended(now)
            },
            UiEvent::RefreshSent(sent) => (UiModel { app: self.app.refreshed(sent), ..self }).round_ended(
                now,
            ),
            _ => self,
        }
    }

    /// What follows `event` at `now`.
    pub open spec fn action(self, event: UiEvent, now: u64) -> UiAction {
        match event {
            UiEvent::NothingTold => UiAction::Draw,
            UiEvent::Drawn => UiAction::WaitInput { nanos: patience(self.last_tick, now) },
            UiEvent::Waited { input: true } => UiAction::ReadInput,
            UiEvent::Read(input) => if quits(input) {
                UiAction::Quit
            } else if refreshes(input) {
                UiAction::SendRefresh
            } else {
                UiAction::TakeMessage
            },
            _ => UiAction::TakeMessage,
        }
    }
}

impl View for Ui {
    type V = UiModel;

    closed spec fn view(&self) -> UiModel {
        UiModel { app: self.app@, last_tick: self.last_tick }
    }
}

impl Ui {
    /// The state of the dashboard is well-formed.
    pub open spec fn wf(&self) -> bool {
        self@.app.wf()
    }

    /// The user interface for `app`, at `now`.
    pub fn new(app: App, now: u64) -> (r: Self)
        ensures
            app.wf() ==> r.wf(),
            r@ == (UiModel { app: app@, last_tick: now }),
    {
        Ui { app, last_tick: now }
    }

    /// The state of the dashboard.
    pub fn app(&self) -> (r: &App)
        ensures
            r@ == self@.app,
    {
        &self.app
    }

    /// The time that has passed since the last tick.
    fn elapsed(&self, now: u64) -> (r: u64)
        ensures
            r == since_tick(self@.last_tick, now),
    {
        if now < self.last_tick {
            0
        } else {
            now - self.last_tick
        }
    }

    /// Ends a round: ticks, if it is time.
    fn end_round(&mut self, now: u64)
        ensures
            final(self)@ == old(self)@.round_ended(now),
            old(self).wf() ==> final(self).wf(),
    {
        if self.elapsed(now) >= TICK {
            self.app.on_tick(now);
            self.last_tick = now;
        }
    }

    /// What the loop is to do after `event` at `now`.
    pub fn step(&mut self, event: UiEvent, now: u64) -> (action: UiAction)
        ensures
            action == old(self)@.action(event, now),
            final(self)@ == old(self)@.after(event, now),
            old(self).wf() ==> final(self).wf(),
    {
        match event {
            UiEvent::Begun => UiAction::TakeMessage,
            UiEvent::Told(message) => {
                self.app.handle_poll_message(message, now);
                UiAction::TakeMessage
            },
            UiEvent::NothingTold => UiAction::Draw,
            UiEvent::Drawn => {
                let elapsed = self.elapsed(now);
                let nanos: u64 = if elapsed >= TICK { 0 } else { TICK - elapsed };
                UiAction::WaitInput { nanos }
            },
            UiEvent::Waited { input } => if input {
                UiAction::ReadInput
            } else {
                self.end_round(now);
                UiAction::TakeMessage
            },
            UiEvent::Read(input) => match input {
                Input::Key(key, KeyMotion::Press) => match key {
                    Key::Char('q') | Key::Escape => UiAction::Quit,
                    Key::Char('r') => UiAction::SendRefresh,
                    _ => {
                        self.end_round(now);
                        UiAction::TakeMessage
                    },
                },
                _ => {
                    self.end_round(now);
                    UiAction::TakeMessage
                },
            },
            UiEvent::RefreshSent(sent) => {
                self.app.request_refresh(sent);
                self.end_round(now);
                UiAction::TakeMessage
            },
        }
    }
}

// ---------------------------------------------------------------------------
// Laws
// ---------------------------------------------------------------------------

/// In every state, the press of `q` or of Escape ends the program, that of `r`
/// asks for a poll, and no other input does either.
pub proof fn keys_do_what_they_are_for(m: UiModel, input: Input, now: u64)
    ensures
        m.action(UiEvent::Read(input), now) == UiAction::Quit <==> input == Input::Key(
            Key::Char('q'),
            KeyMotion::Press,
        ) || input == Input::Key(Key::Escape, KeyMotion::Press),
        m.action(UiEvent::Read(input), now) == UiAction::SendRefresh <==> input == Input::Key(
            Key::Char('r'),
            KeyMotion::Press,
        ),
{
}

/// The program ends for no other reason than a key.
pub proof fn only_a_key_quits(m: UiModel, event: UiEvent, now: u64)
    requires
        m.action(event, now) == UiAction::Quit,
    ensures
        event matches UiEvent::Read(input) && quits(input),
{
}

/// The loop never waits for input longer than from one tick to the next, and
/// never beyond the next tick.
pub proof fn wait_ends_with_the_tick(m: UiModel, now: u64)
    ensures
        m.action(UiEvent::Drawn, now) matches UiAction::WaitInput { nanos } && nanos <= TICK && (
        m.last_tick <= now && nanos > 0 ==> now + nanos == m.last_tick + TICK),
{
}

/// What an event at `now` does to the dashboard: what it tells, and the tick
/// that ends the round, if it is time.
pub open spec fn happenings_of(m: UiModel, event: UiEvent, now: u64) -> Seq<Happening> {
    let tick = if since_tick(m.last_tick, now) >= TICK {
        seq![Happening::Ticked(now)]
    } else {
        Seq::empty()
    };
    match event {
        UiEvent::Told(message) => seq![Happening::Told(message, now)],
        UiEvent::RefreshSent(sent) => seq![Happening::Refreshed(sent)] + tick,
        UiEvent::Waited { input: false } => tick,
        UiEvent::Read(input) => if quits(input) || refreshes(input) {
            Seq::empty()
        } else {
            tick
        },
        _ => Seq::empty(),
    }
}

/// No event does anything else to the dashboard than what can happen to it.
pub proof fn events_are_happenings(m: UiModel, event: UiEvent, now: u64)
    ensures
        m.after(event, now).app == state::after_all(m.app, happenings_of(m, event, now)),
{
    let happenings = happenings_of(m, event, now);
    reveal_with_fuel(state::after_all, 3);
    if happenings.len() == 2 {
        assert(happenings.drop_last() =~= seq![happenings[0]]);
        assert(happenings.drop_last().drop_last() =~= Seq::empty());
    }
}

/// The user interface after the events, each with the time at which it came.
pub open spec fn after_events(start: UiModel, events: Seq<(UiEvent, u64)>) -> UiModel
    decreases events.len(),
{
    if events.len() == 0 {
        start
    } else {
        after_events(start, events.drop_last()).after(events.last().0, events.last().1)
    }
}

/// However long the user interface runs, and whatever it meets, the history and
/// the log keep within their caps, and it shows the device that it was started
/// for.
pub proof fn dashboard_stays_well_formed(start: UiModel, events: Seq<(UiEvent, u64)>)
    requires
        start.app.wf(),
    ensures
        after_events(start, events).app.wf(),
        after_events(start, events).app.base_url == start.app.base_url,
        after_events(start, events).app.started_at == start.app.started_at,
    decreases events.len(),
{
    if events.len() > 0 {
        let before = after_events(start, events.drop_last());
        let (event, now) = events.last();
        dashboard_stays_well_formed(start, events.drop_last());
        events_are_happenings(before, event, now);
        state::newest_are_kept(before.app, happenings_of(before, event, now));
        state::address_and_start_stay(before.app, happenings_of(before, event, now));
    }
}

/// A manual refresh is answered in the log, whether it could be sent or not, and
/// leaves the telemetry alone. It is answered in the message too, unless the
/// same round ends with the complaint that the device was never reached.
pub proof fn refresh_is_answered(m: UiModel, sent: bool, now: u64)
    ensures
        ({
            let after = m.after(UiEvent::RefreshSent(sent), now).app;
            let complains = m.app.last_success is None && now - m.app.started_at > PATIENCE
                && since_tick(m.last_tick, now) >= TICK;
            &&& after.logs.last() == if sent {
                "manual refresh requested"@
            } else {
                "warn refresh request failed; poller offline"@
            }
            &&& !complains ==> after.message == if sent {
                "Manual refresh sent to the Bitaxe poller."@
            } else {
                "Refresh failed because the poller is no longer running."@
            }
            &&& after.snapshot == m.app.snapshot
            &&& after.hashrate_spark == m.app.hashrate_spark
            &&& after.last_error == m.app.last_error
        }),
{
}

/// A round goes from the messages to drawing, from drawing to waiting for input,
/// and from there back to the messages: at once where no input came, and after it
/// was read where it did.
pub proof fn round_takes_its_turns(m: UiModel, message: PollMessage, now: u64)
    ensures
        m.action(UiEvent::Begun, now) is TakeMessage,
        m.action(UiEvent::Told(message), now) is TakeMessage,
        m.action(UiEvent::NothingTold, now) is Draw,
        m.action(UiEvent::Drawn, now) is WaitInput,
        m.action(UiEvent::Waited { input: true }, now) is ReadInput,
        m.action(UiEvent::Waited { input: false }, now) is TakeMessage,
        m.action(UiEvent::RefreshSent(true), now) is TakeMessage,
        m.action(UiEvent::RefreshSent(false), now) is TakeMessage,
{
}

/// The wait lasts until the fifth of a second since the last tick is over, and no
/// time at all where it is.
pub proof fn wait_lasts_until_the_next_tick(m: UiModel, now: u64)
    ensures
        m.last_tick <= now < m.last_tick + 200_000_000 ==> m.action(UiEvent::Drawn, now) == (
        UiAction::WaitInput { nanos: (m.last_tick + 200_000_000 - now) as u64 }),
        now >= m.last_tick + 200_000_000 ==> m.action(UiEvent::Drawn, now) == (
        UiAction::WaitInput { nanos: 0 }),
        now < m.last_tick ==> m.action(UiEvent::Drawn, now) == (
        UiAction::WaitInput { nanos: 200_000_000 }),
{
}

/// The clock ticks at the end of a round exactly when a fifth of a second has
/// passed since the last tick; then the time is noted. A round ends when no input
/// came, when one was read that asks for nothing, and when a request was sent.
pub proof fn clock_ticks_at_the_end_of_a_round(m: UiModel, input: Input, sent: bool, now: u64)
    requires
        !quits(input),
        !refreshes(input),
    ensures
        now >= m.last_tick + 200_000_000 ==> {
            &&& m.after(UiEvent::Waited { input: false }, now) == (
            UiModel { app: m.app.ticked(now), last_tick: now })
            &&& m.after(UiEvent::Read(input), now) == (
            UiModel { app: m.app.ticked(now), last_tick: now })
            &&& m.after(UiEvent::RefreshSent(sent), now) == (
            UiModel { app: m.app.refreshed(sent).ticked(now), last_tick: now })
        },
        now < m.last_tick + 200_000_000 ==> {
            &&& m.after(UiEvent::Waited { input: false }, now) == m
            &&& m.after(UiEvent::Read(input), now) == m
            &&& m.after(UiEvent::RefreshSent(sent), now) == (
            UiModel { app: m.app.refreshed(sent), last_tick: m.last_tick })
        },
{
}

/// A message is taken in as it came, at the time at which it came; and nothing
/// that the loop does by itself changes the dashboard.
pub proof fn messages_are_taken_in_as_they_come(m: UiModel, message: PollMessage, now: u64)
    ensures
        m.after(UiEvent::Told(message), now) == (
        UiModel { app: m.app.told(message, now), last_tick: m.last_tick }),
        m.after(UiEvent::Begun, now) == m,
        m.after(UiEvent::NothingTold, now) == m,
        m.after(UiEvent::Drawn, now) == m,
        m.after(UiEvent::Waited { input: true }, now) == m,
        m.after(UiEvent::Read(Input::Key(Key::Char('r'), KeyMotion::Press)), now) == m,
        m.after(UiEvent::Read(Input::Key(Key::Char('q'), KeyMotion::Press)), now) == m,
        m.after(UiEvent::Read(Input::Key(Key::Escape, KeyMotion::Press)), now) == m,
{
}

} // verus!
