//! The thread that polls the device: what it does next.
//!
//! The thread performs an action, hands its outcome to `Poller::step` as an
//! event, and gets the next action.

use vstd::prelude::*;
use vstd::string::*;

use crate::config::Config;
use crate::snapshot::{AsicInfo, BitaxeSnapshot, Derived, SystemInfo};

verus! {

/// For how many seconds a request may go unanswered.
pub const REQUEST_TIMEOUT_SECS: u64 = 4;

/// How many seconds lie between two polls.
pub const POLL_INTERVAL_SECS: u64 = 3;

/// The step at which a request failed.
#[derive(Clone, Copy, Debug, PartialEq, Eq, Structural)]
pub enum FetchStage {
    /// It got no answer.
    Request,
    /// The answer reported a failure.
    Response,
    /// The answer could not be read.
    Json,
}

/// A request that failed.
#[derive(Debug)]
pub struct FetchFailure {
    pub stage: FetchStage,
    pub error: String,
}

/// What the device said of itself, and what was computed of it.
#[derive(Debug)]
pub struct Report {
    pub info: SystemInfo,
    pub derived: Derived,
}

/// How a wait for the next poll ended.
#[derive(Clone, Copy, Debug, PartialEq, Eq, Structural)]
pub enum WaitEnd {
    /// The user asked for a poll.
    Refresh,
    /// The time was up.
    Timeout,
    /// The dashboard is gone.
    Disconnected,
}

/// What the polling thread is to do.
#[derive(Debug)]
pub enum PollAction {
    /// Make a client for requests.
    BuildClient { timeout_secs: u64, user_agent: &'static str },
    /// Ask the device for its state.
    GetSystemInfo(String),
    /// Ask the device for its mining chip, and keep the report meanwhile.
    GetAsic(String, Report),
    /// Send a snapshot to the dashboard.
    PublishSnapshot(BitaxeSnapshot),
    /// Send an error to the dashboard.
    PublishError(String),
    /// Send an error to the dashboard, if it can be sent, and end.
    Farewell(String),
    /// Wait for the dashboard to ask for a poll, at most this long.
    Wait { secs: u64 },
    /// End.
    Stop,
}

/// What happened to the polling thread.
#[derive(Debug)]
pub enum PollEvent {
    /// It was started.
    Started,
    /// It has a client.
    ClientReady,
    /// It could not make a client.
    ClientFailed(String),
    /// The device told its state.
    GotSystemInfo(Report),
    /// The device did not tell its state.
    SystemInfoFailed(FetchFailure),
    /// The device told of its mining chip, after the report.
    GotAsic(Report, AsicInfo),
    /// The device did not tell of its mining chip.
    AsicFailed(FetchFailure),
    /// Something was sent to the dashboard, or could not be.
    Sent(bool),
    /// A wait ended.
    Waited(WaitEnd),
}

/// The polling thread.
#[derive(Debug)]
pub struct Poller {
    config: Config,
    cached_asic: Option<AsicInfo>,
}

/// The words for the step at which a request failed.
pub open spec fn stage_words(stage: FetchStage) -> Seq<char> {
    match stage {
        FetchStage::Request => " request failed: "@,
        FetchStage::Response => " response failed: "@,
        FetchStage::Json => " JSON failed: "@,
    }
}

/// The text of a failed request for `subject`.
pub open spec fn failure_text(subject: Seq<char>, failure: FetchFailure) -> Seq<char> {
    subject + stage_words(failure.stage) + failure.error@
}

/// `action` is to send the snapshot of a report.
pub open spec fn publishes(action: PollAction, report: Report, asic: AsicInfo) -> bool {
    action matches PollAction::PublishSnapshot(snapshot) && snapshot.is_of(
        report.info,
        asic,
        report.derived,
    )
}

/// The text of a failed request for `subject`.
fn describe(subject: &str, failure: &FetchFailure) -> (r: String)
    ensures
        r@ == failure_text(subject@, *failure),
{
    let mut r = subject.to_owned();
    r.append(
        match failure.stage {
            FetchStage::Request => " request failed: ",
            FetchStage::Response => " response failed: ",
            FetchStage::Json => " JSON failed: ",
        },
    );
    r.append(failure.error.as_str());
    r
}

impl Poller {
    /// The address of the device.
    pub closed spec fn base_url(&self) -> Seq<char> {
        self.config.base_url@
    }

    /// What the device told of its mining chip, if it did.
    pub closed spec fn asic(&self) -> Option<AsicInfo> {
        self.cached_asic
    }

    /// A thread for the device of `config`.
    pub fn new(config: Config) -> (r: Self)
        ensures
            r.base_url() == config.base_url@,
            r.asic() is None,
    {
        Poller { config, cached_asic: None }
    }

    /// What is remembered of the mining chip after `event`.
    pub open spec fn asic_after(&self, event: PollEvent) -> Option<AsicInfo> {
        match event {
            PollEvent::GotAsic(_, asic) => Some(asic),
            _ => self.asic(),
        }
    }

    /// `action` is what follows `event`.
    pub open spec fn follows(&self, event: PollEvent, action: PollAction) -> bool {
        match event {
            PollEvent::Started => action matches PollAction::BuildClient {
                timeout_secs,
                user_agent,
            } && timeout_secs == REQUEST_TIMEOUT_SECS && user_agent@ == "axetui/0.1"@,
            PollEvent::ClientFailed(error) => action matches PollAction::Farewell(text) && text@
                == "HTTP client setup failed: "@ + error@,
            PollEvent::ClientReady | PollEvent::Waited(WaitEnd::Refresh)
            | PollEvent::Waited(WaitEnd::Timeout) => action matches PollAction::GetSystemInfo(
                url,
            ) && url@ == self.base_url() + "/api/system/info"@,
            PollEvent::GotSystemInfo(report) => match self.asic() {
                Some(asic) => publishes(action, report, asic),
                None => action matches PollAction::GetAsic(url, kept) && url@ == self.base_url()
                    + "/api/system/asic"@ && kept == report,
            },
            PollEvent::SystemInfoFailed(failure) => action matches PollAction::PublishError(text)
                && text@ == failure_text("system info"@, failure),
            PollEvent::GotAsic(report, asic) => publishes(action, report, asic),
            PollEvent::AsicFailed(failure) => action matches PollAction::PublishError(text)
                && text@ == failure_text("ASIC"@, failure),
            PollEvent::Sent(true) => action matches PollAction::Wait { secs } && secs
                == POLL_INTERVAL_SECS,
            PollEvent::Sent(false) | PollEvent::Waited(WaitEnd::Disconnected) => action is Stop,
        }
    }

    /// What the thread is to do after `event`.
    pub fn step(&mut self, event: PollEvent) -> (action: PollAction)
        ensures
            old(self).follows(event, action),
            final(self).asic() == old(self).asic_after(event),
            final(self).base_url() == old(self).base_url(),
    {
        match event {
            PollEvent::Started => PollAction::BuildClient {
                timeout_secs: REQUEST_TIMEOUT_SECS,
                user_agent: "axetui/0.1",
            },
            PollEvent::ClientFailed(error) => {
                let mut text = "HTTP client setup failed: ".to_owned();
                text.append(error.as_str());
                PollAction::Farewell(text)
            },
            PollEvent::ClientReady => PollAction::GetSystemInfo(self.config.system_info_url()),
            PollEvent::GotSystemInfo(report) => match &self.cached_asic {
                Some(asic) => PollAction::PublishSnapshot(
                    BitaxeSnapshot::from_api(report.info, asic, report.derived),
                ),
                None => PollAction::GetAsic(self.config.asic_url(), report),
            },
            PollEvent::SystemInfoFailed(reason) => PollAction::PublishError(
                describe("system info", &reason),
            ),
            PollEvent::GotAsic(report, asic) => {
                let snapshot = BitaxeSnapshot::from_api(report.info, &asic, report.derived);
                self.cached_asic = Some(asic);
                PollAction::PublishSnapshot(snapshot)
            },
            PollEvent::AsicFailed(reason) => PollAction::PublishError(describe("ASIC", &reason)),
            PollEvent::Sent(sent) => if sent {
                PollAction::Wait { secs: POLL_INTERVAL_SECS }
            } else {
                PollAction::Stop
            },
            PollEvent::Waited(end) => match end {
                WaitEnd::Refresh | WaitEnd::Timeout => PollAction::GetSystemInfo(
                    self.config.system_info_url(),
                ),
                WaitEnd::Disconnected => PollAction::Stop,
            },
        }
    }
}

// ---------------------------------------------------------------------------
// Laws
// ---------------------------------------------------------------------------

/// Once the device has told of its mining chip, it is not asked again.
pub proof fn mining_chip_is_asked_for_once(p: Poller, event: PollEvent, action: PollAction)
    requires
        p.asic() is Some,
        p.follows(event, action),
    ensures
        !(action is GetAsic),
        p.asic_after(event) is Some,
{
}

/// What the device told of its mining chip goes into every later snapshot.
pub proof fn mining_chip_is_remembered(
    p: Poller,
    first: Report,
    asic: AsicInfo,
    q: Poller,
    later: Report,
    action: PollAction,
)
    requires
        q.asic() == p.asic_after(PollEvent::GotAsic(first, asic)),
        q.follows(PollEvent::GotSystemInfo(later), action),
    ensures
        publishes(action, later, asic),
{
}

/// A poll that failed is told to the dashboard, and what is known of the mining
/// chip is kept for the next one.
pub proof fn failed_poll_is_told(p: Poller, failure: FetchFailure, action: PollAction)
    requires
        p.follows(PollEvent::SystemInfoFailed(failure), action) || p.follows(
            PollEvent::AsicFailed(failure),
            action,
        ),
    ensures
        action is PublishError,
        p.asic_after(PollEvent::SystemInfoFailed(failure)) == p.asic(),
        p.asic_after(PollEvent::AsicFailed(failure)) == p.asic(),
{
}

/// The thread ends exactly when the dashboard is gone or no client could be
/// made.
pub proof fn polling_ends_with_the_dashboard(p: Poller, event: PollEvent, action: PollAction)
    requires
        p.follows(event, action),
    ensures
        action is Stop || action is Farewell <==> (event == PollEvent::Sent(false) || event
            == PollEvent::Waited(WaitEnd::Disconnected) || event is ClientFailed),
{
}

/// A request of the user ends the wait as the passing of time does: with a poll.
pub proof fn refresh_polls_at_once(p: Poller, action: PollAction)
    ensures
        p.follows(PollEvent::Waited(WaitEnd::Refresh), action) == p.follows(
            PollEvent::Waited(WaitEnd::Timeout),
            action,
        ),
        p.follows(PollEvent::Waited(WaitEnd::Refresh), action) ==> action is GetSystemInfo,
{
}

/// The device is asked below the address of the configuration, every character of
/// it: for its state when the client is ready and whenever a wait ends, and for
/// its mining chip after its first state, which is kept meanwhile.
pub proof fn device_is_asked_below_its_address(
    p: Poller,
    base: Seq<char>,
    event: PollEvent,
    action: PollAction,
)
    requires
        p.follows(event, action),
        p.base_url() == base,
    ensures
        event is ClientReady || event == PollEvent::Waited(WaitEnd::Refresh) || event
            == PollEvent::Waited(WaitEnd::Timeout) ==> (action matches PollAction::GetSystemInfo(url)
            && url@ == base + "/api/system/info"@),
        event matches PollEvent::GotSystemInfo(report) ==> (p.asic() is None ==> (
        action matches PollAction::GetAsic(url, kept) && url@ == base + "/api/system/asic"@ && kept
            == report)),
{
}

/// A snapshot is sent exactly when a report came and the mining chip is known;
/// it is that of this report, and of the chip that was last told of.
pub proof fn snapshot_is_of_the_report_that_came(
    p: Poller,
    event: PollEvent,
    action: PollAction,
    report: Report,
    asic: AsicInfo,
)
    requires
        p.follows(event, action),
    ensures
        event == PollEvent::GotAsic(report, asic) ==> (action matches PollAction::PublishSnapshot(s)
            && s.is_of(report.info, asic, report.derived)),
        event == PollEvent::GotSystemInfo(report) && p.asic() == Some(asic) ==> (
        action matches PollAction::PublishSnapshot(s) && s.is_of(
            report.info,
            asic,
            report.derived,
        )),
        action is PublishSnapshot ==> event is GotAsic || (event is GotSystemInfo && p.asic()
            is Some),
        event == PollEvent::GotAsic(report, asic) ==> p.asic_after(event) == Some(asic),
        !(event is GotAsic) ==> p.asic_after(event) == p.asic(),
{
}

/// `action` sends an error that reads `text`.
pub open spec fn complains(action: PollAction, text: Seq<char>) -> bool {
    action matches PollAction::PublishError(error) && error@ == text
}

/// A failed request is told with what was asked for, how it failed, and the
/// error, every character of it.
pub proof fn failure_tells_what_failed_and_how(
    p: Poller,
    failure: FetchFailure,
    info: PollAction,
    chip: PollAction,
)
    requires
        p.follows(PollEvent::SystemInfoFailed(failure), info),
        p.follows(PollEvent::AsicFailed(failure), chip),
    ensures
        failure.stage is Request ==> complains(
            info,
            "system info request failed: "@ + failure.error@,
        ) && complains(chip, "ASIC request failed: "@ + failure.error@),
        failure.stage is Response ==> complains(
            info,
            "system info response failed: "@ + failure.error@,
        ) && complains(chip, "ASIC response failed: "@ + failure.error@),
        failure.stage is Json ==> complains(info, "system info JSON failed: "@ + failure.error@)
            && complains(chip, "ASIC JSON failed: "@ + failure.error@),
{
    reveal_strlit("system info");
    reveal_strlit("ASIC");
    reveal_strlit(" request failed: ");
    reveal_strlit(" response failed: ");
    reveal_strlit(" JSON failed: ");
    reveal_strlit("system info request failed: ");
    reveal_strlit("system info response failed: ");
    reveal_strlit("system info JSON failed: ");
    reveal_strlit("ASIC request failed: ");
    reveal_strlit("ASIC response failed: ");
    reveal_strlit("ASIC JSON failed: ");
    let e = failure.error@;
    assert("system info"@ + " request failed: "@ + e =~= "system info request failed: "@ + e);
    assert("system info"@ + " response failed: "@ + e =~= "system info response failed: "@ + e);
    assert("system info"@ + " JSON failed: "@ + e =~= "system info JSON failed: "@ + e);
    assert("ASIC"@ + " request failed: "@ + e =~= "ASIC request failed: "@ + e);
    assert("ASIC"@ + " response failed: "@ + e =~= "ASIC response failed: "@ + e);
    assert("ASIC"@ + " JSON failed: "@ + e =~= "ASIC JSON failed: "@ + e);
}

/// The thread makes a client that waits four seconds for an answer, says why it
/// ends where it cannot make one, and after all that it sends waits three
/// seconds.
pub proof fn client_comes_first_and_polls_are_spaced(
    p: Poller,
    event: PollEvent,
    action: PollAction,
)
    requires
        p.follows(event, action),
    ensures
        event is Started ==> (action matches PollAction::BuildClient { timeout_secs, user_agent }
            && timeout_secs == 4 && user_agent@ == "axetui/0.1"@),
        event matches PollEvent::ClientFailed(error) ==> (action matches PollAction::Farewell(text)
            && text@ == "HTTP client setup failed: "@ + error@),
        event == PollEvent::Sent(true) ==> (action matches PollAction::Wait { secs } && secs == 3),
{
}

} // verus!
