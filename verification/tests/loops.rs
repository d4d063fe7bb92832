use axetui::config::Config;
use axetui::log_stream::{
    forward_bytes_as, log_step, AfterSend, Frame, LogAction, LogEvent, RECONNECT_SECS,
};
use axetui::metric::MetricValue;
use axetui::poller::{
    FetchFailure, FetchStage, PollAction, PollEvent, Poller, Report, WaitEnd,
};
use axetui::reading::Reading;
use axetui::snapshot::{
    AsicInfo, BitaxeSnapshot, Derived, Figures, Limits, Rendered, SystemInfo,
};
use axetui::state::{App, PollMessage};
use axetui::ui_loop::{Input, Key, KeyMotion, Ui, UiAction, UiEvent, TICK};

fn config() -> Config {
    Config { base_url: "http://miner".to_string() }
}

fn rendered() -> Rendered {
    Rendered {
        limits: Limits { hot: Reading::whole(68), slow: Reading::whole(0) },
        figures: Figures {
            temp: "0.0".to_string(),
            temp_target: "60".to_string(),
            hashrate: "0.0".to_string(),
            expected_hashrate: "1.0".to_string(),
            response_time: "0".to_string(),
            free_heap: "0.0".to_string(),
        },
    }
}

fn ui(now: u64) -> Ui {
    Ui::new(App::new(config(), now, rendered()), now)
}

fn report() -> Report {
    let n = Reading::whole;
    Report {
        info: SystemInfo {
            power: n(14),
            voltage: n(5000),
            current: n(2800),
            temp: n(55),
            vr_temp: n(48),
            max_power: n(25),
            hash_rate: n(1200),
            expected_hashrate: n(1224),
            error_percentage: n(0),
            best_diff: MetricValue::Null,
            network_difficulty: MetricValue::Null,
            is_using_fallback_stratum: 0,
            core_voltage_actual: n(1150),
            frequency: n(525),
            wifi_status: "ok".to_string(),
            wifi_rssi: -60,
            shares_accepted: 1,
            shares_rejected: 0,
            shares_rejected_reasons: vec![],
            stratum_url: "pool".to_string(),
            stratum_user: "worker".to_string(),
            response_time: n(30),
            temptarget: n(60),
            fanspeed: n(40),
            fanrpm: n(3000),
            free_heap: 1,
        },
        derived: Derived {
            input_voltage: n(5),
            current_amps: n(3),
            free_heap_mb: n(1),
            best_diff: String::new(),
            network_difficulty: String::new(),
        },
    }
}

fn failed(stage: FetchStage) -> FetchFailure {
    FetchFailure { stage, error: "boom".to_string() }
}

#[test]
fn keys_of_the_dashboard() {
    let mut ui = ui(0);
    for key in [Key::Char('q'), Key::Escape, Key::Char('r')] {
        for motion in [KeyMotion::Release, KeyMotion::Repeat] {
            let event = UiEvent::Read(Input::Key(key, motion));
            assert_eq!(ui.step(event, 0), UiAction::TakeMessage);
        }
    }
    let mut press = |key| ui.step(UiEvent::Read(Input::Key(key, KeyMotion::Press)), 0);
    assert_eq!(press(Key::Char('q')), UiAction::Quit);
    assert_eq!(press(Key::Escape), UiAction::Quit);
    assert_eq!(press(Key::Char('r')), UiAction::SendRefresh);
    assert_eq!(press(Key::Char('Q')), UiAction::TakeMessage);
    assert_eq!(press(Key::Other), UiAction::TakeMessage);
    assert_eq!(ui.step(UiEvent::Read(Input::Other), 0), UiAction::TakeMessage);
}

#[test]
fn round_of_the_user_interface() {
    let mut ui = ui(0);
    assert_eq!(ui.step(UiEvent::Begun, 1), UiAction::TakeMessage);
    let message = PollMessage::LogLine("hello".to_string());
    assert_eq!(ui.step(UiEvent::Told(message), 2), UiAction::TakeMessage);
    assert_eq!(ui.app().logs().back().unwrap(), "hello");
    assert_eq!(ui.step(UiEvent::NothingTold, 3), UiAction::Draw);
    assert_eq!(ui.step(UiEvent::Drawn, 50), UiAction::WaitInput { nanos: TICK - 50 });
    assert_eq!(ui.step(UiEvent::Drawn, TICK), UiAction::WaitInput { nanos: 0 });
    assert_eq!(ui.step(UiEvent::Drawn, 3 * TICK), UiAction::WaitInput { nanos: 0 });
    assert_eq!(ui.step(UiEvent::Waited { input: true }, 60), UiAction::ReadInput);
    assert_eq!(ui.step(UiEvent::Waited { input: false }, 60), UiAction::TakeMessage);
    assert_eq!(ui.step(UiEvent::RefreshSent(true), 70), UiAction::TakeMessage);
    assert_eq!(ui.app().logs().back().unwrap(), "manual refresh requested");
    assert_eq!(ui.step(UiEvent::RefreshSent(false), 80), UiAction::TakeMessage);
    assert_eq!(
        ui.app().message(),
        "Refresh failed because the poller is no longer running."
    );
}

#[test]
fn ticks_come_at_their_time() {
    let mut ui = ui(0);
    let late = 6_000_000_000;
    ui.step(UiEvent::Waited { input: false }, TICK - 1);
    assert_eq!(ui.step(UiEvent::Drawn, TICK - 1), UiAction::WaitInput { nanos: 1 });
    ui.step(UiEvent::Waited { input: false }, late);
    assert!(ui.app().message().starts_with("Still waiting for http://miner"));
    assert_eq!(ui.step(UiEvent::Drawn, late), UiAction::WaitInput { nanos: TICK });
}

#[test]
fn poller_makes_a_client_first() {
    let mut poller = Poller::new(config());
    match poller.step(PollEvent::Started) {
        PollAction::BuildClient { timeout_secs, user_agent } => {
            assert_eq!((timeout_secs, user_agent), (4, "axetui/0.1"));
        }
        other => panic!("{other:?}"),
    }
    match poller.step(PollEvent::ClientFailed("tls".to_string())) {
        PollAction::Farewell(text) => assert_eq!(text, "HTTP client setup failed: tls"),
        other => panic!("{other:?}"),
    }
}

#[test]
fn poller_asks_for_the_chip_once() {
    let mut poller = Poller::new(config());
    match poller.step(PollEvent::ClientReady) {
        PollAction::GetSystemInfo(url) => assert_eq!(url, "http://miner/api/system/info"),
        other => panic!("{other:?}"),
    }
    let kept = match poller.step(PollEvent::GotSystemInfo(report())) {
        PollAction::GetAsic(url, kept) => {
            assert_eq!(url, "http://miner/api/system/asic");
            kept
        }
        other => panic!("{other:?}"),
    };
    let asic = AsicInfo { frequency_options: vec![Reading::whole(600), Reading::whole(400)] };
    for event in [PollEvent::GotAsic(kept, asic), PollEvent::GotSystemInfo(report())] {
        match poller.step(event) {
            PollAction::PublishSnapshot(snapshot) => {
                assert_eq!(snapshot.max_frequency, Reading::whole(600));
                assert_eq!(snapshot.power, Reading::whole(14));
                assert_eq!(snapshot.stratum_user, "worker");
            }
            other => panic!("{other:?}"),
        }
    }
}

#[test]
fn poller_tells_of_failures() {
    let cases = [
        (FetchStage::Request, "system info request failed: boom", "ASIC request failed: boom"),
        (FetchStage::Response, "system info response failed: boom", "ASIC response failed: boom"),
        (FetchStage::Json, "system info JSON failed: boom", "ASIC JSON failed: boom"),
    ];
    let mut poller = Poller::new(config());
    for (stage, system, asic) in cases {
        match poller.step(PollEvent::SystemInfoFailed(failed(stage))) {
            PollAction::PublishError(text) => assert_eq!(text, system),
            other => panic!("{other:?}"),
        }
        match poller.step(PollEvent::AsicFailed(failed(stage))) {
            PollAction::PublishError(text) => assert_eq!(text, asic),
            other => panic!("{other:?}"),
        }
    }
    assert!(matches!(
        poller.step(PollEvent::GotSystemInfo(report())),
        PollAction::GetAsic(_, _)
    ));
}

#[test]
fn poller_waits_between_polls() {
    let mut poller = Poller::new(config());
    assert!(matches!(poller.step(PollEvent::Sent(true)), PollAction::Wait { secs: 3 }));
    assert!(matches!(poller.step(PollEvent::Sent(false)), PollAction::Stop));
    for end in [WaitEnd::Refresh, WaitEnd::Timeout] {
        assert!(matches!(poller.step(PollEvent::Waited(end)), PollAction::GetSystemInfo(_)));
    }
    assert!(matches!(
        poller.step(PollEvent::Waited(WaitEnd::Disconnected)),
        PollAction::Stop
    ));
}

fn status(action: LogAction) -> (String, AfterSend) {
    match action {
        LogAction::Send(PollMessage::LogStatus(text), then) => (text, then),
        other => panic!("{other:?}"),
    }
}

fn line(action: LogAction) -> String {
    match action {
        LogAction::Send(PollMessage::LogLine(text), AfterSend::Read) => text,
        other => panic!("{other:?}"),
    }
}

fn bytes(raw: &[u8]) -> LogAction {
    log_step(&config(), LogEvent::Received(Frame::Binary(raw.to_vec())))
}

#[test]
fn log_stream_is_opened_and_announced() {
    match log_step(&config(), LogEvent::Woke) {
        LogAction::Connect(url) => assert_eq!(url, "ws://miner/api/ws"),
        other => panic!("{other:?}"),
    }
    assert_eq!(
        status(log_step(&config(), LogEvent::Connected)),
        ("ws connected to ws://miner/api/ws".to_string(), AfterSend::Read)
    );
    assert_eq!(
        status(log_step(&config(), LogEvent::ConnectFailed("refused".to_string()))),
        ("ws connect failed: refused; retrying".to_string(), AfterSend::Wait)
    );
}

#[test]
fn log_messages_are_forwarded() {
    let text = Frame::Text(" as it is \n".to_string());
    assert_eq!(line(log_step(&config(), LogEvent::Received(text))), " as it is \n");
    assert_eq!(line(bytes(b"  share accepted\r\n")), "share accepted");
    assert_eq!(line(bytes(b"a\xffb")), "a\u{fffd}b");
    assert_eq!(line(bytes("gr\u{fc}n".as_bytes())), "gr\u{fc}n");
    assert!(matches!(bytes(b" \t\r\n"), LogAction::Read));
    assert!(matches!(bytes(b""), LogAction::Read));
    assert!(matches!(forward_bytes_as("  "), LogAction::Read));
    assert_eq!(line(forward_bytes_as(" x ")), "x");
    assert!(matches!(
        log_step(&config(), LogEvent::Received(Frame::Other)),
        LogAction::Read
    ));
}

#[test]
fn lost_log_stream_is_opened_again() {
    let closed = log_step(&config(), LogEvent::Received(Frame::Close));
    assert_eq!(
        status(closed),
        ("ws closed by Bitaxe, retrying".to_string(), AfterSend::WaitAnyway)
    );
    let broken = log_step(&config(), LogEvent::ReadFailed("reset".to_string()));
    assert_eq!(
        status(broken),
        ("ws error: reset; reconnecting".to_string(), AfterSend::WaitAnyway)
    );
    let after = |then, sent| log_step(&config(), LogEvent::Sent(then, sent));
    assert!(matches!(after(AfterSend::Read, true), LogAction::Read));
    assert!(matches!(after(AfterSend::Read, false), LogAction::Stop));
    assert!(matches!(after(AfterSend::Wait, false), LogAction::Stop));
    for action in [
        after(AfterSend::Wait, true),
        after(AfterSend::WaitAnyway, true),
        after(AfterSend::WaitAnyway, false),
    ] {
        assert!(matches!(action, LogAction::Sleep { secs: RECONNECT_SECS }));
    }
    assert_eq!(RECONNECT_SECS, 2);
}

#[test]
fn placeholder_is_what_a_fresh_interface_shows() {
    let ui = ui(0);
    assert_eq!(ui.app().snapshot().max_power, BitaxeSnapshot::placeholder().max_power);
}

#[test]
fn dashboard_keeps_its_bounds_however_long_it_runs() {
    let mut ui = ui(0);
    let address = ui.app().base_url().to_string();
    for i in 0..100u64 {
        let now = i * TICK;
        ui.step(UiEvent::Told(PollMessage::LogLine(format!("line {i}"))), now);
        ui.step(UiEvent::Drawn, now);
        ui.step(UiEvent::Waited { input: i % 2 == 0 }, now);
        ui.step(UiEvent::Read(Input::Key(Key::Char('r'), KeyMotion::Press)), now);
        ui.step(UiEvent::RefreshSent(i % 3 == 0), now);
        assert!((1..=14).contains(&ui.app().logs().len()));
        assert_eq!(ui.app().hashrate_spark().len(), 1);
        assert_eq!(ui.app().base_url(), address);
    }
    assert_eq!(ui.app().logs()[12], "line 99");
    assert_eq!(ui.app().logs()[13], "manual refresh requested");
    assert_eq!(ui.app().message(), "Manual refresh sent to the Bitaxe poller.");
    ui.step(UiEvent::RefreshSent(true), 100 * TICK);
    let waiting = format!("Still waiting for {address} to answer /api/system/info.");
    assert_eq!(ui.app().message(), waiting);
}
