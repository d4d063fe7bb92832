use axetui::config::Config;
use axetui::metric::MetricValue;
use axetui::reading::Reading;
use axetui::snapshot::{
    default_max_power, default_temp_target, AsicInfo, BitaxeSnapshot, Derived, Figures, Limits,
    RejectedReason, Rendered, SystemInfo,
};
use axetui::state::{App, PollMessage, HISTORY_CAP, LOG_CAP, SECOND};

fn r(value: f32) -> Reading {
    Reading { bits: value.to_bits() }
}

fn v(reading: Reading) -> f32 {
    f32::from_bits(reading.bits)
}

fn info() -> SystemInfo {
    SystemInfo {
        power: r(14.2),
        voltage: r(5023.0),
        current: r(2800.0),
        temp: r(55.5),
        vr_temp: r(48.0),
        max_power: r(25.0),
        hash_rate: r(1203.6),
        expected_hashrate: r(1224.0),
        error_percentage: r(0.4),
        best_diff: MetricValue::Text("4.29G".to_string()),
        network_difficulty: MetricValue::Null,
        is_using_fallback_stratum: 0,
        core_voltage_actual: r(1150.0),
        frequency: r(525.0),
        wifi_status: "Connected!".to_string(),
        wifi_rssi: -61,
        shares_accepted: 120,
        shares_rejected: 3,
        shares_rejected_reasons: vec![
            RejectedReason { message: "Above target".to_string(), count: 1 },
            RejectedReason { message: "STALE".to_string(), count: 2 },
            RejectedReason { message: "stale".to_string(), count: 9 },
        ],
        stratum_url: "pool.example".to_string(),
        stratum_user: "worker".to_string(),
        response_time: r(31.4),
        temptarget: r(60.0),
        fanspeed: r(43.0),
        fanrpm: r(3200.0),
        free_heap: 8_388_608,
    }
}

fn derived() -> Derived {
    Derived {
        input_voltage: r(5.023),
        current_amps: r(2.8),
        free_heap_mb: r(8.0),
        best_diff: String::new(),
        network_difficulty: String::new(),
    }
}

fn asic(options: &[f32]) -> AsicInfo {
    AsicInfo { frequency_options: options.iter().copied().map(r).collect() }
}

fn snapshot_of(info: SystemInfo) -> BitaxeSnapshot {
    BitaxeSnapshot::from_api(info, &asic(&[400.0, 575.0, 550.0]), derived())
}

fn rendered(s: &BitaxeSnapshot) -> Rendered {
    Rendered {
        limits: Limits {
            hot: r(v(s.temp_target) + 8.0),
            slow: r(v(s.expected_hashrate) * 0.85),
        },
        figures: Figures {
            temp: format!("{:.1}", v(s.temp)),
            temp_target: format!("{:.0}", v(s.temp_target)),
            hashrate: format!("{:.1}", v(s.hashrate)),
            expected_hashrate: format!("{:.1}", v(s.expected_hashrate)),
            response_time: format!("{:.0}", v(s.response_time_ms)),
            free_heap: format!("{:.1}", v(s.free_heap_mb)),
        },
    }
}

fn told(s: BitaxeSnapshot) -> PollMessage {
    let shown = rendered(&s);
    PollMessage::Snapshot(s, shown)
}

fn app() -> App {
    let config = Config { base_url: "http://bitaxe.local".to_string() };
    App::new(config, 0, rendered(&BitaxeSnapshot::placeholder()))
}

#[test]
fn placeholder_snapshot() {
    let s = BitaxeSnapshot::placeholder();
    assert_eq!(v(s.max_power), 40.0);
    assert_eq!(v(s.temp_target), 60.0);
    assert_eq!(v(s.expected_hashrate), 1.0);
    assert_eq!(v(s.max_frequency), 1.0);
    assert_eq!(v(s.hashrate), 0.0);
    assert_eq!(s.best_diff, "n/a");
    assert_eq!(s.network_difficulty, "n/a");
    assert_eq!(s.wifi_status, "unknown");
    assert_eq!(s.stratum_user, "n/a");
    assert_eq!(s.stratum_url, "");
    assert_eq!(s.pool_label(), "n/a");
    assert_eq!(s.stale_shares(), 0);
    assert_eq!(v(default_max_power()), 40.0);
    assert_eq!(v(default_temp_target()), 60.0);
}

#[test]
fn snapshot_of_a_report() {
    let s = snapshot_of(info());
    assert_eq!(v(s.power), 14.2);
    assert_eq!(v(s.max_power), 25.0);
    assert_eq!(v(s.input_voltage), 5.023);
    assert_eq!(v(s.current_amps), 2.8);
    assert_eq!(v(s.max_frequency), 575.0);
    assert_eq!(v(s.free_heap_mb), 8.0);
    assert_eq!(s.best_diff, "4.29G");
    assert_eq!(s.network_difficulty, "n/a");
    assert_eq!(s.shares_accepted, 120);
    assert_eq!(s.shares_rejected, 3);
    assert_eq!(s.stale_shares(), 2);
    assert_eq!(s.wifi_rssi, -61);
    assert!(!s.is_using_fallback_stratum);
    assert_eq!(s.pool_label(), "pool.example");
}

#[test]
fn report_out_of_range_is_brought_into_range() {
    let mut report = info();
    report.temp = r(-1.0);
    report.vr_temp = r(-300.0);
    report.max_power = r(0.0);
    report.temptarget = r(0.5);
    report.hash_rate = r(-5.0);
    report.expected_hashrate = r(0.0);
    report.error_percentage = r(f32::NAN);
    report.response_time = r(-1.0);
    report.frequency = r(-2.0);
    report.core_voltage_actual = r(-1.0);
    report.fanspeed = r(130.0);
    report.fanrpm = r(-1.0);
    report.is_using_fallback_stratum = 7;
    let s = BitaxeSnapshot::from_api(report, &asic(&[]), derived());
    for (reading, expected) in [
        (s.temp, 0.0),
        (s.vr_temp, 0.0),
        (s.max_power, 1.0),
        (s.temp_target, 1.0),
        (s.hashrate, 0.0),
        (s.expected_hashrate, 1.0),
        (s.error_percentage, 0.0),
        (s.response_time_ms, 0.0),
        (s.frequency, 0.0),
        (s.max_frequency, 1.0),
        (s.core_voltage_actual, 0.0),
        (s.fan_percent, 100.0),
        (s.fan_rpm, 0.0),
    ] {
        assert_eq!(v(reading), expected);
    }
    assert!(s.is_using_fallback_stratum);
    assert_eq!(s.pool_label(), "pool.example (fallback)");
    let mut slow_fan = info();
    slow_fan.fanspeed = r(-3.0);
    assert_eq!(v(snapshot_of(slow_fan).fan_percent), 0.0);
    let s = BitaxeSnapshot::from_api(info(), &asic(&[]), derived());
    assert_eq!(v(s.max_frequency), 525.0);
}

#[test]
fn what_has_to_be_computed() {
    let report = info();
    let needed = report.derived_needed();
    assert_eq!((v(needed.input_voltage.dividend), needed.input_voltage.divisor), (5023.0, 1000));
    assert_eq!((v(needed.current_amps.dividend), needed.current_amps.divisor), (2800.0, 1000));
    assert_eq!(needed.free_heap_mb.dividend, 8_388_608);
    assert_eq!(needed.free_heap_mb.divisor, 1_048_576);
    assert!(needed.best_diff.is_none() && needed.network_difficulty.is_none());
    let s = snapshot_of(report);
    let figures = s.figures_needed();
    assert_eq!((v(figures.temp.value), figures.temp.decimals), (55.5, 1));
    assert_eq!(figures.temp_target.decimals, 0);
    assert_eq!(figures.response_time.decimals, 0);
    assert_eq!(figures.free_heap.divisor, 1);
    let limits = s.limits_needed();
    assert_eq!((v(limits.temp_target), limits.margin), (60.0, 8));
    assert_eq!((v(limits.expected_hashrate), limits.percent), (1224.0, 85));
}

#[test]
fn summary_of_a_snapshot() {
    let message = |report: SystemInfo| {
        let s = snapshot_of(report);
        let shown = rendered(&s);
        s.summary_message(&shown)
    };
    assert_eq!(
        message(info()),
        "Mining normally at 1203.6 GH/s with 31 ms pool latency."
    );
    let mut slow = info();
    slow.hash_rate = r(900.0);
    assert_eq!(message(slow), "Hashrate 900.0 GH/s is below expected 1224.0 GH/s.");
    let mut fallback = info();
    fallback.hash_rate = r(900.0);
    fallback.is_using_fallback_stratum = 1;
    assert_eq!(
        message(fallback),
        "Primary pool unavailable, mining on fallback pool.example."
    );
    let mut hot = info();
    hot.temp = r(68.5);
    hot.is_using_fallback_stratum = 1;
    assert_eq!(message(hot), "ASIC is running hot at 68.5C, above the 60C target.");
    let mut just_below = info();
    just_below.temp = r(68.0);
    assert!(message(just_below).starts_with("Mining normally"));
}

#[test]
fn fresh_dashboard() {
    let app = app();
    assert_eq!(app.base_url(), "http://bitaxe.local");
    assert_eq!(app.connection_label(), "connecting");
    assert_eq!(app.connection_detail(9 * SECOND), "waiting for first successful poll");
    assert_eq!(app.last_update_text(0), "no data yet");
    assert_eq!(app.status_text(), "Mining");
    assert_eq!(app.message(), "Connecting to Bitaxe API and waiting for telemetry.");
    assert_eq!(app.logs().len(), 1);
    assert_eq!(app.logs()[0], "waiting for Bitaxe websocket log stream...");
    assert_eq!(app.hashrate_spark().len(), 1);
    assert_eq!(app.hashrate_peak(), 0);
    assert_eq!(App::hashrate_scale_max(0), 1);
    assert_eq!(App::hashrate_scale_max(2160), 2160);
}

#[test]
fn successful_poll() {
    let mut app = app();
    app.handle_poll_message(PollMessage::Error("timeout".to_string()), SECOND);
    assert_eq!(app.connection_label(), "degraded");
    assert_eq!(app.status_text(), "API Error");
    app.handle_poll_message(told(snapshot_of(info())), 2 * SECOND);
    assert_eq!(app.connection_label(), "connected");
    assert_eq!(app.status_text(), "Mining");
    assert_eq!(app.connection_detail(5 * SECOND + 1), "last poll 3s ago");
    assert_eq!(app.last_update_text(4 * SECOND - 1), "updated 1s ago");
    assert_eq!(app.last_update_text(SECOND), "updated 0s ago");
    assert_eq!(app.hashrate_spark().iter().copied().collect::<Vec<_>>(), vec![0, 1204]);
    assert_eq!(app.hashrate_peak(), 1204);
    assert_eq!(app.message(), "Mining normally at 1203.6 GH/s with 31 ms pool latency.");
    assert_eq!(app.snapshot().best_diff, "4.29G");
    assert_eq!(app.rendered().figures.hashrate, "1203.6");
}

#[test]
fn failed_poll_keeps_the_snapshot() {
    let mut app = app();
    app.handle_poll_message(told(snapshot_of(info())), SECOND);
    app.handle_poll_message(PollMessage::Error("no route".to_string()), 2 * SECOND);
    assert_eq!(app.message(), "API poll failed: no route");
    assert_eq!(app.connection_detail(3 * SECOND), "last error: no route");
    assert_eq!(app.logs().back().unwrap(), "api error: no route");
    assert_eq!(app.snapshot().stratum_user, "worker");
    assert_eq!(app.hashrate_spark().len(), 2);
    assert_eq!(app.last_update_text(3 * SECOND), "updated 2s ago");
}

#[test]
fn states_of_the_device() {
    let mut hot = info();
    hot.temp = r(70.0);
    hot.is_using_fallback_stratum = 1;
    let mut app = app();
    app.handle_poll_message(told(snapshot_of(hot)), 0);
    assert_eq!(app.status_text(), "Hot");
    let mut fallback = info();
    fallback.is_using_fallback_stratum = 1;
    app.handle_poll_message(told(snapshot_of(fallback)), 0);
    app.handle_poll_message(PollMessage::Error("x".to_string()), 0);
    assert_eq!(app.status_text(), "Fallback Pool");
}

#[test]
fn newest_lines_and_hashrates_are_kept() {
    let mut app = app();
    for i in 0..30 {
        app.handle_poll_message(PollMessage::LogLine(format!("\u{1b}[1mline {i}\r\n")), 0);
    }
    assert_eq!(app.logs().len(), LOG_CAP);
    assert_eq!(app.logs()[0], "line 16");
    assert_eq!(app.logs()[13], "line 29");
    app.handle_poll_message(PollMessage::LogStatus(" ws connected\t".to_string()), 0);
    assert_eq!(app.logs()[13], "ws connected");
    for i in 0..200u16 {
        let mut report = info();
        report.hash_rate = r(f32::from(i));
        app.handle_poll_message(told(snapshot_of(report)), 0);
    }
    assert_eq!(app.hashrate_spark().len(), HISTORY_CAP);
    assert_eq!(app.hashrate_spark()[0], 80);
    assert_eq!(app.hashrate_spark()[119], 199);
    assert_eq!(app.hashrate_peak(), 199);
    let top = App::hashrate_scale_max(359);
    assert!(app.hashrate_spark().iter().all(|rate| *rate <= top));
}

#[test]
fn ticks_tell_of_waiting_only_before_the_first_answer() {
    let mut waiting = app();
    waiting.on_tick(5 * SECOND);
    assert_eq!(waiting.message(), "Connecting to Bitaxe API and waiting for telemetry.");
    waiting.on_tick(5 * SECOND + 1);
    assert_eq!(
        waiting.message(),
        "Still waiting for http://bitaxe.local to answer /api/system/info."
    );
    let mut answered = app();
    answered.handle_poll_message(told(snapshot_of(info())), SECOND);
    let before = answered.message().to_string();
    answered.on_tick(60 * SECOND);
    assert_eq!(answered.message(), before);
}

#[test]
fn manual_refresh() {
    let mut app = app();
    app.request_refresh(true);
    assert_eq!(app.logs().back().unwrap(), "manual refresh requested");
    assert_eq!(app.message(), "Manual refresh sent to the Bitaxe poller.");
    app.request_refresh(false);
    assert_eq!(
        app.logs().back().unwrap(),
        "warn refresh request failed; poller offline"
    );
    assert_eq!(
        app.message(),
        "Refresh failed because the poller is no longer running."
    );
    app.push_log("own line".to_string());
    assert_eq!(app.logs().len(), 4);
}

#[test]
fn history_and_log_keep_their_bounds_whatever_happens() {
    let mut app = app();
    let address = app.base_url().to_string();
    let mut polls: usize = 0;
    for i in 0..595u64 {
        match i % 5 {
            0 => app.request_refresh(i % 2 == 0),
            1 => app.on_tick(i * SECOND),
            2 => app.handle_poll_message(PollMessage::Error(format!("error {i}")), i),
            3 => app.handle_poll_message(PollMessage::LogLine(format!("line {i}")), i),
            _ => {
                app.handle_poll_message(told(snapshot_of(info())), i);
                polls += 1;
            }
        }
        assert_eq!(app.hashrate_spark().len(), HISTORY_CAP.min(1 + polls));
        assert!((1..=LOG_CAP).contains(&app.logs().len()));
        assert_eq!(app.base_url(), address);
    }
    assert_eq!((app.hashrate_spark().len(), app.hashrate_spark()[0]), (HISTORY_CAP, 0));
    app.handle_poll_message(told(snapshot_of(info())), 595);
    assert_eq!((polls, app.hashrate_spark()[0]), (119, 1204));
    assert_eq!(app.logs().back().unwrap(), "line 593");
}
