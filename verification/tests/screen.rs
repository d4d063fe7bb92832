use axetui::config::Config;
use axetui::layout::{
    columns, frame_areas, header_areas, inner_area, main_areas, meter_areas, meter_lines,
    name_and_value, Area,
};
use axetui::meters::{
    fan_meters, heat_meters, meter_groups, meter_row, meter_slots, meter_value_width, place_meter,
    power_meters, Meter, MeterRow,
};
use axetui::panes::{
    compact_session_line, footer_line, hashrate_stats, header_title, log_color, log_pane,
    panel_title, session_line, status_pane, Pane,
};
use axetui::reading::Reading;
use axetui::snapshot::{BitaxeSnapshot, Figures, Limits, RejectedReason, Rendered};
use axetui::state::{App, PollMessage, SECOND};
use axetui::theme::{gauge_track, Color, Span, Theme};
use ratatui::layout::{Constraint, Layout, Rect};

fn r(value: f32) -> Reading {
    Reading { bits: value.to_bits() }
}

fn rendered() -> Rendered {
    Rendered {
        limits: Limits { hot: Reading::whole(68), slow: Reading::whole(0) },
        figures: Figures {
            temp: "55.5".to_string(),
            temp_target: "60".to_string(),
            hashrate: "1203.6".to_string(),
            expected_hashrate: "1224.0".to_string(),
            response_time: "31".to_string(),
            free_heap: "8.0".to_string(),
        },
    }
}

fn app_at(base_url: &str) -> App {
    App::new(Config { base_url: base_url.to_string() }, 0, rendered())
}

fn app() -> App {
    app_at("http://bitaxe.local")
}

fn texts(spans: &[Span]) -> Vec<&str> {
    spans.iter().map(|span| span.text.as_str()).collect()
}

fn area(x: u16, y: u16, width: u16, height: u16) -> Area {
    Area { x, y, width, height }
}

fn rect(a: Area) -> Rect {
    Rect { x: a.x, y: a.y, width: a.width, height: a.height }
}

#[test]
fn colours_of_the_theme() {
    let theme = Theme::default();
    assert_eq!(theme.bg, Color::Black);
    assert_eq!(theme.border, Color::Rgb(46, 66, 87));
    assert_eq!(theme.text, Color::Rgb(228, 233, 240));
    assert_eq!(theme.muted, Color::Rgb(129, 151, 171));
    assert_eq!(theme.accent, Color::Rgb(255, 168, 76));
    assert_eq!(theme.accent_soft, Color::Rgb(255, 204, 128));
    assert_eq!(theme.ok, Color::Rgb(99, 210, 140));
    assert_eq!(theme.warn, Color::Rgb(255, 122, 89));
    assert_eq!(theme.info, Color::Rgb(82, 177, 255));
    assert_eq!(gauge_track(), Color::Rgb(78, 85, 96));
}

#[test]
fn header_of_the_dashboard() {
    let theme = Theme::default();
    let title = header_title(&app(), theme);
    assert_eq!(
        texts(&title),
        vec![" BITAXE ", "live terminal dashboard", "  ", "connecting"]
    );
    assert!(title[0].bold && title[0].fg == Some(theme.accent));
    assert_eq!(title[2].fg, None);
    assert_eq!(title[3].fg, Some(theme.info));
}

#[test]
fn session_of_the_dashboard() {
    let full = "bitaxe.local | Mining | no data yet";
    let line = compact_session_line(&app(), 46, 0);
    assert_eq!(line.text, full);
    assert_eq!(line.fg, Some(Color::Rgb(255, 204, 128)));
    assert_eq!(compact_session_line(&app(), 10, 0).text, "bitaxe.lo…");
    assert_eq!(session_line(&app(), 12, 0).text, "bitaxe.lo…");
    assert_eq!(session_line(&app(), 1, 0).text, "");
    let both = compact_session_line(&app_at("http://https://https://x"), 99, 0);
    assert_eq!(both.text, "x | Mining | no data yet");
    let other_way = compact_session_line(&app_at("https://http://x"), 99, 0);
    assert_eq!(other_way.text, "http://x | Mining | no data yet");
}

#[test]
fn figures_of_the_dashboard() {
    let theme = Theme::default();
    let lines = hashrate_stats(&app(), theme);
    assert_eq!(lines.len(), 3);
    assert_eq!(texts(&lines[0]), vec!["Current", "  ", "1203.6 GH/s"]);
    assert!(lines[0][2].bold);
    assert_eq!(texts(&lines[1]), vec!["Best Diff", "  ", "n/a"]);
    assert_eq!(texts(&lines[2]), vec!["Network Diff", "  ", "n/a"]);
    assert_eq!(lines[2][0].fg, Some(theme.muted));
    assert!(!lines[2][2].bold);
}

#[test]
fn status_of_the_device() {
    let theme = Theme::default();
    let mut app = app();
    let mut snapshot = BitaxeSnapshot::placeholder();
    snapshot.stratum_url = "pool".to_string();
    snapshot.stratum_user = "me".to_string();
    snapshot.wifi_status = "Connected!".to_string();
    snapshot.wifi_rssi = -61;
    snapshot.shares_accepted = 120;
    snapshot.shares_rejected = 3;
    snapshot.share_reasons = vec![RejectedReason { message: "Stale".to_string(), count: 2 }];
    app.handle_poll_message(PollMessage::Snapshot(snapshot, rendered()), 0);
    let lines = status_pane(&app, theme);
    let values: Vec<Vec<&str>> = lines.iter().map(|line| texts(line)).collect();
    assert_eq!(values[0], vec!["Pool", "  ", "pool"]);
    assert_eq!(values[1], vec!["Worker", "  ", "me"]);
    assert_eq!(values[2], vec!["Latency", "  ", "31 ms"]);
    assert_eq!(values[3], vec!["WiFi", "  ", "Connected! | -61 dBm"]);
    assert_eq!(values[4], vec!["Shares", "  ", "120 accepted / 3 rejected / 2 stale"]);
    assert_eq!(values[5], vec!["Heap", "  ", "8.0 MB free"]);
    assert!(values[6].is_empty());
    assert_eq!(
        values[7],
        vec!["Mining normally at 1203.6 GH/s with 31 ms pool latency."]
    );
    assert!(lines[0][2].bold);
    assert_eq!(lines[2][2].fg, Some(theme.accent_soft));
}

#[test]
fn colours_of_log_lines() {
    let theme = Theme::default();
    for (line, color) in [
        ("share accepted by pool", theme.ok),
        ("found block!", theme.ok),
        ("ws connected to x", theme.ok),
        ("stratum: new job", theme.info),
        ("ws error: reset; reconnecting", theme.info),
        ("subscribed", theme.info),
        ("api error: timeout", theme.warn),
        ("warn low voltage", theme.warn),
        ("tick", theme.muted),
        ("", theme.muted),
    ] {
        assert_eq!(log_color(line, theme), color, "{line}");
    }
}

#[test]
fn newest_log_lines_are_shown() {
    let theme = Theme::default();
    let mut app = app();
    for i in 0..9 {
        app.push_log(format!("pool line number {i}"));
    }
    let lines = log_pane(&app, 12, 5, theme);
    let shown: Vec<Vec<&str>> = lines.iter().map(|line| texts(line)).collect();
    assert_eq!(shown, vec![vec!["pool line…"], vec!["pool line…"], vec!["pool line…"]]);
    let wide = log_pane(&app, 80, 4, theme);
    assert_eq!(texts(&wide[0]), vec!["pool line number 7"]);
    assert_eq!(texts(&wide[1]), vec!["pool line number 8"]);
    assert_eq!(wide[1][0].fg, Some(theme.info));
    assert_eq!(log_pane(&app, 80, 2, theme).len(), 0);
    assert_eq!(log_pane(&app, 80, 0, theme).len(), 0);
    assert_eq!(log_pane(&app, 80, 100, theme).len(), 10);
}

#[test]
fn footer_of_the_dashboard() {
    let theme = Theme::default();
    let mut app = app();
    app.handle_poll_message(
        PollMessage::Snapshot(BitaxeSnapshot::placeholder(), rendered()),
        SECOND,
    );
    let line = footer_line(&app, theme, 8 * SECOND);
    assert_eq!(
        texts(&line),
        vec![" q ", " quit ", " r ", " refresh now ", " | ", "last poll 7s ago"]
    );
    assert_eq!((line[0].fg, line[0].bg), (Some(theme.bg), Some(theme.accent)));
    assert_eq!((line[2].fg, line[2].bg), (Some(theme.bg), Some(theme.info)));
    assert!(line[0].bold && line[2].bold && !line[1].bold);
}

#[test]
fn titles_of_panes() {
    let theme = Theme::default();
    let title = panel_title("Log", theme).unwrap();
    assert_eq!(title.text, " Log ");
    assert_eq!(title.fg, Some(theme.muted));
    assert!(panel_title("", theme).is_none());
    let titles = [
        (Pane::Node, "Node"),
        (Pane::Session, "Session"),
        (Pane::Hashrate, "Hashrate"),
        (Pane::HashrateStats, "Hashrate Stats"),
        (Pane::Status, "Bitaxe Status"),
        (Pane::Log, "Log"),
        (Pane::Controls, "Controls"),
    ];
    for (pane, words) in titles {
        assert_eq!(pane.title(), words);
    }
}

fn described(meters: &[Meter]) -> Vec<(&str, f32, u32, usize, &str, f32)> {
    meters
        .iter()
        .map(|m| {
            (
                m.label,
                f32::from_bits(m.shown.value.bits),
                m.shown.divisor,
                m.shown.decimals,
                m.unit,
                f32::from_bits(m.full.bits),
            )
        })
        .collect()
}

#[test]
fn meters_of_a_snapshot() {
    let mut s = BitaxeSnapshot::placeholder();
    s.power = r(14.5);
    s.max_power = r(25.0);
    s.input_voltage = r(5.25);
    s.frequency = r(525.0);
    s.max_frequency = r(0.5);
    s.current_amps = r(2.75);
    s.core_voltage_actual = r(1150.0);
    s.temp = r(55.0);
    s.vr_temp = r(48.0);
    s.error_percentage = r(0.5);
    s.fan_percent = r(43.0);
    s.fan_rpm = r(3200.0);
    assert_eq!(
        described(&power_meters(&s)),
        vec![
            ("Power", 14.5, 1, 1, "W", 25.0),
            ("Input Voltage", 5.25, 1, 2, "V", 5.5),
            ("ASIC Freq", 525.0, 1, 0, "MHz", 1.0),
            ("Current", 2.75, 1, 2, "A", 6.0),
            ("ASIC Voltage", 1150.0, 1000, 2, "V", 1500.0),
        ]
    );
    assert_eq!(
        described(&heat_meters(&s)),
        vec![
            ("ASIC Temp", 55.0, 1, 0, "C", 90.0),
            ("VRM Temp", 48.0, 1, 0, "C", 100.0),
            ("Temp Target", 60.0, 1, 0, "C", 90.0),
            ("Error Rate", 0.5, 1, 2, "%", 5.0),
        ]
    );
    assert_eq!(
        described(&fan_meters(&s)),
        vec![
            ("Fan Speed", 43.0, 1, 1, "%", 100.0),
            ("Fan RPM", 3200.0, 1, 0, "RPM", 7000.0),
        ]
    );
    let (power, heat, fan) = meter_groups(&s);
    assert_eq!((power.title, heat.title, fan.title), ("Power", "Heat", "Fan"));
    assert_eq!((power.meters.len(), heat.meters.len(), fan.meters.len()), (5, 4, 2));
    let row = meter_row(&power.meters[4], "1.15", r(0.75));
    assert_eq!((row.label.as_str(), row.value.as_str()), ("ASIC Voltage", "1.15 V"));
    assert_eq!(row.ratio, r(0.75));
}

fn row(label: &str, value: &str, ratio: f32) -> MeterRow {
    MeterRow::new(label, value.to_string(), r(ratio))
}

#[test]
fn width_of_the_values() {
    let rows = vec![row("a", "14.5 W", 0.1), row("b", "525 MHz…", 0.2)];
    assert_eq!(meter_value_width(&rows, 40), 9);
    assert_eq!(meter_value_width(&rows, 17), 9);
    assert_eq!(meter_value_width(&rows, 16), 8);
    assert_eq!(meter_value_width(&rows, 0), 8);
    assert_eq!(meter_value_width(&vec![], 40), 9);
    assert_eq!(meter_value_width(&vec![], 10), 8);
    let long = "x".repeat(65_535);
    assert_eq!(meter_value_width(&vec![row("a", &long, 0.0)], u16::MAX), 65_527);
    let wrapped = "x".repeat(65_539);
    assert_eq!(meter_value_width(&vec![row("a", &wrapped, 0.0)], 100), 4);
}

#[test]
fn places_of_meters() {
    let label_area = area(1, 1, 7, 1);
    let value_area = area(8, 1, 9, 1);
    let gauge_area = area(1, 2, 16, 1);
    let slot = place_meter(&row("Input Voltage", "5 V", 1.5), label_area, value_area, gauge_area);
    assert_eq!(slot.label, "Input…");
    assert_eq!(slot.fill, Reading::whole(1));
    assert_eq!((slot.label_area, slot.value_area), (label_area, value_area));
    assert_eq!(slot.gauge_area, gauge_area);
    let low = place_meter(&row("x", "", -0.5), area(0, 0, 0, 0), value_area, gauge_area);
    assert_eq!((low.label.as_str(), low.fill), ("", Reading::whole(0)));
    let within = place_meter(&row("x", "", 0.25), label_area, value_area, gauge_area);
    assert_eq!(within.fill, r(0.25));
}

#[test]
fn screen_is_split_as_the_constraints_say() {
    let whole = area(0, 0, 120, 50);
    let bands = frame_areas(whole);
    let expected = Layout::vertical([
        Constraint::Length(3),
        Constraint::Min(20),
        Constraint::Length(12),
        Constraint::Length(4),
    ])
    .split(rect(whole));
    let got = [bands.header, bands.main, bands.log, bands.footer].map(rect);
    assert_eq!(expected[..], got[..]);
    assert_eq!(bands.header, area(0, 0, 120, 3));
    assert_eq!(bands.main, area(0, 3, 120, 31));
    assert_eq!(bands.footer, area(0, 46, 120, 4));

    let (title, session) = header_areas(bands.header);
    assert_eq!((title, session), (area(0, 0, 72, 3), area(72, 0, 48, 3)));

    let panes = main_areas(bands.main);
    let rows = Layout::vertical([Constraint::Min(12), Constraint::Length(7)])
        .spacing(1)
        .split(rect(bands.main));
    let top = Layout::horizontal([Constraint::Percentage(48), Constraint::Percentage(52)])
        .spacing(1)
        .split(rows[0]);
    assert_eq!(top[..], [rect(panes.chart), rect(panes.meters)][..]);
    assert_eq!(panes.stats.height, 7);
    assert_eq!(panes.status.height, 7);
    assert_eq!((panes.chart.y, panes.meters.y), (rows[0].y, rows[0].y));
    assert_eq!((panes.chart.height, panes.meters.height), (rows[0].height, rows[0].height));
    assert_eq!(panes.stats.y, panes.status.y);
    assert_eq!(columns(bands.main).0.height, bands.main.height);

    let (first, second, third) = meter_areas(area(0, 0, 62, 12));
    assert_eq!((first.x, first.width), (0, 20));
    assert_eq!((second.x, third.x), (21, 42));
    assert_eq!(third.height, 12);

    let (name, value) = name_and_value(area(3, 4, 30, 1), 9);
    assert_eq!((name, value), (area(3, 4, 21, 1), area(24, 4, 9, 1)));
}

#[test]
fn frames_leave_an_inner_area() {
    assert_eq!(inner_area(area(2, 3, 10, 8)), area(3, 4, 8, 6));
    assert_eq!(inner_area(area(0, 0, 1, 2)), area(1, 1, 0, 0));
    assert_eq!(inner_area(area(u16::MAX, 0, 3, 3)), area(u16::MAX, 1, 1, 1));
}

#[test]
fn meters_are_stacked_in_their_pane() {
    let rows = vec![row("Power", "14.5 W", 0.5), row("Input Voltage", "5.02 V", 0.9)];
    let lines = meter_lines(area(1, 1, 20, 10), 2);
    assert_eq!(lines.len(), 4);
    assert_eq!(lines[0], area(1, 1, 20, 1));
    assert_eq!(lines[3].y, 4);
    let slots = meter_slots(area(0, 0, 22, 12), &rows);
    assert_eq!(slots.len(), 2);
    assert_eq!(slots[0].label_area, area(1, 1, 13, 1));
    assert_eq!(slots[0].value_area, area(14, 1, 7, 1));
    assert_eq!(slots[0].gauge_area, area(1, 2, 20, 1));
    assert_eq!(slots[1].gauge_area, lines[3]);
    assert_eq!(slots[0].label, "Power");
    assert_eq!(slots[1].label, "Input Volta…");
    assert_eq!(slots[1].fill, r(0.9));
    assert!(meter_slots(area(0, 0, 22, 12), &vec![]).is_empty());
}

fn is_inside(part: Area, whole: Area) -> bool {
    let end = |start: u16, length: u16| u32::from(start) + u32::from(length);
    whole.x <= part.x
        && end(part.x, part.width) <= end(whole.x, whole.width)
        && whole.y <= part.y
        && end(part.y, part.height) <= end(whole.y, whole.height)
}

fn assert_parts_are_inside(screen: Area) {
    let rows = vec![
        row("Power", "14.5 W", 0.5),
        row("Input Voltage", "5.02 V", 0.9),
        row("Fan", "1234567890 RPM", 2.0),
    ];
    let bands = frame_areas(screen);
    let panes = main_areas(bands.main);
    let (title, session) = header_areas(bands.header);
    let (first, second, third) = meter_areas(panes.meters);
    let groups = [first, second, third];
    for part in [bands.header, bands.main, bands.log, bands.footer, title, session] {
        assert!(is_inside(part, screen), "{part:?} in {screen:?}");
    }
    for part in [panes.chart, panes.meters, panes.stats, panes.status] {
        assert!(is_inside(part, bands.main), "{part:?} in {screen:?}");
    }
    for group in groups {
        assert!(is_inside(group, panes.meters), "{group:?} in {screen:?}");
        for slot in meter_slots(group, &rows) {
            for part in [slot.label_area, slot.value_area, slot.gauge_area] {
                assert!(is_inside(part, inner_area(group)), "{part:?} in {group:?}");
                let empty = group.width == 0 || group.height == 0;
                assert!(empty || is_inside(part, screen), "{part:?} in {screen:?}");
            }
        }
    }
}

#[test]
fn parts_lie_inside_the_screen() {
    for width in [0, 1, 2, 3, 7, 16, 31, 48, 79, 80, 81, 120, 203] {
        for height in [0, 1, 2, 3, 5, 11, 19, 24, 39, 40, 57] {
            for (x, y) in [(0, 0), (5, 3)] {
                assert_parts_are_inside(area(x, y, width, height));
            }
        }
    }
}

#[test]
fn parts_lie_inside_an_area_at_the_edge() {
    let end = u16::MAX;
    for screen in [
        area(0, 0, end, end),
        area(end - 80, end - 40, 80, 40),
        area(end - 10, end - 10, 80, 40),
        area(end, end, 0, 0),
        area(end, end, 3, 3),
    ] {
        assert_parts_are_inside(screen);
    }
}
