use axetui::config::{help_lines, Config, Startup};
use axetui::log_line::sanitize_log_line;
use axetui::text::{
    chars_of, clip_text, contains, decimal_text, eq_ignore_case, fit_label, is_control,
    is_white_space, same_text, signed_decimal_text, starts_with, strip_prefix, trim,
    trim_end_matches, trim_start_matches,
};

const SAMPLES: [&str; 12] = [
    "",
    " ",
    "a",
    "http://",
    "http://http://bitaxe.local",
    "https://http://x",
    "  padded\t",
    "\u{3000}wide\u{2003}",
    "Stale",
    "STALE shares",
    "naïve … text",
    "//path//",
];

#[test]
fn character_classes_agree_with_unicode() {
    for n in 0..=0x10ffffu32 {
        if let Some(c) = char::from_u32(n) {
            assert_eq!(is_control(c), c.is_control(), "{n:x}");
            assert_eq!(is_white_space(c), c.is_whitespace(), "{n:x}");
        }
    }
}

#[test]
fn characters_of_a_string() {
    assert_eq!(chars_of("aé…"), vec!['a', 'é', '…']);
    assert!(chars_of("").is_empty());
}

#[test]
fn searching_agrees_with_the_standard_library() {
    for whole in SAMPLES {
        let chars = chars_of(whole);
        for part in SAMPLES {
            assert_eq!(contains(&chars, part), whole.contains(part), "{whole:?} {part:?}");
            assert_eq!(starts_with(&chars, part), whole.starts_with(part));
            assert_eq!(strip_prefix(whole, part).as_deref(), whole.strip_prefix(part));
            assert_eq!(same_text(whole, part), whole == part);
            assert_eq!(eq_ignore_case(whole, part), whole.eq_ignore_ascii_case(part));
            if !part.is_empty() {
                assert_eq!(trim_start_matches(whole, part), whole.trim_start_matches(part));
            }
        }
        assert_eq!(trim(whole), whole.trim());
        assert_eq!(trim_end_matches(whole, '/'), whole.trim_end_matches('/'));
    }
    assert!(eq_ignore_case("sTaLe", "stale"));
    assert!(!eq_ignore_case("É", "é"));
    assert!(contains(&chars_of("a found block b"), "found block"));
}

#[test]
fn clipping() {
    assert_eq!(clip_text("hello", 5), "hello");
    assert_eq!(clip_text("hello!", 5), "hell…");
    assert_eq!(clip_text("hello", 2), "h…");
    assert_eq!(clip_text("hello", 1), "");
    assert_eq!(clip_text("hello", 0), "");
    assert_eq!(clip_text("h", 1), "h");
    assert_eq!(clip_text("äöüß", 3), "äö…");
    assert_eq!(fit_label("Input Voltage", 8), "Input V…");
    assert_eq!(fit_label("Power", 8), "Power");
}

#[test]
fn clipping_twice_is_clipping_once() {
    for s in SAMPLES {
        for limit in 0..20 {
            let once = clip_text(s, limit);
            assert!(once.chars().count() <= limit);
            assert_eq!(clip_text(&once, limit), once);
        }
    }
}

#[test]
fn numerals() {
    for n in [0u64, 7, 10, 99, 100, 1_234_567_890, u64::MAX] {
        assert_eq!(decimal_text(n), n.to_string());
    }
    for n in [0i32, 5, -5, -67, i32::MIN, i32::MAX] {
        assert_eq!(signed_decimal_text(n), n.to_string());
    }
}

#[test]
fn log_lines_lose_escape_sequences() {
    assert_eq!(sanitize_log_line("\u{1b}[0;32mI (123) ok\u{1b}[0m\r\n"), "I (123) ok");
    assert_eq!(sanitize_log_line("a\u{1b}b"), "ab");
    assert_eq!(sanitize_log_line("a\u{1b}[12"), "a");
    assert_eq!(sanitize_log_line("a\u{1b}["), "a");
    assert_eq!(sanitize_log_line("\u{1b}[1\u{1b}[2mx"), "2mx");
    assert_eq!(sanitize_log_line("a\u{1b}[~b\u{1b}[@c"), "abc");
}

#[test]
fn log_lines_lose_control_codes() {
    assert_eq!(sanitize_log_line("a\tb"), "a  b");
    assert_eq!(sanitize_log_line("\ta\t"), "a");
    assert_eq!(sanitize_log_line("one\ntwo\r"), "onetwo");
    assert_eq!(sanitize_log_line("x\u{0}y\u{7f}z\u{9b}"), "xyz");
    assert_eq!(sanitize_log_line("\u{a0} kept inside \u{3000}"), "kept inside");
    assert_eq!(sanitize_log_line(""), "");
    assert_eq!(sanitize_log_line("\u{1b}[31m \u{1b}[0m"), "");
}

#[test]
fn sanitizing_twice_changes_nothing() {
    for s in ["\u{1b}[1ma\tb\u{1b}[0m ", "  x  ", "\u{1b}\u{1b}[[m", "plain"] {
        let once = sanitize_log_line(s);
        assert_eq!(sanitize_log_line(&once), once);
        assert!(once.chars().all(|c| !c.is_control()));
        assert_eq!(once.trim(), once);
    }
}

fn base_url(first: Option<&str>, variable: Option<&str>) -> String {
    match Config::from_args(first.map(String::from), variable.map(String::from)) {
        Startup::Run(config) => config.base_url,
        Startup::Help => panic!("help"),
    }
}

#[test]
fn address_of_the_device() {
    assert_eq!(base_url(None, None), "http://bitaxe.local");
    assert_eq!(base_url(None, Some("http://192.168.1.19/")), "http://192.168.1.19");
    assert_eq!(base_url(Some("http://10.0.0.1"), Some("http://b")), "http://10.0.0.1");
    assert_eq!(base_url(Some("http://a///"), None), "http://a");
    assert_eq!(base_url(Some("/"), None), "");
    assert_eq!(base_url(Some("-help"), None), "-help");
}

#[test]
fn help_is_asked_for_by_the_first_argument() {
    for arg in ["--help", "-h"] {
        assert!(matches!(
            Config::from_args(Some(arg.to_string()), Some("http://b".to_string())),
            Startup::Help
        ));
    }
    assert_eq!(base_url(None, Some("--help")), "--help");
    assert_eq!(help_lines().len(), 12);
    assert_eq!(help_lines()[3], "  axetui [BITAXE_URL]");
    assert_eq!(help_lines()[11], "  r    refresh immediately");
}

#[test]
fn urls_below_the_address() {
    let url = |base: &str| Config { base_url: base.to_string() }.websocket_url();
    assert_eq!(url("http://bitaxe.local"), "ws://bitaxe.local/api/ws");
    assert_eq!(url("https://miner"), "wss://miner/api/ws");
    assert_eq!(url("ws://miner"), "ws://miner/api/ws");
    assert_eq!(url("wss://miner"), "wss://miner/api/ws");
    assert_eq!(url("192.168.1.19"), "ws://192.168.1.19/api/ws");
    assert_eq!(url(""), "ws:///api/ws");
    let config = Config { base_url: "http://m".to_string() };
    assert_eq!(config.system_info_url(), "http://m/api/system/info");
    assert_eq!(config.asic_url(), "http://m/api/system/asic");
}

#[test]
fn clipping_to_two_limits_is_clipping_to_the_smaller() {
    for s in SAMPLES {
        for m in 0..14 {
            for n in 0..14 {
                assert_eq!(clip_text(&clip_text(s, m), n), clip_text(s, m.min(n)));
            }
        }
    }
    assert_eq!(clip_text(&clip_text("0123456789", 5), 3), "01…");
}

#[test]
fn control_sequences_leave_nothing() {
    for (a, b) in [("one ", "two"), ("", "x"), ("x\t", ""), ("[", "m rest"), ("a", "\u{1b}[1mb")] {
        let without = sanitize_log_line(&format!("{a}{b}"));
        for sequence in ["\u{1b}[m", "\u{1b}[0;32m", "\u{1b}[@", "\u{1b}[?25~", "\u{1b}[\u{1b}1J"] {
            assert_eq!(sanitize_log_line(&format!("{a}{sequence}{b}")), without);
        }
        for unfinished in ["\u{1b}[", "\u{1b}[12;", "\u{1b}[ ?"] {
            assert_eq!(sanitize_log_line(&format!("{a}{unfinished}")), sanitize_log_line(a));
        }
    }
}
