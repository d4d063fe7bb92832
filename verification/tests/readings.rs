use axetui::metric::{
    format_large_number, format_metric_value, large_number_scale, metric_from, metric_numeral,
    read_metric, MetricValue, Scale,
};
use axetui::reading::{highest, Reading, WideReading};

fn reading(value: f32) -> Reading {
    Reading { bits: value.to_bits() }
}

fn wide(value: f64) -> WideReading {
    WideReading { bits: value.to_bits() }
}

fn samples() -> Vec<f32> {
    let mut list = vec![
        0.0, -0.0, 0.25, 0.5, 0.49999997, 0.5000001, 1.0, 1.5, 2.5, -0.3, -1.0, -7.5, 85.0, 100.0,
        100.00001, 8388607.5, 8388608.0, 16777215.0, 16777216.0, 3.4e9, 1.8446743e19, 1.8446744e19,
        3e38, 1e-40, -1e-40, 1.0e-45, f32::MAX, f32::MIN, f32::INFINITY, f32::NEG_INFINITY,
    ];
    let mut bits: u32 = 12345;
    while list.len() < 400 {
        bits = bits.wrapping_mul(1664525).wrapping_add(1013904223);
        let value = f32::from_bits(bits);
        if !value.is_nan() {
            list.push(value);
        }
    }
    list
}

#[test]
fn readings_are_ordered_as_their_numbers() {
    for a in samples() {
        for b in samples() {
            assert_eq!(reading(a).is_less(reading(b)), a < b, "{a} {b}");
            assert_eq!(f32::from_bits(reading(a).at_least(reading(b)).bits), a.max(b));
            assert_eq!(reading(a).precedes(reading(b)), a.total_cmp(&b).is_lt());
        }
        assert!(!reading(a).nan());
        assert!(!reading(a).is_less(reading(f32::NAN)));
        assert!(!reading(f32::NAN).is_less(reading(a)));
        assert_eq!(reading(f32::NAN).at_least(reading(a)), reading(a));
        let clamped = reading(a).clamp_to(Reading::whole(0), Reading::whole(100));
        assert_eq!(f32::from_bits(clamped.bits), a.clamp(0.0, 100.0));
    }
    assert!(reading(f32::NAN).nan() && reading(-f32::NAN).nan());
    assert!(reading(f32::NAN).clamp_to(Reading::whole(0), Reading::whole(1)).nan());
}

#[test]
fn readings_are_rounded_as_their_numbers() {
    for a in samples() {
        assert_eq!(reading(a).round(), a.max(0.0).round() as u64, "{a}");
    }
    assert_eq!(reading(f32::NAN).round(), 0);
    assert_eq!(reading(1234.5).round(), 1235);
}

#[test]
fn whole_and_half_numbers() {
    for n in 0..=u16::MAX {
        assert_eq!(Reading::whole(n), reading(f32::from(n)));
        assert_eq!(Reading::halves(n), reading(f32::from(n) / 2.0));
        assert_eq!(Reading::whole(n).round(), u64::from(n));
    }
}

#[test]
fn highest_reading_of_a_list() {
    assert_eq!(highest(&vec![]), None);
    let list: Vec<Reading> = samples().into_iter().map(reading).collect();
    let top = samples().into_iter().max_by(|a, b| a.total_cmp(b)).unwrap();
    assert_eq!(highest(&list), Some(reading(top)));
    let options: Vec<Reading> = [400.0, 525.0, 490.0].into_iter().map(reading).collect();
    assert_eq!(highest(&options), Some(reading(525.0)));
    let with_nan = vec![reading(1.0), reading(f32::NAN), reading(2.0)];
    assert_eq!(highest(&with_nan), Some(reading(f32::NAN)));
}

#[test]
fn scales_of_large_numbers() {
    let cases = [
        (999.0, Scale::Plain, 1, 0, ""),
        (1_000.0, Scale::Kilo, 1_000, 1, "k"),
        (999_999.9, Scale::Kilo, 1_000, 1, "k"),
        (1e6, Scale::Mega, 1_000_000, 2, "M"),
        (1e9, Scale::Giga, 1_000_000_000, 2, "G"),
        (1e12, Scale::Tera, 1_000_000_000_000, 2, "T"),
        (1e15, Scale::Peta, 1_000_000_000_000_000, 2, "P"),
        (1e18, Scale::Exa, 1_000_000_000_000_000_000, 2, "E"),
        (f64::INFINITY, Scale::Exa, 1_000_000_000_000_000_000, 2, "E"),
        (f64::NAN, Scale::Plain, 1, 0, ""),
        (-1e9, Scale::Plain, 1, 0, ""),
        (0.0, Scale::Plain, 1, 0, ""),
    ];
    for (value, scale, divisor, decimals, suffix) in cases {
        assert_eq!(large_number_scale(wide(value)), scale, "{value}");
        assert_eq!(scale.divisor(), divisor);
        assert_eq!(scale.decimals(), decimals);
        assert_eq!(scale.suffix(), suffix);
    }
    for edge in [1e3f64, 1e6, 1e9, 1e12, 1e15, 1e18] {
        let below = f64::from_bits(edge.to_bits() - 1);
        assert_ne!(large_number_scale(wide(below)), large_number_scale(wide(edge)));
        let above = f64::from_bits(edge.to_bits() + 1);
        assert_eq!(large_number_scale(wide(above)), large_number_scale(wide(edge)));
    }
    assert_eq!(format_large_number(wide(4.5e9), "4.50"), "4.50G");
}

fn shown(metric: &MetricValue) -> String {
    let numeral = match metric_numeral(metric) {
        Some(n) => format!("{:.*}", n.decimals, f64::from_bits(n.value.bits) / n.divisor as f64),
        None => String::new(),
    };
    format_metric_value(metric, &numeral)
}

fn text_of(raw: &str) -> String {
    let value = serde_json::from_str::<serde_json::Value>(raw).unwrap();
    shown(&read_metric(&value.to_string(), value.as_f64().map(wide)))
}

#[test]
fn metrics_of_every_kind() {
    assert_eq!(text_of("null"), "n/a");
    assert_eq!(text_of("0"), "0");
    assert_eq!(text_of("512.4"), "512");
    assert_eq!(text_of("1500"), "1.5k");
    assert_eq!(text_of("4290000000"), "4.29G");
    assert_eq!(text_of("126411437451912.23"), "126.41T");
    assert_eq!(text_of("1e18"), "1.00E");
    assert_eq!(text_of("-5000"), "-5000");
    assert_eq!(text_of("\"4.29G\""), "4.29G");
    assert_eq!(text_of("\"tab\\t\\u00e9 \\\" null\""), "tab\té \" null");
    assert_eq!(text_of("\"null\""), "null");
    assert_eq!(text_of("\"\""), "");
    assert_eq!(text_of("true"), "true");
    assert_eq!(text_of(" [1, \"a\" ,null] "), "[1,\"a\",null]");
    assert_eq!(text_of("{\"b\": 1, \"a\": 2}"), "{\"a\":2,\"b\":1}");
}

#[test]
fn numbers_are_taken_by_their_value() {
    for value in [f64::MAX, 0.1 + 0.2, 9007199254740993.0, 4.35e17, -2.5] {
        match read_metric(&serde_json::Value::from(value).to_string(), Some(wide(value))) {
            MetricValue::Number(number) => assert_eq!(number, wide(value)),
            other => panic!("{other:?}"),
        }
    }
}

#[test]
fn other_values_are_shown_as_they_stand() {
    let token = "{\"$serde_json::private::RawValue\":\"5\"}";
    assert_eq!(text_of(token), token);
    let list = serde_json::Value::from(vec![f64::MAX, 0.1 + 0.2, 5e-324]);
    let text = list.to_string();
    assert_eq!(shown(&read_metric(&text, list.as_f64().map(wide))), text);
    assert_eq!(shown(&read_metric("12345", None)), "12345");
}

#[test]
fn metric_from_its_parts() {
    assert!(matches!(metric_from("null", None, None), MetricValue::Null));
    assert!(matches!(metric_from("nul", None, None), MetricValue::Json(_)));
    match metric_from("\"x\"", None, Some("x".to_string())) {
        MetricValue::Text(text) => assert_eq!(text, "x"),
        other => panic!("{other:?}"),
    }
    match metric_from("1", Some(wide(1.0)), None) {
        MetricValue::Number(number) => assert_eq!(number, wide(1.0)),
        other => panic!("{other:?}"),
    }
}

#[test]
fn strings_without_escapes_are_shown_unquoted() {
    for text in ["", "4.29G", "null", "a'b/c", "\u{7f}\u{9b}", "äöü 漢字 \u{1f600}", "[1]", " x "] {
        assert_eq!(shown(&read_metric(&format!("\"{text}\""), None)), text);
    }
    let long = "0123456789abcdef".repeat(20);
    assert_eq!(shown(&read_metric(&format!("\"{long}\""), None)), long);
    for raw in ["\"", "\"a\"b\"", "\"a\\\"", "\"a\nb\"", "\"a"] {
        assert_eq!(shown(&read_metric(raw, None)), raw);
    }
}
