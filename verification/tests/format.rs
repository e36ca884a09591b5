use record_derive::format::format_value;
use record_derive::value::{FormatSpec, Style, Value};

fn unsigned(format: &str, value: u64) -> Option<String> {
    format_value(format, &Value::Unsigned(value))
}

fn signed(format: &str, value: i64) -> Option<String> {
    format_value(format, &Value::Signed(value))
}

fn some(text: String) -> Option<String> {
    Some(text)
}

#[test]
fn mask_of_28_is_written_in_eight_binary_digits() {
    assert_eq!(unsigned("0b{:08b}", 28), Some("0b00011100".to_string()));
}

#[test]
fn unsigned_values_are_written_as_the_standard_library_writes_them() {
    for value in [0u64, 1, 7, 8, 9, 10, 15, 16, 28, 99, 100, 255, 256, 65535, 4294967296, u64::MAX]
    {
        assert_eq!(unsigned("{}", value), some(format!("{}", value)));
        assert_eq!(unsigned("{:?}", value), some(format!("{:?}", value)));
        assert_eq!(unsigned("{:b}", value), some(format!("{:b}", value)));
        assert_eq!(unsigned("{:o}", value), some(format!("{:o}", value)));
        assert_eq!(unsigned("{:x}", value), some(format!("{:x}", value)));
        assert_eq!(unsigned("{:X}", value), some(format!("{:X}", value)));
        assert_eq!(unsigned("{:#b}", value), some(format!("{:#b}", value)));
        assert_eq!(unsigned("{:#o}", value), some(format!("{:#o}", value)));
        assert_eq!(unsigned("{:#x}", value), some(format!("{:#x}", value)));
        assert_eq!(unsigned("{:#X}", value), some(format!("{:#X}", value)));
        assert_eq!(unsigned("{:#}", value), some(format!("{:#}", value)));
        assert_eq!(unsigned("{:#?}", value), some(format!("{:#?}", value)));
        assert_eq!(unsigned("{:5}", value), some(format!("{:5}", value)));
        assert_eq!(unsigned("{:05}", value), some(format!("{:05}", value)));
        assert_eq!(unsigned("{:12?}", value), some(format!("{:12?}", value)));
        assert_eq!(unsigned("{:012?}", value), some(format!("{:012?}", value)));
        assert_eq!(unsigned("{:08b}", value), some(format!("{:08b}", value)));
        assert_eq!(unsigned("{:8b}", value), some(format!("{:8b}", value)));
        assert_eq!(unsigned("{:#010x}", value), some(format!("{:#010x}", value)));
        assert_eq!(unsigned("{:#10x}", value), some(format!("{:#10x}", value)));
        assert_eq!(unsigned("{:#06X}", value), some(format!("{:#06X}", value)));
        assert_eq!(unsigned("{:#4o}", value), some(format!("{:#4o}", value)));
        assert_eq!(unsigned("{:70b}", value), some(format!("{:70b}", value)));
        assert_eq!(unsigned("{:070b}", value), some(format!("{:070b}", value)));
        assert_eq!(unsigned("{:0}", value), some(format!("{:0}", value)));
        assert_eq!(unsigned("{:00}", value), some(format!("{:00}", value)));
        assert_eq!(unsigned("{:1}", value), some(format!("{:1}", value)));
        assert_eq!(unsigned("{:0010}", value), some(format!("{:0010}", value)));
    }
}

#[test]
fn signed_values_are_written_as_the_standard_library_writes_them() {
    for value in [0i64, 1, -1, 9, -9, 10, -10, 28, -28, 255, -256, i64::MAX, i64::MIN, i64::MIN + 1]
    {
        assert_eq!(signed("{}", value), some(format!("{}", value)));
        assert_eq!(signed("{:?}", value), some(format!("{:?}", value)));
        assert_eq!(signed("{:b}", value), some(format!("{:b}", value)));
        assert_eq!(signed("{:o}", value), some(format!("{:o}", value)));
        assert_eq!(signed("{:x}", value), some(format!("{:x}", value)));
        assert_eq!(signed("{:X}", value), some(format!("{:X}", value)));
        assert_eq!(signed("{:#b}", value), some(format!("{:#b}", value)));
        assert_eq!(signed("{:#x}", value), some(format!("{:#x}", value)));
        assert_eq!(signed("{:6}", value), some(format!("{:6}", value)));
        assert_eq!(signed("{:06}", value), some(format!("{:06}", value)));
        assert_eq!(signed("{:#06}", value), some(format!("{:#06}", value)));
        assert_eq!(signed("{:25?}", value), some(format!("{:25?}", value)));
        assert_eq!(signed("{:025?}", value), some(format!("{:025?}", value)));
        assert_eq!(signed("{:#070b}", value), some(format!("{:#070b}", value)));
        assert_eq!(signed("{:#70x}", value), some(format!("{:#70x}", value)));
    }
}

#[test]
fn text_before_and_after_the_placeholder_is_kept() {
    assert_eq!(unsigned("<{}>", 5), Some("<5>".to_string()));
    assert_eq!(unsigned("value = {:x} (hex)", 255), Some("value = ff (hex)".to_string()));
    assert_eq!(unsigned("{}%", 50), Some("50%".to_string()));
    assert_eq!(unsigned("caf\u{e9} {} \u{1F600}", 1), Some("caf\u{e9} 1 \u{1F600}".to_string()));
}

#[test]
fn doubled_braces_stand_for_single_ones() {
    assert_eq!(unsigned("{{{}}}", 5), some(format!("{{{}}}", 5)));
    assert_eq!(unsigned("{{}}{}", 5), some(format!("{{}}{}", 5)));
    assert_eq!(unsigned("{}{{}}", 5), some(format!("{}{{}}", 5)));
    assert_eq!(unsigned("a{{b}}c{:02}d}}e{{", 5), some(format!("a{{b}}c{:02}d}}e{{", 5)));
}

#[test]
fn text_values_take_display_and_debug_only() {
    let text = Value::Text("a \"b\"\n\u{e9}\t\\".to_string());
    assert_eq!(format_value("{}", &text), some(format!("{}", "a \"b\"\n\u{e9}\t\\")));
    assert_eq!(format_value("{:?}", &text), some(format!("{:?}", "a \"b\"\n\u{e9}\t\\")));
    assert_eq!(format_value("[{}]", &text), some(format!("[{}]", "a \"b\"\n\u{e9}\t\\")));
    for format in ["{:b}", "{:o}", "{:x}", "{:X}", "{:5}", "{:05}", "{:#?}", "{:#}", "{:0}"] {
        assert_eq!(format_value(format, &text), None);
    }
}

#[test]
fn boolean_values_take_display_and_debug_only() {
    for value in [true, false] {
        assert_eq!(format_value("{}", &Value::Bool(value)), some(format!("{}", value)));
        assert_eq!(format_value("{:?}", &Value::Bool(value)), some(format!("{:?}", value)));
        for format in ["{:b}", "{:o}", "{:x}", "{:X}", "{:5}", "{:05}", "{:#?}", "{:#}"] {
            assert_eq!(format_value(format, &Value::Bool(value)), None);
        }
    }
}

#[test]
fn strings_without_exactly_one_placeholder_are_refused() {
    for format in ["", "text", "{{}}", "{} {}", "{}{:x}", "{:?}{:?}"] {
        assert_eq!(unsigned(format, 5), None);
    }
}

#[test]
fn unmatched_braces_are_refused() {
    for format in ["{", "}", "{:x", "x}", "{} }", "{ {}", "{}{", "}{}", "{{}", "{}}", "{:{}}"] {
        assert_eq!(unsigned(format, 5), None);
    }
}

#[test]
fn placeholders_outside_the_supported_options_are_refused() {
    for format in [
        "{0}", "{0:x}", "{name}", "{ }", "{:e}", "{:x?}", "{:X?}", "{:<5}", "{:>5}", "{:^5}",
        "{:*<5}", "{:+}", "{:-}", "{:.3}", "{:5.3}", "{:5$}", "{:#0#}", "{:0#x}", "{:bb}", "{:?b}",
        "{: }", "{:8 b}", "{x}", "{:?x}", "{?}", "{b}",
    ] {
        assert_eq!(unsigned(format, 5), None);
    }
}

#[test]
fn width_is_limited() {
    assert_eq!(unsigned("{:65535}", 5).map(|text| text.len()), Some(65535));
    assert_eq!(unsigned("{:065535b}", 5).map(|text| text.len()), Some(65535));
    assert_eq!(unsigned("{:65536}", 5), None);
    assert_eq!(unsigned("{:99999999999999999999999999}", 5), None);
    assert_eq!(unsigned("{:0000000000000000000000003}", 5), Some("005".to_string()));
}

#[test]
fn values_are_rendered_under_given_options() {
    let spec = FormatSpec { alternate: true, zero: true, width: 6, style: Style::LowerHex };
    assert_eq!(Value::Unsigned(255).render(spec), Some("0x00ff".to_string()));
    assert_eq!(Value::Signed(-1).render(spec), Some("0xffffffffffffffff".to_string()));
    assert_eq!(Value::Bool(true).render(spec), None);
    assert_eq!(Value::Text("x".to_string()).render(spec), None);
    let decimal = FormatSpec { alternate: false, zero: true, width: 5, style: Style::Display };
    assert_eq!(Value::Signed(-42).render(decimal), Some("-0042".to_string()));
    let spaced = FormatSpec { alternate: false, zero: false, width: 5, style: Style::Display };
    assert_eq!(Value::Signed(-42).render(spaced), Some("  -42".to_string()));
}

#[test]
fn values_are_rendered_by_default_as_debug_renders_them() {
    assert_eq!(Value::Unsigned(28).render_default(), format!("{:?}", 28u64));
    assert_eq!(Value::Signed(-28).render_default(), format!("{:?}", -28i64));
    assert_eq!(Value::Signed(i64::MIN).render_default(), format!("{:?}", i64::MIN));
    assert_eq!(Value::Bool(true).render_default(), format!("{:?}", true));
    assert_eq!(Value::Bool(false).render_default(), "false");
    assert_eq!(Value::Text("F".to_string()).render_default(), "\"F\"");
    assert_eq!(
        Value::Text("tab\there \"quoted\" \u{7f}".to_string()).render_default(),
        format!("{:?}", "tab\there \"quoted\" \u{7f}")
    );
}
