use jsonlog_fmt::{indent, lookup, scheme_names, ColorScheme, FormatService};

fn ocean() -> ColorScheme {
    lookup("ocean").unwrap()
}

fn paint(rgb: (u8, u8, u8), text: &str) -> String {
    format!("\x1b[38;2;{};{};{}m{}\x1b[39m", rgb.0, rgb.1, rgb.2, text)
}

const NULL: (u8, u8, u8) = (101, 115, 126);
const BOOL: (u8, u8, u8) = (208, 135, 112);
const NUMBER: (u8, u8, u8) = (180, 142, 173);
const STRING: (u8, u8, u8) = (163, 190, 140);
const KEY: (u8, u8, u8) = (143, 161, 179);

fn format(line: &str) -> String {
    FormatService { colors: ocean() }.format_input(line)
}

/// Drops every `ESC[...m` sequence.
fn strip_colors(s: &str) -> String {
    let mut out = String::new();
    let mut in_escape = false;
    for c in s.chars() {
        if in_escape {
            if c == 'm' {
                in_escape = false;
            }
        } else if c == '\x1b' {
            in_escape = true;
        } else {
            out.push(c);
        }
    }
    out
}

fn strip_whitespace(s: &str) -> String {
    s.chars().filter(|c| !c.is_whitespace()).collect()
}

#[test]
fn object_with_nested_array() {
    let expected = format!(
        "{{\n  {}: {},\n  {}: [\n    {},\n    {}\n  ]\n}}",
        paint(KEY, "\"a\""),
        paint(NUMBER, "1"),
        paint(KEY, "\"b\""),
        paint(BOOL, "true"),
        paint(NULL, "null"),
    );
    assert_eq!(format(r#"{"a":1,"b":[true,null]}"#), expected);
}

#[test]
fn plain_text_passes_through() {
    for name in scheme_names() {
        let service = FormatService { colors: lookup(name).unwrap() };
        assert_eq!(service.format_input("not json at all"), "not json at all");
    }
}

#[test]
fn malformed_json_passes_through() {
    assert_eq!(format("{\"a\":"), "{\"a\":");
    assert_eq!(format("[1, 2"), "[1, 2");
    assert_eq!(format("  nope \n"), "  nope \n");
}

#[test]
fn empty_line_passes_through() {
    assert_eq!(format(""), "");
    assert_eq!(format("\n"), "\n");
}

#[test]
fn number_alone() {
    assert_eq!(format("42"), paint(NUMBER, "42"));
    assert_eq!(format("1.5"), paint(NUMBER, "1.5"));
    assert_eq!(format("-7"), paint(NUMBER, "-7"));
}

#[test]
fn number_with_surrounding_whitespace() {
    assert_eq!(format("  42  \n"), paint(NUMBER, "42"));
}

#[test]
fn other_scalars() {
    assert_eq!(format("null"), paint(NULL, "null"));
    assert_eq!(format("true"), paint(BOOL, "true"));
    assert_eq!(format("false"), paint(BOOL, "false"));
    assert_eq!(format("\"hi there\""), paint(STRING, "\"hi there\""));
}

#[test]
fn string_escapes_are_decoded_not_rewritten() {
    assert_eq!(format(r#""a\nb""#), paint(STRING, "\"a\nb\""));
    assert_eq!(format(r#""q\"q""#), paint(STRING, "\"q\"q\""));
}

#[test]
fn empty_containers_keep_the_general_shape() {
    assert_eq!(format("[]"), "[\n\n]");
    assert_eq!(format("{}"), "{\n\n}");
}

#[test]
fn key_order_is_kept() {
    let expected = format!(
        "{{\n  {}: {},\n  {}: {}\n}}",
        paint(KEY, "\"b\""),
        paint(NUMBER, "1"),
        paint(KEY, "\"a\""),
        paint(NUMBER, "2"),
    );
    assert_eq!(format(r#"{"b":1,"a":2}"#), expected);
}

#[test]
fn nested_arrays_indent_two_spaces_per_level() {
    let expected = format!("[\n  [\n    {}\n  ],\n  {}\n]", paint(NUMBER, "1"), paint(STRING, "\"x\""));
    assert_eq!(format(r#"[[1],"x"]"#), expected);
}

#[test]
fn object_inside_array() {
    let expected = format!("[\n  {{\n    {}: {}\n  }}\n]", paint(KEY, "\"k\""), paint(NULL, "null"));
    assert_eq!(format(r#"[{"k":null}]"#), expected);
}

#[test]
fn scalar_has_no_brackets_or_indent() {
    for line in ["null", "true", "12", "\"s\""] {
        assert_eq!(strip_colors(&format(line)), line);
    }
}

#[test]
fn containers_round_trip_up_to_whitespace() {
    for line in [
        r#"{"a":1,"b":[true,null]}"#,
        r#"[1, [2, {"x": "y"}], {}]"#,
        r#"{"outer": {"inner": [false, 2.5]}}"#,
    ] {
        let shown = strip_whitespace(&strip_colors(&format(line)));
        assert_eq!(shown, strip_whitespace(line));
        let again: serde_json::Value = serde_json::from_str(&shown).unwrap();
        let first: serde_json::Value = serde_json::from_str(line).unwrap();
        assert_eq!(again, first);
    }
}

#[test]
fn other_schemes_use_their_own_colors() {
    let chalk = FormatService { colors: lookup("chalk").unwrap() };
    assert_eq!(chalk.format_input("null"), paint((80, 80, 80), "null"));
    let solarized = FormatService { colors: lookup("solarized").unwrap() };
    assert_eq!(solarized.format_input("7"), paint((211, 54, 130), "7"));
    let grey = FormatService { colors: lookup("greyscale").unwrap() };
    assert_eq!(grey.format_input("\"g\""), paint((227, 227, 227), "\"g\""));
}

#[test]
fn unknown_scheme_is_not_found() {
    assert!(lookup("neon").is_none());
    assert!(lookup("Ocean").is_none());
    assert!(lookup("").is_none());
    assert!(lookup("ocean ").is_none());
}

#[test]
fn known_schemes_are_found() {
    let names = scheme_names();
    assert_eq!(names, vec!["chalk", "greyscale", "ocean", "solarized"]);
    for name in names {
        assert!(lookup(name).is_some());
    }
    let o = ocean();
    assert_eq!((o.object_key.r, o.object_key.g, o.object_key.b), KEY);
}

#[test]
fn indent_is_two_spaces_per_level() {
    assert_eq!(indent(0), "");
    assert_eq!(indent(1), "  ");
    assert_eq!(indent(3), "      ");
}
