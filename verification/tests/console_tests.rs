use vt_core::console::{parse_vconsole_conf, Config};

fn opt(s: &Option<String>) -> Option<&str> {
    s.as_deref()
}

#[test]
fn parse_full_config() {
    let c = parse_vconsole_conf("KEYMAP=us\nFONT=ter-v16n\nFONT_MAP=8859-1\nFONT_UNIMAP=def\n");
    assert_eq!(opt(&c.keymap), Some("us"));
    assert_eq!(opt(&c.font), Some("ter-v16n"));
    assert_eq!(opt(&c.font_map), Some("8859-1"));
    assert_eq!(opt(&c.font_unimap), Some("def"));
}

#[test]
fn parse_empty_config() {
    let c = parse_vconsole_conf("");
    assert!(c.keymap.is_none() && c.font.is_none() && c.font_map.is_none() && c.font_unimap.is_none());
    let d = Config::default();
    assert!(d.keymap.is_none() && d.font.is_none() && d.font_map.is_none() && d.font_unimap.is_none());
}

#[test]
fn comments_blank_and_unknown_lines_ignored() {
    let c = parse_vconsole_conf("# KEYMAP=fr\n\n   \n  # FONT=x\nLANG=C\nno equals sign\nKEYMAP=de\n");
    assert_eq!(opt(&c.keymap), Some("de"));
    assert!(c.font.is_none());
}

#[test]
fn trims_and_strips_quotes() {
    let c = parse_vconsole_conf("  KEYMAP  =  \"de-latin1\"  \nFONT='lat9w-16'\r\nFONT_MAP=\"'x'\"\nFONT_UNIMAP= ''\n");
    assert_eq!(opt(&c.keymap), Some("de-latin1"));
    assert_eq!(opt(&c.font), Some("lat9w-16"));
    assert_eq!(opt(&c.font_map), Some("x"));
    assert_eq!(opt(&c.font_unimap), Some(""));
}

#[test]
fn quotes_stripped_double_then_single() {
    // double quotes are stripped first, so single quotes inside double quotes go too,
    // but double quotes inside single quotes stay.
    let c = parse_vconsole_conf("KEYMAP='\"us\"'\n");
    assert_eq!(opt(&c.keymap), Some("\"us\""));
}

#[test]
fn value_keeps_later_equals_signs() {
    let c = parse_vconsole_conf("FONT=a=b\n");
    assert_eq!(opt(&c.font), Some("a=b"));
}

#[test]
fn later_line_overrides_earlier() {
    let a = "KEYMAP=us\nFONT=one";
    let b = "KEYMAP=fr";
    let c = parse_vconsole_conf(&format!("{}\n{}", a, b));
    assert_eq!(opt(&c.keymap), Some("fr"));
    assert_eq!(opt(&c.font), Some("one"));
}

#[test]
fn last_line_without_newline() {
    let c = parse_vconsole_conf("FONT=x");
    assert_eq!(opt(&c.font), Some("x"));
}

#[test]
fn key_is_case_sensitive_and_unicode_whitespace_trimmed() {
    let c = parse_vconsole_conf("keymap=us\n\u{3000}FONT\u{a0}=\u{2003}ter\u{85}\n");
    assert!(c.keymap.is_none());
    assert_eq!(opt(&c.font), Some("ter"));
}
