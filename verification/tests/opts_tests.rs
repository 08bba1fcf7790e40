use tennis::opts::parse_port;
use tennis::opts::Opts;

#[test]
fn port_parsing_accepts_digits() {
    assert_eq!(parse_port("3000"), Some(3000));
    assert_eq!(parse_port("0"), Some(0));
    assert_eq!(parse_port("65535"), Some(65535));
    assert_eq!(parse_port("8080"), Some(8080));
}

#[test]
fn port_parsing_accepts_one_leading_plus() {
    assert_eq!(parse_port("+80"), Some(80));
    assert_eq!(parse_port("+65535"), Some(65535));
    assert_eq!(parse_port("+"), None);
    assert_eq!(parse_port("++1"), None);
    assert_eq!(parse_port("+65536"), None);
}

#[test]
fn port_parsing_rejects_junk() {
    assert_eq!(parse_port(""), None);
    assert_eq!(parse_port("80a"), None);
    assert_eq!(parse_port("-1"), None);
    assert_eq!(parse_port("65536"), None);
    assert_eq!(parse_port("99999999999999999999"), None);
}

#[test]
fn opts_defaults() {
    let o = Opts::parse(None, None, false, false);
    assert_eq!(o.directory, ".");
    assert_eq!(o.port, 3000);
    assert!(!o.no_auto_refresh);
    assert!(!o.open);
}

#[test]
fn opts_explicit_values() {
    let o = Opts::parse(
        Some("site".to_string()),
        Some("8080".to_string()),
        true,
        true,
    );
    assert_eq!(o.directory, "site");
    assert_eq!(o.port, 8080);
    assert!(o.no_auto_refresh);
    assert!(o.open);
}

#[test]
fn opts_bad_port_falls_back() {
    let o = Opts::parse(None, Some("eighty".to_string()), false, false);
    assert_eq!(o.port, 3000);
}
