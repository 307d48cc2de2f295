use serial2tcp::ini::{parse_ini_text, ConfigError};

#[test]
fn three_sections_two_relays() {
    let text = "[relay]\ncom = devA\nbaud = 9600\nhost = 127.0.0.1:9000\n\n[other]\nx = 1\n\n[relay]\nCOM = devB\nBAUD = 0\nHost = 10.0.0.1:1\n";
    let parsed = parse_ini_text(text).unwrap();
    assert_eq!(parsed.configs.len(), 2);
    assert_eq!(parsed.configs[0].com_port, "devA");
    assert_eq!(parsed.configs[0].baud_rate, 9600);
    assert_eq!(parsed.configs[0].tcp_host, "127.0.0.1:9000");
    assert_eq!(parsed.configs[1].com_port, "devB");
    assert_eq!(parsed.configs[1].baud_rate, 115200);
    assert_eq!(parsed.configs[1].tcp_host, "10.0.0.1:1");
    assert_eq!(parsed.unknown_sections, vec![String::from("other")]);
}

#[test]
fn zero_baud_normalizes() {
    let text = "[relay]\ncom = devA\nbaud = 0\nhost = h:1\n";
    let parsed = parse_ini_text(text).unwrap();
    assert_eq!(parsed.configs.len(), 1);
    assert_eq!(parsed.configs[0].baud_rate, 115200);
}

#[test]
fn non_numeric_baud_normalizes() {
    let text = "[relay]\ncom = devA\nbaud = fast\nhost = h:1\n";
    let parsed = parse_ini_text(text).unwrap();
    assert_eq!(parsed.configs[0].baud_rate, 115200);
}

#[test]
fn missing_baud_defaults() {
    let text = "[relay]\ncom = devA\nhost = h:1\n";
    let parsed = parse_ini_text(text).unwrap();
    assert_eq!(parsed.configs[0].baud_rate, 115200);
}

#[test]
fn unknown_keys_are_ignored() {
    let text = "[relay]\ncom = devA\nhost = h:1\nflow = none\n";
    let parsed = parse_ini_text(text).unwrap();
    assert_eq!(parsed.configs.len(), 1);
    assert_eq!(parsed.configs[0].com_port, "devA");
    assert_eq!(parsed.configs[0].tcp_host, "h:1");
}

#[test]
fn unknown_section_does_not_stop_parsing() {
    let text = "[ignored]\na = b\n\n[relay]\ncom = c\nbaud = 19200\nhost = h:2\n";
    let parsed = parse_ini_text(text).unwrap();
    assert_eq!(parsed.configs.len(), 1);
    assert_eq!(parsed.configs[0].baud_rate, 19200);
    assert_eq!(parsed.unknown_sections, vec![String::from("ignored")]);
}

#[test]
fn repeated_key_keeps_last_value() {
    let text = "[relay]\ncom = first\ncom = second\nhost = h:1\n";
    let parsed = parse_ini_text(text).unwrap();
    assert_eq!(parsed.configs[0].com_port, "second");
}

#[test]
fn empty_text_has_no_bindings() {
    let parsed = parse_ini_text("").unwrap();
    assert_eq!(parsed.configs.len(), 0);
    assert_eq!(parsed.unknown_sections.len(), 0);
}

#[test]
fn malformed_ini_is_rejected() {
    let r = parse_ini_text("[unclosed\ncom = devA\n");
    assert!(matches!(r, Err(ConfigError::IniSyntax)));
}
