use server_supervisor::config::{port_from_config_text, resolve_port, DEFAULT_SERVER_PORT};

#[test]
fn default_port_value() {
    assert_eq!(DEFAULT_SERVER_PORT, 4567);
}

#[test]
fn missing_config_gives_default() {
    assert_eq!(resolve_port(None), 4567);
}

#[test]
fn port_line_is_read() {
    assert_eq!(resolve_port(Some("PORT=8080")), 8080);
    assert_eq!(port_from_config_text("PORT=8080\n"), 8080);
}

#[test]
fn non_numeric_port_gives_default() {
    assert_eq!(resolve_port(Some("PORT=notanumber")), 4567);
}

#[test]
fn empty_and_malformed_configs_give_default() {
    assert_eq!(port_from_config_text(""), 4567);
    assert_eq!(port_from_config_text("\n\n"), 4567);
    assert_eq!(port_from_config_text("HOST=localhost\nport=9000"), 4567);
    assert_eq!(port_from_config_text("PORT="), 4567);
    assert_eq!(port_from_config_text("PORT=+"), 4567);
    assert_eq!(port_from_config_text("PORT=-80"), 4567);
    assert_eq!(port_from_config_text("PORT=80 80"), 4567);
    assert_eq!(port_from_config_text("# PORT=9000"), 4567);
}

#[test]
fn out_of_range_port_gives_default() {
    assert_eq!(port_from_config_text("PORT=65536"), 4567);
    assert_eq!(port_from_config_text("PORT=99999999999"), 4567);
    assert_eq!(port_from_config_text("PORT=65535"), 65535);
    assert_eq!(port_from_config_text("PORT=0"), 0);
}

#[test]
fn white_space_around_key_and_value_is_ignored() {
    assert_eq!(port_from_config_text("  PORT=  3000  \r\n"), 3000);
    assert_eq!(port_from_config_text("\tPORT=3001"), 3001);
    assert_eq!(port_from_config_text("PORT=\u{a0}3002\u{3000}"), 3002);
}

#[test]
fn space_inside_the_key_is_not_accepted() {
    assert_eq!(port_from_config_text("PORT = 3000"), 4567);
}

#[test]
fn plus_sign_and_leading_zeros_are_read() {
    assert_eq!(port_from_config_text("PORT=+8081"), 8081);
    assert_eq!(port_from_config_text("PORT=0008082"), 8082);
}

#[test]
fn first_valid_port_line_wins() {
    let text = "NAME=switch\nPORT=abc\nPORT=9001\nPORT=9002\n";
    assert_eq!(port_from_config_text(text), 9001);
}

#[test]
fn config_with_other_keys_and_crlf() {
    let text = "LOG=debug\r\nPORT=7777\r\nMODE=prod\r\n";
    assert_eq!(port_from_config_text(text), 7777);
}

#[test]
fn non_ascii_text_is_handled() {
    assert_eq!(port_from_config_text("\u{540d}\u{79f0}=\u{670d}\u{52a1}\nPORT=6006"), 6006);
    assert_eq!(port_from_config_text("PORT=\u{ff16}\u{ff10}\u{ff10}\u{ff10}"), 4567);
}
