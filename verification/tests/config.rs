use serveto::config::{
    parse_mode, HELP, INVALID_MODE, INVALID_PORT, NO_HOST, NO_PARAMS, NO_PORT,
};
use serveto::{Config, Mode};

fn command_line(words: &[&str]) -> Vec<String> {
    words.iter().map(|word| word.to_string()).collect()
}

fn refusal(words: &[&str]) -> &'static str {
    match Config::new(command_line(words)) {
        Ok(_) => panic!("accepted: {:?}", words),
        Err(message) => message,
    }
}

#[test]
fn a_valid_command_line_yields_matching_fields() {
    let config = Config::new(command_line(&["serveto", "simple", "127.0.0.1", "8080"])).unwrap();
    assert_eq!(config.mode(), Mode::Simple);
    assert_eq!(config.host(), "127.0.0.1");
    assert_eq!(*config.port(), 8080);
}

#[test]
fn each_mode_word_names_its_mode() {
    for (word, mode) in
        [("simple", Mode::Simple), ("threaded", Mode::Threaded), ("forked", Mode::Forked)]
    {
        let config = Config::new(command_line(&["serveto", word, "localhost", "7"])).unwrap();
        assert_eq!(config.mode(), mode);
        assert_eq!(parse_mode(word), Some(mode));
    }
}

#[test]
fn mode_words_are_case_sensitive_and_exact() {
    assert_eq!(parse_mode("Simple"), None);
    assert_eq!(parse_mode("simple "), None);
    assert_eq!(parse_mode("fork"), None);
    assert_eq!(parse_mode("thread"), None);
    assert_eq!(parse_mode(""), None);
    assert_eq!(parse_mode("h"), None);
}

#[test]
fn the_host_is_kept_as_written() {
    let config = Config::new(command_line(&["serveto", "forked", " not a host ", "1"])).unwrap();
    assert_eq!(config.host(), " not a host ");
    let config = Config::new(command_line(&["serveto", "forked", "", "1"])).unwrap();
    assert_eq!(config.host(), "");
}

#[test]
fn the_program_name_and_trailing_arguments_are_not_read() {
    let config =
        Config::new(command_line(&["h", "threaded", "::1", "65535", "extra", "h"])).unwrap();
    assert_eq!(config.mode(), Mode::Threaded);
    assert_eq!(config.host(), "::1");
    assert_eq!(*config.port(), 65535);
}

#[test]
fn port_limits_are_accepted() {
    let config = Config::new(command_line(&["serveto", "simple", "h", "0"])).unwrap();
    assert_eq!(*config.port(), 0);
    let config = Config::new(command_line(&["serveto", "simple", "h", "65535"])).unwrap();
    assert_eq!(*config.port(), 65535);
    let config = Config::new(command_line(&["serveto", "simple", "h", "+0022"])).unwrap();
    assert_eq!(*config.port(), 22);
}

#[test]
fn an_empty_command_line_is_refused() {
    assert_eq!(refusal(&[]), "Did not provide any params!");
    assert_eq!(refusal(&["serveto"]), "Did not provide any params!");
    assert_eq!(NO_PARAMS, "Did not provide any params!");
}

#[test]
fn asking_for_help_is_refused() {
    let message = "Help is sily. But you should run with params [MODE] [HOST] [PORT]";
    assert_eq!(refusal(&["serveto", "h"]), message);
    assert_eq!(refusal(&["serveto", "h", "localhost", "80"]), message);
    assert_eq!(HELP, message);
}

#[test]
fn an_unknown_mode_is_refused() {
    let message = "not a valid mode of operation! try 'forked', 'threaded' or 'simple'";
    assert_eq!(refusal(&["serveto", "fast"]), message);
    assert_eq!(refusal(&["serveto", "SIMPLE", "localhost", "80"]), message);
    assert_eq!(refusal(&["serveto", "", "localhost", "80"]), message);
    assert_eq!(refusal(&["serveto", "help"]), message);
    assert_eq!(INVALID_MODE, message);
}

#[test]
fn a_missing_host_is_refused() {
    assert_eq!(refusal(&["serveto", "simple"]), "Did not provide any host!");
    assert_eq!(NO_HOST, "Did not provide any host!");
}

#[test]
fn a_missing_port_is_refused() {
    assert_eq!(refusal(&["serveto", "simple", "localhost"]), "Did not get a port to run on.");
    assert_eq!(NO_PORT, "Did not get a port to run on.");
}

#[test]
fn a_malformed_port_is_refused() {
    for port in ["", "http", "-1", "65536", "80 ", "8080.0", "1e4", "+"] {
        assert_eq!(refusal(&["serveto", "forked", "localhost", port]), "Invalid port number.");
    }
    assert_eq!(INVALID_PORT, "Invalid port number.");
}

#[test]
fn the_first_fault_decides_the_refusal() {
    assert_eq!(
        refusal(&["serveto", "fast", "localhost", "http"]),
        "not a valid mode of operation! try 'forked', 'threaded' or 'simple'"
    );
    assert_eq!(refusal(&["serveto", "fast"]), INVALID_MODE);
}
