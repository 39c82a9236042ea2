use minigrep::config::{mode_notice, render, Config, ConfigError};

fn tokens(items: &[&str]) -> Vec<String> {
    items.iter().map(|s| s.to_string()).collect()
}

#[test]
fn build_without_tokens_misses_the_query() {
    let r = Config::build(tokens(&[]), false);
    assert_eq!(Some(ConfigError::MissingQuery), r.err());
}

#[test]
fn build_with_one_token_misses_the_filepath() {
    let r = Config::build(tokens(&["q"]), false);
    assert_eq!(Some(ConfigError::MissingFilepath), r.err());
}

#[test]
fn build_with_two_tokens_succeeds() {
    let c = Config::build(tokens(&["q", "path"]), false).unwrap();
    assert_eq!("q", c.query);
    assert_eq!("path", c.filepath);
    assert!(!c.ignore_case);
}

#[test]
fn build_passes_the_flag_on() {
    let c = Config::build(tokens(&["needle", "hay.txt"]), true).unwrap();
    assert_eq!("needle", c.query);
    assert_eq!("hay.txt", c.filepath);
    assert!(c.ignore_case);
}

#[test]
fn build_ignores_further_tokens() {
    let c = Config::build(tokens(&["a", "b", "c", "d"]), false).unwrap();
    assert_eq!("a", c.query);
    assert_eq!("b", c.filepath);
}

#[test]
fn build_does_not_look_for_the_file() {
    let c = Config::build(tokens(&["q", "/no/such/file/anywhere"]), false);
    assert!(c.is_ok());
}

#[test]
fn error_messages() {
    assert_eq!("No query string found!", ConfigError::MissingQuery.message());
    assert_eq!("No filepath found!", ConfigError::MissingFilepath.message());
}

#[test]
fn mode_notice_names_the_mode() {
    assert_eq!("Ignoring case: true", mode_notice(true));
    assert_eq!("Ignoring case: false", mode_notice(false));
}

#[test]
fn matches_in_follows_the_configuration() {
    let content = "Rust:\nsafe, fast, productive.\nPick three.\nTrust me.";
    let exact = Config::build(tokens(&["rUST", "poem.txt"]), false).unwrap();
    assert!(exact.matches_in(content).is_empty());
    let folded = Config::build(tokens(&["rUST", "poem.txt"]), true).unwrap();
    assert_eq!(vec!["Rust:", "Trust me."], folded.matches_in(content));
}

#[test]
fn render_puts_each_line_on_its_own() {
    assert_eq!("Rust:\nTrust me.\n", render(&vec!["Rust:", "Trust me."]));
    assert_eq!("", render(&Vec::new()));
    assert_eq!("\n", render(&vec![""]));
}
