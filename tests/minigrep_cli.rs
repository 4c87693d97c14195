use minigrep::config::Config;
use minigrep::entry::{argument_problem, read_outcome, with_text, Outcome};

fn tokens(items: &[&str]) -> Vec<String> {
    items.iter().map(|s| s.to_string()).collect()
}

#[test]
fn no_arguments_is_a_config_error() {
    let args = tokens(&["prog"]);
    let err = Config::new(&args).err().unwrap();
    assert_eq!(err, "not enough arguments");
    let outcome = argument_problem(err);
    assert_eq!(outcome.exit_code(), 1);
    assert_eq!(outcome.text(), "Problem parsing arguments: not enough arguments");
}

#[test]
fn empty_and_two_token_lists_are_refused() {
    assert!(Config::new(&[]).is_err());
    let args = tokens(&["prog", "hello"]);
    assert_eq!(Config::new(&args).err(), Some("not enough arguments"));
}

#[test]
fn three_tokens_give_query_and_filename() {
    let args = tokens(&["prog", "hello", "poem.txt"]);
    let config = Config::new(&args).ok().unwrap();
    assert_eq!(config.query, "hello");
    assert_eq!(config.filename, "poem.txt");
}

#[test]
fn extra_tokens_are_ignored() {
    let args = tokens(&["prog", "hello", "poem.txt", "more", "tokens"]);
    let config = Config::new(&args).ok().unwrap();
    assert_eq!(config.query, "hello");
    assert_eq!(config.filename, "poem.txt");
}

#[test]
fn empty_query_and_filename_are_accepted() {
    let args = tokens(&["prog", "", ""]);
    let config = Config::new(&args).ok().unwrap();
    assert_eq!(config.query, "");
    assert_eq!(config.filename, "");
}

#[test]
fn readable_file_prints_with_text() {
    let args = tokens(&["prog", "hello", "poem.txt"]);
    assert!(Config::new(&args).is_ok());
    let outcome = read_outcome(Ok("Roses are red".to_string()));
    assert!(matches!(outcome, Outcome::Success(_)));
    assert_eq!(outcome.exit_code(), 0);
    assert_eq!(outcome.text(), "With text:\nRoses are red");
}

#[test]
fn missing_file_is_an_application_error() {
    let args = tokens(&["prog", "hello", "missing.txt"]);
    assert!(Config::new(&args).is_ok());
    let outcome = read_outcome(Err("No such file or directory (os error 2)".to_string()));
    assert!(matches!(outcome, Outcome::Failure(_)));
    assert_eq!(outcome.exit_code(), 1);
    assert!(outcome.text().starts_with("Application error:"));
    assert_eq!(
        outcome.text(),
        "Application error: No such file or directory (os error 2)"
    );
}

#[test]
fn with_text_keeps_contents_verbatim() {
    assert_eq!(with_text(""), "With text:\n");
    assert_eq!(with_text("a\nb\n"), "With text:\na\nb\n");
}
