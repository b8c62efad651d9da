use browse::parse_args;
use browse::Cmd;
use browse::CmdError;

const USAGE_ERROR: &str =
    "There should be only one argument to `browse`, either `--help`/`-h` or an `URL`";

#[test]
fn zero_arguments_is_a_parse_error() {
    let args: Vec<String> = vec![];
    match parse_args(&args) {
        Err(CmdError::Parse(message)) => assert_eq!(message, USAGE_ERROR),
        _ => panic!("zero arguments must be rejected with the usage message"),
    }
}

#[test]
fn two_arguments_is_a_parse_error() {
    let args = vec!["https://crates.io".to_string(), "https://docs.rs".to_string()];
    assert!(matches!(parse_args(&args), Err(CmdError::Parse(_))));
}

#[test]
fn help_beside_another_argument_is_a_parse_error() {
    let args = vec!["--help".to_string(), "https://crates.io".to_string()];
    assert!(matches!(parse_args(&args), Err(CmdError::Parse(_))));
}

#[test]
fn short_help_flag_parses_to_help() {
    let args = vec!["-h".to_string()];
    assert!(matches!(parse_args(&args), Ok(Cmd::Help)));
}

#[test]
fn long_help_flag_parses_to_help() {
    let args = vec!["--help".to_string()];
    assert!(matches!(parse_args(&args), Ok(Cmd::Help)));
}

#[test]
fn single_url_parses_to_open() {
    let args = vec!["https://crates.io".to_string()];
    match parse_args(&args) {
        Ok(Cmd::Open(url)) => assert_eq!(url, "https://crates.io"),
        _ => panic!("a single URL must parse to an open command"),
    }
}

#[test]
fn argument_is_kept_verbatim() {
    let args = vec![" --help ".to_string()];
    match parse_args(&args) {
        Ok(Cmd::Open(url)) => assert_eq!(url, " --help "),
        _ => panic!("a padded help flag is not the help flag"),
    }
}

#[test]
fn help_flag_match_is_case_sensitive() {
    let args = vec!["--HELP".to_string()];
    match parse_args(&args) {
        Ok(Cmd::Open(url)) => assert_eq!(url, "--HELP"),
        _ => panic!("the help flag is matched case-sensitively"),
    }
}
