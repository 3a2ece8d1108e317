use rgrep_args::args::{CommandArgs, ParseOutcome};
use rgrep_args::errors::ParseError;
use rgrep_args::parser::parse_args;

fn to_args(v: &[&str]) -> Vec<String> {
    v.iter().map(|s| s.to_string()).collect()
}

fn parse(v: &[&str]) -> (Result<ParseOutcome, ParseError>, CommandArgs) {
    let mut command_args = CommandArgs::new();
    let r = parse_args(to_args(v), &mut command_args);
    (r, command_args)
}

#[test]
fn defaults_when_no_tokens() {
    let (r, ca) = parse(&["prog"]);
    assert_eq!(r, Ok(ParseOutcome::Completed));
    assert_eq!(ca.query, "");
    assert!(ca.files.is_empty());
    assert_eq!(ca.after_context, 0);
    assert_eq!(ca.before_context, 0);
    assert!(!ca.ignore_case);
}

#[test]
fn flag_query_and_files() {
    let (r, ca) = parse(&["prog", "-i", "needle", "a.txt", "b.txt"]);
    assert_eq!(r, Ok(ParseOutcome::Completed));
    assert_eq!(ca.query, "needle");
    assert_eq!(ca.files, vec!["a.txt".to_string(), "b.txt".to_string()]);
    assert!(ca.ignore_case);
    assert_eq!(ca.after_context, 0);
    assert_eq!(ca.before_context, 0);
}

#[test]
fn option_after_pattern_is_still_an_option() {
    let (r, ca) = parse(&["prog", "needle", "-A", "2", "file.txt"]);
    assert_eq!(r, Ok(ParseOutcome::Completed));
    assert_eq!(ca.query, "needle");
    assert_eq!(ca.files, vec!["file.txt".to_string()]);
    assert_eq!(ca.after_context, 2);
}

#[test]
fn option_between_files_is_still_an_option() {
    let (r, ca) = parse(&["prog", "q", "f1", "-i", "f2"]);
    assert_eq!(r, Ok(ParseOutcome::Completed));
    assert_eq!(ca.files, vec!["f1".to_string(), "f2".to_string()]);
    assert!(ca.ignore_case);
}

#[test]
fn after_context_three_spellings_agree() {
    let (r1, ca1) = parse(&["prog", "--after-context=3", "q"]);
    let (r2, ca2) = parse(&["prog", "-A", "3", "q"]);
    let (r3, ca3) = parse(&["prog", "--after-context", "3", "q"]);
    assert_eq!(r1, Ok(ParseOutcome::Completed));
    assert_eq!(r2, Ok(ParseOutcome::Completed));
    assert_eq!(r3, Ok(ParseOutcome::Completed));
    assert_eq!(ca1.after_context, 3);
    assert_eq!(ca2.after_context, 3);
    assert_eq!(ca3.after_context, 3);
    assert_eq!(ca1, ca2);
    assert_eq!(ca2, ca3);
}

#[test]
fn before_context_value_is_recorded() {
    let (r, ca) = parse(&["prog", "q", "-B", "4"]);
    assert_eq!(r, Ok(ParseOutcome::Completed));
    assert_eq!(ca.before_context, 4);
}

#[test]
fn invalid_after_value_is_rejected() {
    let (r, _) = parse(&["prog", "-A", "x"]);
    assert_eq!(
        r,
        Err(ParseError::InvalidOptionValue("A".to_string(), "x".to_string()))
    );
}

#[test]
fn invalid_value_aborts_before_later_tokens() {
    let (r, ca) = parse(&["prog", "-A", "x", "-i", "q"]);
    assert!(r.is_err());
    assert!(!ca.ignore_case);
    assert_eq!(ca.query, "");
}

#[test]
fn ignore_case_spellings_agree_and_repeat() {
    let (r1, ca1) = parse(&["prog", "-i", "q"]);
    let (r2, ca2) = parse(&["prog", "--ignore-case", "q"]);
    let (r3, ca3) = parse(&["prog", "-i", "--ignore-case", "-i", "q"]);
    assert_eq!(r1, Ok(ParseOutcome::Completed));
    assert_eq!(r2, Ok(ParseOutcome::Completed));
    assert_eq!(r3, Ok(ParseOutcome::Completed));
    assert!(ca1.ignore_case && ca2.ignore_case && ca3.ignore_case);
    assert_eq!(ca1, ca2);
    assert_eq!(ca1, ca3);
}

#[test]
fn two_equal_signs_are_malformed() {
    let (r, _) = parse(&["prog", "--foo=bar=baz"]);
    assert_eq!(r, Err(ParseError::MalformedToken("--foo=bar=baz".to_string())));
}

#[test]
fn help_short_circuits() {
    let (r, ca) = parse(&["prog", "-h"]);
    assert_eq!(r, Ok(ParseOutcome::HelpRequested));
    assert_eq!(ca.query, "");
}

#[test]
fn help_long_form_short_circuits_before_later_tokens() {
    let (r, ca) = parse(&["prog", "--help", "--foo"]);
    assert_eq!(r, Ok(ParseOutcome::HelpRequested));
    assert!(ca.files.is_empty());
}

#[test]
fn error_before_help_wins() {
    let (r, _) = parse(&["prog", "--foo", "-h"]);
    assert_eq!(r, Err(ParseError::UnknownOption("foo".to_string())));
}

#[test]
fn missing_value_at_end() {
    let (r, _) = parse(&["prog", "-A"]);
    assert_eq!(r, Err(ParseError::MissingValue("A".to_string())));
}

#[test]
fn missing_value_long_form() {
    let (r, _) = parse(&["prog", "q", "--before-context"]);
    assert_eq!(r, Err(ParseError::MissingValue("before-context".to_string())));
}

#[test]
fn unknown_long_option() {
    let (r, _) = parse(&["prog", "--foo", "x"]);
    assert_eq!(r, Err(ParseError::UnknownOption("foo".to_string())));
}

#[test]
fn unknown_short_option() {
    let (r, _) = parse(&["prog", "-z", "q"]);
    assert_eq!(r, Err(ParseError::UnknownOption("z".to_string())));
}

#[test]
fn lone_dash_is_an_unknown_option() {
    let (r, _) = parse(&["prog", "-"]);
    assert_eq!(r, Err(ParseError::UnknownOption(String::new())));
}

#[test]
fn lone_double_dash_is_an_unknown_option() {
    let (r, _) = parse(&["prog", "--"]);
    assert_eq!(r, Err(ParseError::UnknownOption(String::new())));
}

#[test]
fn flag_with_inline_value_is_invalid() {
    let (r, _) = parse(&["prog", "--ignore-case=true"]);
    assert_eq!(
        r,
        Err(ParseError::InvalidOptionValue("ignore-case".to_string(), "true".to_string()))
    );
}

#[test]
fn empty_inline_value_is_invalid() {
    let (r, _) = parse(&["prog", "--after-context="]);
    assert_eq!(
        r,
        Err(ParseError::InvalidOptionValue("after-context".to_string(), String::new()))
    );
}

#[test]
fn largest_count_fits() {
    let (r, ca) = parse(&["prog", "-A", "4294967295", "q"]);
    assert_eq!(r, Ok(ParseOutcome::Completed));
    assert_eq!(ca.after_context, u32::MAX);
}

#[test]
fn count_above_u32_is_invalid() {
    let (r, _) = parse(&["prog", "-A", "4294967296"]);
    assert_eq!(
        r,
        Err(ParseError::InvalidOptionValue("A".to_string(), "4294967296".to_string()))
    );
}

#[test]
fn plus_prefixed_count_is_accepted() {
    let (r1, ca1) = parse(&["prog", "-A", "+1", "q"]);
    let (r2, ca2) = parse(&["prog", "--after-context=+2", "q"]);
    let (r3, ca3) = parse(&["prog", "--before-context", "+3", "q"]);
    assert_eq!(r1, Ok(ParseOutcome::Completed));
    assert_eq!(r2, Ok(ParseOutcome::Completed));
    assert_eq!(r3, Ok(ParseOutcome::Completed));
    assert_eq!(ca1.after_context, 1);
    assert_eq!(ca2.after_context, 2);
    assert_eq!(ca3.before_context, 3);
}

#[test]
fn lone_plus_count_is_invalid() {
    let (r, _) = parse(&["prog", "-A", "+"]);
    assert_eq!(
        r,
        Err(ParseError::InvalidOptionValue("A".to_string(), "+".to_string()))
    );
}

#[test]
fn leading_zeros_are_accepted() {
    let (r, ca) = parse(&["prog", "-A", "007", "q"]);
    assert_eq!(r, Ok(ParseOutcome::Completed));
    assert_eq!(ca.after_context, 7);
}

#[test]
fn negative_count_is_invalid() {
    let (r, _) = parse(&["prog", "q", "-B", "-2"]);
    assert_eq!(
        r,
        Err(ParseError::InvalidOptionValue("B".to_string(), "-2".to_string()))
    );
}

#[test]
fn first_error_is_reported() {
    let (r, _) = parse(&["prog", "--foo", "--bar"]);
    assert_eq!(r, Err(ParseError::UnknownOption("foo".to_string())));
}
