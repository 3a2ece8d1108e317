use rgrep_args::applier::{parse_flag, parse_non_flag};
use rgrep_args::args::CommandArgs;
use rgrep_args::errors::{error_message, option_error_string, ParseError};
use rgrep_args::help::render_help;
use rgrep_args::numeric::parse_u32;
use rgrep_args::parser::{parse_nonflag_or_flag, OptionType};
use rgrep_args::registry::{all_categories, lookup};
use rgrep_args::tokenizer::{classify, Token};

#[test]
fn parse_u32_accepts_what_u32_parsing_accepts() {
    assert_eq!(parse_u32("0"), Some(0));
    assert_eq!(parse_u32("42"), Some(42));
    assert_eq!(parse_u32("4294967295"), Some(u32::MAX));
    assert_eq!(parse_u32("+0"), Some(0));
    assert_eq!(parse_u32("+1"), Some(1));
    assert_eq!(parse_u32("+007"), Some(7));
    assert_eq!(parse_u32("+4294967295"), Some(u32::MAX));
}

#[test]
fn parse_u32_rejects_everything_else() {
    assert_eq!(parse_u32(""), None);
    assert_eq!(parse_u32("x"), None);
    assert_eq!(parse_u32("1x"), None);
    assert_eq!(parse_u32("-1"), None);
    assert_eq!(parse_u32("+"), None);
    assert_eq!(parse_u32("++1"), None);
    assert_eq!(parse_u32("+x"), None);
    assert_eq!(parse_u32("1+"), None);
    assert_eq!(parse_u32(" 1"), None);
    assert_eq!(parse_u32("4294967296"), None);
    assert_eq!(parse_u32("+4294967296"), None);
}

#[test]
fn parse_u32_agrees_with_the_standard_parser() {
    for s in ["0", "42", "+1", "+007", "4294967295", "+4294967295", "", "+", "++1", "x", "1x",
        "-1", " 1", "4294967296"] {
        assert_eq!(parse_u32(s), s.parse::<u32>().ok());
    }
}

#[test]
fn classify_splits_tokens() {
    match classify("--after-context=5") {
        Token::LongInline { name, value } => {
            assert_eq!(name, "after-context");
            assert_eq!(value, "5");
        }
        _ => panic!("expected a long option with an inline value"),
    }
    match classify("--ignore-case") {
        Token::LongBare { name } => assert_eq!(name, "ignore-case"),
        _ => panic!("expected a bare long option"),
    }
    match classify("-A") {
        Token::Short { name } => assert_eq!(name, "A"),
        _ => panic!("expected a short option"),
    }
    assert!(matches!(classify("needle"), Token::Positional));
    assert!(matches!(classify(""), Token::Positional));
    assert!(matches!(classify("--a=b=c"), Token::Malformed));
}

#[test]
fn apply_flag_sets_ignore_case() {
    let mut ca = CommandArgs::new();
    assert_eq!(parse_flag("i", &mut ca), Ok(()));
    assert!(ca.ignore_case);
    assert_eq!(parse_flag("ignore-case", &mut ca), Ok(()));
    assert!(ca.ignore_case);
    assert_eq!(
        parse_flag("q", &mut ca),
        Err(ParseError::UnknownOption("q".to_string()))
    );
}

#[test]
fn apply_value_sets_contexts() {
    let mut ca = CommandArgs::new();
    assert_eq!(parse_non_flag("A", "3", &mut ca), Ok(()));
    assert_eq!(ca.after_context, 3);
    assert_eq!(parse_non_flag("before-context", "9", &mut ca), Ok(()));
    assert_eq!(ca.before_context, 9);
    assert_eq!(
        parse_non_flag("B", "no", &mut ca),
        Err(ParseError::InvalidOptionValue("B".to_string(), "no".to_string()))
    );
    assert_eq!(ca.before_context, 9);
    assert_eq!(
        parse_non_flag("what", "1", &mut ca),
        Err(ParseError::UnknownOption("what".to_string()))
    );
}

#[test]
fn lookahead_consumes_the_next_token() {
    let args: Vec<String> = vec!["prog".to_string(), "-A".to_string(), "6".to_string()];
    let mut ca = CommandArgs::new();
    let r = parse_nonflag_or_flag("A", 3, 1, &args, &mut ca);
    assert_eq!(r, Ok(OptionType::NonFlag));
    assert_eq!(ca.after_context, 6);
}

#[test]
fn lookahead_reports_a_missing_value() {
    let args: Vec<String> = vec!["prog".to_string(), "-B".to_string()];
    let mut ca = CommandArgs::new();
    let r = parse_nonflag_or_flag("B", 2, 1, &args, &mut ca);
    assert_eq!(r, Err(ParseError::MissingValue("B".to_string())));
}

#[test]
fn lookahead_recognizes_help_and_flags() {
    let args: Vec<String> = vec!["prog".to_string(), "-h".to_string()];
    let mut ca = CommandArgs::new();
    assert_eq!(parse_nonflag_or_flag("h", 2, 1, &args, &mut ca), Ok(OptionType::Help));
    assert_eq!(parse_nonflag_or_flag("i", 2, 1, &args, &mut ca), Ok(OptionType::Flag));
    assert!(ca.ignore_case);
}

#[test]
fn lookup_finds_each_form() {
    let a = lookup("A").expect("short name");
    assert_eq!(a.long_form, "--after-context=NUM");
    assert!(a.takes_value);
    assert_eq!(a.default_value, "0");
    let a2 = lookup("after-context").expect("long name");
    assert_eq!(a2, a);
    let i = lookup("ignore-case").expect("flag");
    assert_eq!(i.short_form, "-i");
    assert!(!i.takes_value);
    assert_eq!(i.default_value, "false");
    let h = lookup("h").expect("help");
    assert_eq!(h.long_form, "--help");
    assert!(lookup("foo").is_none());
    assert!(lookup("-A").is_none());
}

#[test]
fn categories_carry_all_four_options() {
    let cats = all_categories();
    assert_eq!(cats.len(), 3);
    assert_eq!(cats[0].name, "Pattern selection and interpretation");
    assert_eq!(cats[0].options.len(), 1);
    assert_eq!(cats[1].name, "Context control");
    assert_eq!(cats[1].options.len(), 2);
    assert_eq!(cats[2].name, "Miscellaneous");
    assert_eq!(cats[2].options.len(), 1);
    assert_eq!(cats[1].options[0].short_form, "-A");
    assert_eq!(cats[1].options[1].short_form, "-B");
}

#[test]
fn help_text_lists_every_option_with_its_default() {
    let h = render_help();
    assert!(h.starts_with("Usage: rgrep [OPTION..] PATTERN FILE [FILE..]\n"));
    assert!(h.contains("Search for PATTERNS in each FILE.\n"));
    assert!(h.contains("Example: rgrep -i 'hello world' menu.h main.c\n"));
    assert!(h.contains("  -i, --ignore-case  ignore case distinctions in patterns and data(default false)\n"));
    assert!(h.contains("  -A, --after-context=NUM  print NUM lines of trailing context(default 0)\n"));
    assert!(h.contains("  -B, --before-context=NUM  print NUM lines of leading context(default 0)\n"));
    assert!(h.contains("  -h, --help  display this help text and exit\n"));
    assert!(h.contains("Pattern selection and interpretation:\n"));
    assert!(h.contains("Context control:\n"));
    assert!(h.contains("Miscellaneous:\n"));
}

#[test]
fn messages_match_each_error() {
    assert_eq!(option_error_string("A", "x"), "Option A got invalid value: x");
    assert_eq!(
        error_message(&ParseError::InvalidOptionValue("A".to_string(), "x".to_string())),
        "Option A got invalid value: x"
    );
    assert_eq!(
        error_message(&ParseError::UnknownOption("foo".to_string())),
        "Unexpected option foo"
    );
    assert_eq!(
        error_message(&ParseError::MissingValue("A".to_string())),
        "Option A requires value but no value is passed"
    );
    assert_eq!(
        error_message(&ParseError::MalformedToken("--a=b=c".to_string())),
        "Option --a=b=c has more than one equal sign"
    );
}
