use cli_parser::{CliError, CliParser, ParseFailure, ParseFunc, PatternType};

#[derive(Debug)]
struct Tester {
    i: i32,
    j: i32,
    k: i32,
    l: i32,
}

enum TesterCb {
    StoreI,
    SetJ,
    StoreK,
    SetL,
}

impl ParseFunc<Tester> for TesterCb {
    fn parse(&self, s: String, parse_obj: &mut Tester) -> Result<(), String> {
        match self {
            TesterCb::StoreI => s
                .parse::<i32>()
                .map(|int_arg| {
                    parse_obj.i = int_arg;
                })
                .map_err(|_| format!("fail to parse argument: \"{}\"", &s)),
            TesterCb::SetJ => {
                assert_eq!(s, String::new());
                parse_obj.j = 1024;
                Ok(())
            }
            TesterCb::StoreK => s
                .parse::<i32>()
                .map(|int_arg| {
                    parse_obj.k = int_arg;
                })
                .map_err(|_| format!("fail to parse argument: \"{}\"", &s)),
            TesterCb::SetL => {
                assert_eq!(s, String::new());
                parse_obj.l = 23;
                Ok(())
            }
        }
    }
}

fn build_tester_parser() -> CliParser<Tester, TesterCb> {
    let mut cli_parser = CliParser::new(Tester {
        i: 0,
        j: 0,
        k: 21,
        l: 22,
    });
    cli_parser
        .register_pattern(
            "-pat1",
            PatternType::WithArg,
            "pat1-description",
            TesterCb::StoreI,
        )
        .unwrap();
    cli_parser
        .register_pattern(
            "-pat2",
            PatternType::WithoutArg,
            "pat2-description",
            TesterCb::SetJ,
        )
        .unwrap();
    cli_parser
        .register_pattern(
            "-pat3",
            PatternType::OptionalWithArg,
            "pat3-description",
            TesterCb::StoreK,
        )
        .unwrap();
    cli_parser
        .register_pattern(
            "-pat4",
            PatternType::OptionalWithoutArg,
            "pat2-description",
            TesterCb::SetL,
        )
        .unwrap();
    cli_parser
}

#[test]
fn test1() {
    let cli_parser = build_tester_parser();
    let arg_list = vec![
        "-pat1".to_string(),
        "3".to_string(),
        "-pat2".to_string(),
        "-pat3".to_string(),
        "4".to_string(),
        "-pat4".to_string(),
    ];
    let parse_obj = cli_parser.do_parse_args(arg_list).unwrap();
    assert_eq!(parse_obj.i, 3);
    assert_eq!(parse_obj.j, 1024);
    assert_eq!(parse_obj.k, 4);
    assert_eq!(parse_obj.l, 23);
}

#[test]
fn test2() {
    let cli_parser = build_tester_parser();
    let arg_list = vec![
        "-pat1".to_string(),
        "3".to_string(),
        "-pat2".to_string(),
        "-pat3".to_string(),
        "4".to_string(),
    ];
    let parse_obj = cli_parser.do_parse_args(arg_list).unwrap();
    assert_eq!(parse_obj.i, 3);
    assert_eq!(parse_obj.j, 1024);
    assert_eq!(parse_obj.k, 4);
    assert_eq!(parse_obj.l, 22);
}

#[test]
fn test3() {
    let cli_parser = build_tester_parser();
    let arg_list = vec!["-pat1".to_string(), "3".to_string(), "-pat2".to_string()];
    let parse_obj = cli_parser.do_parse_args(arg_list).unwrap();
    assert_eq!(parse_obj.i, 3);
    assert_eq!(parse_obj.j, 1024);
    assert_eq!(parse_obj.k, 21);
    assert_eq!(parse_obj.l, 22);
}

#[test]
fn distinct_registrations_all_succeed() {
    let mut cli_parser: CliParser<Tester, TesterCb> = CliParser::new(Tester {
        i: 0,
        j: 0,
        k: 21,
        l: 22,
    });
    assert!(cli_parser
        .register_pattern("-a", PatternType::WithArg, "a", TesterCb::StoreI)
        .is_ok());
    assert!(cli_parser
        .register_pattern("-b", PatternType::WithoutArg, "b", TesterCb::SetJ)
        .is_ok());
    assert!(cli_parser
        .register_pattern("-c", PatternType::OptionalWithArg, "c", TesterCb::StoreK)
        .is_ok());
    // Two compulsory registrations were made, and the parse reports
    // exactly that count when none of them is satisfied.
    let err = cli_parser.do_parse_args(Vec::new()).unwrap_err();
    assert_eq!(
        err.message(),
        "[CliParser Error]: the number of compulsory argument patterns is 2, \
         but only find 0 in the argument list."
    );
}

#[test]
fn duplicate_registration_fails_and_changes_nothing() {
    let mut cli_parser = build_tester_parser();
    let help_before = cli_parser.build_help_string();
    let err = cli_parser
        .register_pattern(
            "-pat1",
            PatternType::OptionalWithoutArg,
            "other-description",
            TesterCb::SetL,
        )
        .unwrap_err();
    assert!(matches!(&err, CliError::DuplicatePattern(s) if s.as_str() == "-pat1"));
    assert_eq!(
        err.message(),
        "[CliParser Error]: argument pattern \"-pat1\" is duplicated."
    );
    // The pattern set and the compulsory count are as they were.
    assert_eq!(cli_parser.build_help_string(), help_before);
    let err = cli_parser.do_parse_args(Vec::new()).unwrap_err();
    assert_eq!(
        err.message(),
        "[CliParser Error]: the number of compulsory argument patterns is 2, \
         but only find 0 in the argument list."
    );
}

#[test]
fn empty_input_with_compulsory_pattern_is_incomplete() {
    let mut cli_parser: CliParser<Tester, TesterCb> = CliParser::new(Tester {
        i: 0,
        j: 0,
        k: 21,
        l: 22,
    });
    cli_parser
        .register_pattern("-f1", PatternType::WithArg, "f1-description", TesterCb::StoreI)
        .unwrap();
    let err = cli_parser.do_parse_args(Vec::new()).unwrap_err();
    assert!(matches!(
        &err,
        CliError::IncompleteCompulsory {
            expected: 1,
            actual: 0
        }
    ));
}

#[test]
fn empty_input_with_only_optional_patterns_succeeds() {
    let mut cli_parser: CliParser<Tester, TesterCb> = CliParser::new(Tester {
        i: 0,
        j: 0,
        k: 21,
        l: 22,
    });
    cli_parser
        .register_pattern(
            "-pat3",
            PatternType::OptionalWithArg,
            "pat3-description",
            TesterCb::StoreK,
        )
        .unwrap();
    cli_parser
        .register_pattern(
            "-pat4",
            PatternType::OptionalWithoutArg,
            "pat2-description",
            TesterCb::SetL,
        )
        .unwrap();
    let parse_obj = cli_parser.do_parse_args(Vec::new()).unwrap();
    assert_eq!(parse_obj.k, 21);
    assert_eq!(parse_obj.l, 22);
}

#[test]
fn unknown_token_aborts_the_parse() {
    let cli_parser = build_tester_parser();
    let err = cli_parser
        .do_parse_args(vec!["-unknown".to_string()])
        .unwrap_err();
    assert!(matches!(&err, CliError::UnknownPattern(s) if s.as_str() == "-unknown"));
    assert_eq!(
        err.message(),
        "[CliParser Error]: invalid argument pattern \"-unknown\""
    );
}

#[test]
fn argument_taking_flag_as_last_token_is_missing_argument() {
    let cli_parser = build_tester_parser();
    let err = cli_parser
        .do_parse_args(vec!["-pat1".to_string()])
        .unwrap_err();
    assert!(matches!(&err, CliError::MissingArgument(s) if s.as_str() == "-pat1"));
    assert_eq!(
        err.message(),
        "[CliParser Error]: no argument for pattern \"-pat1\"."
    );
}

#[test]
fn rematching_a_flag_is_a_duplicate() {
    let cli_parser = build_tester_parser();
    let err = cli_parser
        .do_parse_args(vec!["-pat2".to_string(), "-pat2".to_string()])
        .unwrap_err();
    assert!(matches!(&err, CliError::DuplicatePattern(s) if s.as_str() == "-pat2"));
}

#[test]
fn callback_failure_message_is_passed_through() {
    let cli_parser = build_tester_parser();
    let err = cli_parser
        .do_parse_args(vec!["-pat1".to_string(), "abc".to_string()])
        .unwrap_err();
    assert!(matches!(&err, CliError::CallbackFailure(_)));
    assert_eq!(err.message(), "fail to parse argument: \"abc\"");
}

#[test]
fn help_string_renders_one_line_per_pattern() {
    let cli_parser = build_tester_parser();
    assert_eq!(
        cli_parser.build_help_string(),
        "-pat1 arg: pat1-description\n-pat2: pat2-description\n\
         [-pat3 arg]: pat3-description\n[-pat4]: pat2-description"
    );
}

#[test]
fn leading_help_flag_short_circuits_to_help_text() {
    let cli_parser = build_tester_parser();
    let failure = cli_parser
        .parse_args(vec!["-h".to_string()])
        .unwrap_err();
    match failure {
        ParseFailure::HelpRequested(text) => assert_eq!(
            text,
            "-pat1 arg: pat1-description\n-pat2: pat2-description\n\
             [-pat3 arg]: pat3-description\n[-pat4]: pat2-description"
        ),
        ParseFailure::Failed(_) => panic!("expected the help text"),
    }
    let cli_parser = build_tester_parser();
    let failure = cli_parser
        .parse_args(vec!["--help".to_string(), "-pat1".to_string()])
        .unwrap_err();
    assert!(matches!(&failure, ParseFailure::HelpRequested(_)));
}

#[test]
fn parse_args_without_help_flag_runs_the_consumer() {
    let cli_parser = build_tester_parser();
    let parse_obj = cli_parser
        .parse_args(vec![
            "-pat1".to_string(),
            "3".to_string(),
            "-pat2".to_string(),
        ])
        .unwrap();
    assert_eq!(parse_obj.i, 3);
    assert_eq!(parse_obj.j, 1024);
    let cli_parser = build_tester_parser();
    let failure = cli_parser
        .parse_args(vec!["-x".to_string()])
        .unwrap_err();
    assert!(matches!(
        &failure,
        ParseFailure::Failed(CliError::UnknownPattern(_))
    ));
}

#[test]
fn help_flag_not_in_first_position_is_an_ordinary_token() {
    let cli_parser = build_tester_parser();
    let failure = cli_parser
        .parse_args(vec!["-pat2".to_string(), "-h".to_string()])
        .unwrap_err();
    assert!(matches!(
        &failure,
        ParseFailure::Failed(CliError::UnknownPattern(s)) if s.as_str() == "-h"
    ));
}

#[test]
fn need_arg_follows_the_category() {
    assert!(cli_parser::need_arg(&PatternType::WithArg));
    assert!(!cli_parser::need_arg(&PatternType::WithoutArg));
    assert!(cli_parser::need_arg(&PatternType::OptionalWithArg));
    assert!(!cli_parser::need_arg(&PatternType::OptionalWithoutArg));
}

#[test]
fn incomplete_message_renders_multi_digit_counts() {
    let err = CliError::IncompleteCompulsory {
        expected: 12,
        actual: 10,
    };
    assert_eq!(
        err.message(),
        "[CliParser Error]: the number of compulsory argument patterns is 12, \
         but only find 10 in the argument list."
    );
}
