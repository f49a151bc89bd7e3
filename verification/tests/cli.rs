use intel_features::cli::{parse_args_from, ArgsExit};

#[test]
fn parses_module_loading_opt_in() {
    let args = parse_args_from(&vec!["--json".to_string(), "--load-msr-module".to_string()])
        .unwrap();
    assert!(args.json);
    assert!(args.load_msr_module);
}

#[test]
fn module_loading_is_off_by_default() {
    let args = parse_args_from(&Vec::<String>::new()).unwrap();
    assert!(!args.load_msr_module);
}

#[test]
fn rejects_unknown_option() {
    assert!(parse_args_from(&vec!["--bogus".to_string()]).is_err());
}

#[test]
fn last_color_option_wins_and_help_stops() {
    let args = parse_args_from(&vec![
        "--color".to_string(),
        "-a".to_string(),
        "--no-color".to_string(),
    ])
    .unwrap();
    assert_eq!(args.color, Some(false));
    assert!(args.show_absent);
    match parse_args_from(&vec!["-v".to_string(), "--help".to_string(), "--bogus".to_string()]) {
        Err(e @ ArgsExit::Help) => assert_eq!(e.exit_code(), 0),
        other => panic!("unexpected {other:?}"),
    }
    match parse_args_from(&vec!["--bogus".to_string(), "-V".to_string()]) {
        Err(e @ ArgsExit::UnknownArgument(_)) => {
            assert_eq!(e.exit_code(), 2);
            if let ArgsExit::UnknownArgument(a) = e {
                assert_eq!(a, "--bogus");
            }
        }
        other => panic!("unexpected {other:?}"),
    }
}
