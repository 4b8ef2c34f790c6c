use termino::cli::{
    parse_duration, run, run_countdown, run_history, run_pomodoro, Args, CliError, Commands,
    DurationError, Plan,
};
use termino::timer::TimerState;

#[test]
fn test_cli_history_invalid_type() {
    let r = run(Args {
        command: Commands::History { limit: 10, session_type: Some("invalid".to_string()) },
    });
    assert!(matches!(r, Err(CliError::InvalidSessionType(ref t)) if t == "invalid"));
}

#[test]
fn test_cli_history_with_limit() {
    let r = run(Args { command: Commands::History { limit: 5, session_type: None } });
    assert!(matches!(r, Ok(Plan::History { limit: 5, session_type: None })));
}

#[test]
fn parse_duration_readme_examples() {
    assert_eq!(parse_duration("5m"), Ok(300));
    assert_eq!(parse_duration("1h30m"), Ok(5400));
    assert_eq!(parse_duration("90s"), Ok(90));
    assert_eq!(parse_duration("2h"), Ok(7200));
    assert_eq!(parse_duration("25m"), Ok(1500));
}

#[test]
fn parse_duration_bare_number_is_seconds() {
    assert_eq!(parse_duration("90"), Ok(90));
    assert_eq!(parse_duration("1m30"), Ok(90));
    assert_eq!(parse_duration("1h1m1s"), Ok(3661));
    assert_eq!(parse_duration("007s"), Ok(7));
}

#[test]
fn parse_duration_errors() {
    assert_eq!(parse_duration(""), Err(DurationError::Empty));
    assert_eq!(parse_duration("m"), Err(DurationError::ExpectedNumber(0)));
    assert_eq!(parse_duration("5mm"), Err(DurationError::ExpectedNumber(2)));
    assert_eq!(parse_duration("5x"), Err(DurationError::UnknownUnit('x')));
    assert_eq!(parse_duration("5é"), Err(DurationError::UnknownUnit('é')));
    assert_eq!(parse_duration("0"), Err(DurationError::NotPositive));
    assert_eq!(parse_duration("0h0m"), Err(DurationError::NotPositive));
    assert_eq!(parse_duration("99999999999999999999"), Err(DurationError::TooLarge));
    // an error later in the text wins over an overflow before it
    assert_eq!(parse_duration("99999999999999999999hx"), Err(DurationError::ExpectedNumber(21)));
    assert_eq!(parse_duration("18446744073709551615"), Ok(u64::MAX));
}

#[test]
fn run_countdown_in_milliseconds() {
    let cd = run_countdown("1h30m").unwrap();
    assert_eq!(cd.duration(), 5_400_000);
    assert_eq!(cd.state(), TimerState::Idle);
    assert!(matches!(run_countdown("5q"), Err(CliError::Duration(DurationError::UnknownUnit('q')))));
    assert!(matches!(
        run_countdown("18446744073709552s"),
        Err(CliError::Duration(DurationError::TooLarge))
    ));
}

#[test]
fn run_pomodoro_checks_and_scales() {
    let pt = run_pomodoro(25, 5, 4, 15).unwrap();
    assert_eq!(pt.work_duration, 25 * 60_000);
    assert_eq!(pt.break_duration, 5 * 60_000);
    assert_eq!(pt.long_break_duration, 15 * 60_000);
    assert_eq!(pt.cycles_target, 4);
    assert!(matches!(run_pomodoro(0, 5, 4, 15), Err(CliError::NonPositivePomodoro)));
    assert!(matches!(run_pomodoro(25, 5, 0, 15), Err(CliError::NonPositivePomodoro)));
    assert!(matches!(run_pomodoro(25, 5, 4, 0), Err(CliError::NonPositivePomodoro)));
    assert!(matches!(run_pomodoro(25, 0, 4, 15), Err(CliError::NonPositivePomodoro)));
}

#[test]
fn run_history_accepts_known_types() {
    for t in ["stopwatch", "countdown", "pomodoro"] {
        let r = run_history(3, Some(t.to_string())).unwrap();
        assert_eq!(r, (3, Some(t.to_string())));
    }
    assert_eq!(run_history(7, None).unwrap(), (7, None));
    assert_eq!(
        run_history(7, Some("Stopwatch".to_string())),
        Err(CliError::InvalidSessionType("Stopwatch".to_string()))
    );
}

#[test]
fn run_dispatches_each_command() {
    assert!(matches!(run(Args { command: Commands::Stopwatch }), Ok(Plan::Stopwatch(_))));
    match run(Args { command: Commands::Countdown { duration: "25m".to_string() } }) {
        Ok(Plan::Countdown(cd)) => assert_eq!(cd.duration(), 1_500_000),
        _ => panic!("expected a countdown"),
    }
    assert!(matches!(
        run(Args { command: Commands::Countdown { duration: "".to_string() } }),
        Err(CliError::Duration(DurationError::Empty))
    ));
    match run(Args {
        command: Commands::Pomodoro { work: 50, break_duration: 10, cycles: 3, long_break: 15 },
    }) {
        Ok(Plan::Pomodoro(pt)) => {
            assert_eq!(pt.work_duration, 50 * 60_000);
            assert_eq!(pt.cycles_target, 3);
        }
        _ => panic!("expected a pomodoro"),
    }
}
