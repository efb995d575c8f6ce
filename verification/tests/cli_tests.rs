use jugar_web::cli::{difficulty_name, parse_command, Command};

fn args(list: &[&str]) -> Vec<String> {
    list.iter().map(|s| s.to_string()).collect()
}

#[test]
fn difficulty_names() {
    let expected = [
        "Training Wheels",
        "Beginner",
        "Easy",
        "Casual",
        "Normal",
        "Challenging",
        "Hard",
        "Very Hard",
        "Expert",
        "Master",
    ];
    for (level, name) in expected.iter().enumerate() {
        assert_eq!(difficulty_name(level as u8), *name);
    }
    assert_eq!(difficulty_name(10), "Unknown");
    assert_eq!(difficulty_name(255), "Unknown");
}

#[test]
fn no_command_is_help() {
    assert!(matches!(parse_command(&args(&["pong_ai_cli"])), Command::Help));
    assert!(matches!(parse_command(&args(&[])), Command::Help));
    assert!(matches!(parse_command(&args(&["pong_ai_cli", "help"])), Command::Help));
    assert!(matches!(parse_command(&args(&["pong_ai_cli", "bogus"])), Command::Help));
}

#[test]
fn simple_commands() {
    assert!(matches!(parse_command(&args(&["p", "info"])), Command::Info));
    assert!(matches!(parse_command(&args(&["p", "test-dda"])), Command::TestDda));
    assert!(matches!(parse_command(&args(&["p", "prove-determinism"])), Command::ProveDeterminism));
}

#[test]
fn simulate_defaults_and_options() {
    match parse_command(&args(&["p", "simulate"])) {
        Command::Simulate { difficulty, rounds } => assert_eq!((difficulty, rounds), (5, 100)),
        other => panic!("unexpected {other:?}"),
    }
    match parse_command(&args(&["p", "simulate", "--rounds", "7", "--difficulty", "9"])) {
        Command::Simulate { difficulty, rounds } => assert_eq!((difficulty, rounds), (9, 7)),
        other => panic!("unexpected {other:?}"),
    }
    match parse_command(&args(&["p", "simulate", "--difficulty", "300", "--rounds", "-1"])) {
        Command::Simulate { difficulty, rounds } => assert_eq!((difficulty, rounds), (5, 100)),
        other => panic!("unexpected {other:?}"),
    }
    match parse_command(&args(&["p", "simulate", "--difficulty", "+2", "--rounds"])) {
        Command::Simulate { difficulty, rounds } => assert_eq!((difficulty, rounds), (2, 100)),
        other => panic!("unexpected {other:?}"),
    }
    match parse_command(&args(&["p", "simulate", "--difficulty", "3", "--difficulty", "4"])) {
        Command::Simulate { difficulty, .. } => assert_eq!(difficulty, 3),
        other => panic!("unexpected {other:?}"),
    }
}

#[test]
fn export_output() {
    match parse_command(&args(&["p", "export", "--output", "model.json"])) {
        Command::Export { output } => assert_eq!(output.as_deref(), Some("model.json")),
        other => panic!("unexpected {other:?}"),
    }
    match parse_command(&args(&["p", "export"])) {
        Command::Export { output } => assert_eq!(output, None),
        other => panic!("unexpected {other:?}"),
    }
    match parse_command(&args(&["p", "export", "--output"])) {
        Command::Export { output } => assert_eq!(output, None),
        other => panic!("unexpected {other:?}"),
    }
}
