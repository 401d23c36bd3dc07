use ghost_amd::shell::{parse_clean_choice, parse_command, CleanChoice, ShellCommand};

#[test]
fn empty_and_blank_lines() {
    assert!(matches!(parse_command(""), ShellCommand::Empty));
    assert!(matches!(parse_command(" \t \r\n"), ShellCommand::Empty));
}

#[test]
fn exit_and_quit() {
    assert!(matches!(parse_command("exit"), ShellCommand::Exit));
    assert!(matches!(parse_command("  quit  \n"), ShellCommand::Exit));
    assert!(matches!(parse_command("exit now"), ShellCommand::Exit));
}

#[test]
fn cd_joins_words() {
    match parse_command("cd   My   Projects \n") {
        ShellCommand::ChangeDir(Some(d)) => assert_eq!(d, "My Projects"),
        other => panic!("unexpected {:?}", other),
    }
    assert!(matches!(parse_command("cd"), ShellCommand::ChangeDir(None)));
}

#[test]
fn list_commands() {
    assert!(matches!(parse_command("ls"), ShellCommand::List));
    assert!(matches!(parse_command("dir"), ShellCommand::List));
}

#[test]
fn run_with_tui() {
    match parse_command("run app.py --port 7860") {
        ShellCommand::Run { script, args, use_tui } => {
            assert_eq!(script, "app.py");
            assert_eq!(args, vec!["--port".to_string(), "7860".to_string()]);
            assert!(use_tui);
        }
        other => panic!("unexpected {:?}", other),
    }
}

#[test]
fn run_without_tui() {
    match parse_command("run --no-tui train.py") {
        ShellCommand::Run { script, args, use_tui } => {
            assert_eq!(script, "train.py");
            assert!(args.is_empty());
            assert!(!use_tui);
        }
        other => panic!("unexpected {:?}", other),
    }
}

#[test]
fn run_usage() {
    assert!(matches!(parse_command("run"), ShellCommand::RunUsage));
    assert!(matches!(parse_command("run --no-tui"), ShellCommand::RunUsage));
}

#[test]
fn translate_commands() {
    match parse_command("translate kernels --aggressive") {
        ShellCommand::Translate { folder, aggressive } => {
            assert_eq!(folder, "kernels");
            assert!(aggressive);
        }
        other => panic!("unexpected {:?}", other),
    }
    match parse_command("translate kernels") {
        ShellCommand::Translate { folder, aggressive } => {
            assert_eq!(folder, "kernels");
            assert!(!aggressive);
        }
        other => panic!("unexpected {:?}", other),
    }
    assert!(matches!(parse_command("translate"), ShellCommand::TranslateUsage));
}

#[test]
fn tool_commands() {
    assert!(matches!(parse_command("benchmark"), ShellCommand::Benchmark));
    assert!(matches!(parse_command("doctor"), ShellCommand::Doctor));
    assert!(matches!(parse_command("install-deps"), ShellCommand::InstallDeps));
    assert!(matches!(parse_command("clean"), ShellCommand::Clean));
}

#[test]
fn nested_shell_is_refused() {
    for c in ["ghost", "ghost.exe", "./ghost", ".\\ghost.exe"] {
        assert!(matches!(parse_command(c), ShellCommand::AlreadyInShell));
    }
}

#[test]
fn other_commands_are_external() {
    match parse_command("  python   -m pip list ") {
        ShellCommand::External { program, args, line } => {
            assert_eq!(program, "python");
            assert_eq!(args, vec!["-m".to_string(), "pip".to_string(), "list".to_string()]);
            assert_eq!(line, "python   -m pip list");
        }
        other => panic!("unexpected {:?}", other),
    }
}

#[test]
fn commands_are_case_sensitive() {
    assert!(matches!(parse_command("EXIT"), ShellCommand::External { .. }));
}

#[test]
fn unicode_whitespace_separates_words() {
    match parse_command("\u{3000}cd\u{00A0}a\u{2003}b") {
        ShellCommand::ChangeDir(Some(d)) => assert_eq!(d, "a b"),
        other => panic!("unexpected {:?}", other),
    }
}

#[test]
fn clean_menu_choices() {
    assert_eq!(parse_clean_choice("1\n"), CleanChoice::Registry);
    assert_eq!(parse_clean_choice(" 2 "), CleanChoice::Folder);
    assert_eq!(parse_clean_choice("3\r\n"), CleanChoice::Everything);
    assert_eq!(parse_clean_choice("4"), CleanChoice::Cancel);
    assert_eq!(parse_clean_choice(""), CleanChoice::Cancel);
    assert_eq!(parse_clean_choice("12"), CleanChoice::Cancel);
}
