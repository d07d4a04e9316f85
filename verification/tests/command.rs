use manticore_sentinel::command::{parse_command, CommandAction};

#[test]
fn parses_show_cpu() {
    let action = parse_command("show cpu").expect("should parse");
    assert!(matches!(action, CommandAction::ShowCpu));
}

#[test]
fn rejects_shell_operators() {
    let err = parse_command("show cpu | cat").expect_err("should reject");
    assert!(err.contains("shell operators"));
}

#[test]
fn rejects_zero_pid_kill() {
    let err = parse_command("kill 0").expect_err("should reject");
    assert!(err.contains("pid must be > 0"));
}

#[test]
fn parses_renice_command() {
    let action = parse_command("renice 10 123").expect("should parse");
    match action {
        CommandAction::ReniceProcess { pid, nice } => {
            assert_eq!(pid, 123);
            assert_eq!(nice, 10);
        }
        _ => panic!("unexpected action"),
    }
}

#[test]
fn rejects_too_long_command() {
    let input = "x".repeat(300);
    let err = parse_command(&input).expect_err("should reject");
    assert!(err.contains("too long"));
}

#[test]
fn parses_show_memory() {
    let action = parse_command("show memory").expect("should parse");
    assert!(matches!(action, CommandAction::ShowMemory));
    let action = parse_command("show mem").expect("should parse");
    assert!(matches!(action, CommandAction::ShowMemory));
}

#[test]
fn parses_show_processes_with_flags() {
    let action = parse_command("show processes --sort rss --limit 10").expect("should parse");
    match action {
        CommandAction::ShowProcesses { sort, limit } => {
            assert_eq!(sort, Some("rss".to_string()));
            assert_eq!(limit, Some(10));
        }
        _ => panic!("unexpected action"),
    }
}

#[test]
fn rejects_invalid_show_processes_sort() {
    let err = parse_command("show processes --sort bogus").expect_err("should reject");
    assert!(err.contains("invalid --sort"));
}

#[test]
fn rejects_zero_show_processes_limit() {
    let err = parse_command("show processes --limit 0").expect_err("should reject");
    assert!(err.contains("--limit"));
}

#[test]
fn parses_help_with_topic() {
    let action = parse_command("help config").expect("should parse");
    match action {
        CommandAction::Help { topic } => assert_eq!(topic, Some("config".to_string())),
        _ => panic!("unexpected action"),
    }
}

#[test]
fn parses_show_audit_with_last() {
    let action = parse_command("show audit --last 50").expect("should parse");
    match action {
        CommandAction::ShowAudit { last } => assert_eq!(last, 50),
        _ => panic!("unexpected action"),
    }
}

#[test]
fn rejects_zero_show_audit_last() {
    let err = parse_command("show audit --last 0").expect_err("should reject");
    assert!(err.contains("--last"));
}

#[test]
fn unknown_command_suggests_help() {
    let err = parse_command("foo bar").expect_err("should reject");
    assert!(err.contains("help"));
}
