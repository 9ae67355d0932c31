use run_this::config::{CommandConfig, Config, ConfigSource};
use run_this::invocation::{exit_status, run, Outcome, Step, UsageError};
use run_this::platform::Platform;
use run_this::report::{not_found_report, Line};

fn args_of(words: &[&str]) -> Vec<String> {
    words.iter().map(|w| w.to_string()).collect()
}

fn text_of(lines: &Vec<Line>) -> String {
    let mut out = String::new();
    for line in lines {
        out.push_str(&line.plain_text());
        out.push('\n');
    }
    out
}

fn no_dirs() -> Vec<String> {
    Vec::new()
}

#[test]
fn test_no_command_specified() {
    let step = run(&args_of(&[]), Platform::Linux, &no_dirs(), None);
    let error = match step {
        Step::Reject(error) => error,
        other => panic!("expected a usage error, got {:?}", other),
    };
    let status = exit_status(Outcome::Usage);
    let stderr = text_of(&error.report());

    assert_eq!(status, 1);
    assert!(stderr.contains("No command specified"));
}

#[test]
fn test_no_command_after_double_dash() {
    let step = run(&args_of(&["--"]), Platform::Linux, &no_dirs(), None);
    let error = match step {
        Step::Reject(error) => error,
        other => panic!("expected a usage error, got {:?}", other),
    };
    let status = exit_status(Outcome::Usage);
    let stderr = text_of(&error.report());

    assert_eq!(status, 1);
    assert!(stderr.contains("No command specified after --"));
}

#[test]
fn test_command_not_found() {
    let args = args_of(&["--", "non-existent-command-12345"]);
    let step = run(&args, Platform::Linux, &no_dirs(), None);
    let command = match step {
        Step::Report { command } => command,
        other => panic!("expected the command to be missing, got {:?}", other),
    };
    let status = exit_status(Outcome::NotFound);
    let stderr = text_of(&not_found_report(&command, Platform::Linux, ConfigSource::Missing));

    assert_eq!(status, 127);
    assert!(stderr.contains("Command not found"));
    assert!(stderr.contains("non-existent-command-12345"));
    assert!(stderr.contains("You don't have"));
    assert!(stderr.contains("installed on this system"));

    assert!(stderr.contains("Try installing it using your system's package manager"));
}

#[test]
fn test_custom_config() {
    let mut entry = CommandConfig::new();
    entry.url = Some("https://example.com/test".to_string());
    entry.messages = Some(vec!["Custom installation message".to_string()]);
    let mut config = Config::new();
    config.insert("test-command".to_string(), entry);

    let step = run(&args_of(&["--", "test-command"]), Platform::Linux, &no_dirs(), None);
    let command = match step {
        Step::Report { command } => command,
        other => panic!("expected the command to be missing, got {:?}", other),
    };
    let status = exit_status(Outcome::NotFound);
    let stderr = text_of(&not_found_report(&command, Platform::Linux, ConfigSource::Loaded(config)));

    assert_eq!(status, 127);
    assert!(stderr.contains("Command not found"));
    assert!(stderr.contains("test-command"));

    assert!(stderr.contains("To install, you can:"));
    assert!(stderr.contains("  Visit: https://example.com/test"));
    assert!(stderr.contains("  Custom installation message"));
    assert!(!stderr.contains("Try installing it using your system's package manager"));
    assert!(!stderr.contains("sudo apt install"));
}

#[test]
fn test_existing_command() {
    let args = args_of(&["--", "echo", "Hello, world!"]);
    let step = run(&args, Platform::Linux, &no_dirs(), None);
    assert_eq!(
        step,
        Step::Execute { program: "echo".to_string(), args: vec!["Hello, world!".to_string()] }
    );
    assert_eq!(exit_status(Outcome::Completed(Some(0))), 0);
}

#[test]
fn usage_errors_by_argument_list() {
    let none = no_dirs();
    assert_eq!(run(&args_of(&[]), Platform::Windows, &none, None), Step::Reject(UsageError::NoCommand));
    assert_eq!(run(&args_of(&[""]), Platform::Linux, &none, None), Step::Reject(UsageError::NoCommand));
    assert_eq!(
        run(&args_of(&["--"]), Platform::MacOS, &none, None),
        Step::Reject(UsageError::NoCommandAfterSeparator)
    );
    assert_eq!(
        run(&args_of(&["--", ""]), Platform::Unknown, &none, None),
        Step::Reject(UsageError::NoCommandAfterSeparator)
    );
}

#[test]
fn usage_report_has_two_lines() {
    let lines = UsageError::NoCommand.report();
    assert_eq!(lines.len(), 2);
    assert_eq!(lines[0].plain_text(), "No command specified.");
    assert_eq!(lines[1].plain_text(), "Usage: run-this [--] <command> [arguments]");
    let lines = UsageError::NoCommandAfterSeparator.report();
    assert_eq!(lines.len(), 2);
    assert_eq!(lines[0].plain_text(), "No command specified after --.");
    assert!(lines[0].plain_text().contains("--"));
    assert_eq!(lines[1].plain_text(), "Usage: run-this [--] <command> [arguments]");
}

#[test]
fn exit_status_by_outcome() {
    assert_eq!(exit_status(Outcome::Usage), 1);
    assert_eq!(exit_status(Outcome::SpawnFailed), 1);
    assert_eq!(exit_status(Outcome::NotFound), 127);
    assert_eq!(exit_status(Outcome::Completed(Some(0))), 0);
    assert_eq!(exit_status(Outcome::Completed(Some(3))), 3);
    assert_eq!(exit_status(Outcome::Completed(Some(-7))), -7);
    assert_eq!(exit_status(Outcome::Completed(None)), 1);
}
