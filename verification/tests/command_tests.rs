use wait_for::command::{
    exit_status, plan_command, spawn_failed_message, CommandOutcome, Invocation, FAILURE_STATUS,
};

fn words(list: &[&str]) -> Vec<String> {
    list.iter().map(|word| word.to_string()).collect()
}

#[test]
fn no_command_is_no_plan() {
    assert_eq!(plan_command(&Vec::new()), None);
}

#[test]
fn the_first_word_is_the_program() {
    assert_eq!(
        plan_command(&words(&["echo"])),
        Some(Invocation { program: "echo".to_string(), args: Vec::new() })
    );
    assert_eq!(
        plan_command(&words(&["echo", "test_message"])),
        Some(Invocation { program: "echo".to_string(), args: words(&["test_message"]) })
    );
    assert_eq!(
        plan_command(&words(&["sh", "-c", "exit 42"])),
        Some(Invocation { program: "sh".to_string(), args: words(&["-c", "exit 42"]) })
    );
}

#[test]
fn arguments_keep_their_hyphens_and_their_order() {
    assert_eq!(
        plan_command(&words(&["ls", "-l", "--all", "-t", "--", "-q"])),
        Some(Invocation {
            program: "ls".to_string(),
            args: words(&["-l", "--all", "-t", "--", "-q"]),
        })
    );
}

#[test]
fn exit_statuses() {
    assert_eq!(exit_status(CommandOutcome::NoCommand), 0);
    assert_eq!(exit_status(CommandOutcome::SpawnFailed), 1);
    assert_eq!(exit_status(CommandOutcome::Exited(Some(0))), 0);
    assert_eq!(exit_status(CommandOutcome::Exited(Some(42))), 42);
    assert_eq!(exit_status(CommandOutcome::Exited(Some(255))), 255);
    assert_eq!(exit_status(CommandOutcome::Exited(Some(-1))), -1);
    assert_eq!(exit_status(CommandOutcome::Exited(None)), 1);
    assert_eq!(FAILURE_STATUS, 1);
}

#[test]
fn the_words_for_a_program_that_does_not_start() {
    assert_eq!(
        spawn_failed_message("no-such-program"),
        "Failed to execute command: no-such-program"
    );
}
