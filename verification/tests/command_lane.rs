use openfang_runtime::command_lane::{
    classify_shell_command, classify_shell_words, lane_occupancy, parse_sleep_seconds,
    shell_command_warning, shell_command_warning_lowercased, split_command_segments, CommandQueue, Lane, ShellCommandClass,
};

#[test]
fn test_occupancy() {
    let queue = CommandQueue::new();
    let occ = queue.occupancy();
    assert_eq!(occ.len(), 3);
    assert_eq!(occ[0].active, 0);
    assert_eq!(occ[0].capacity, 1);
    assert_eq!(occ[1].capacity, 2);
    assert_eq!(occ[2].capacity, 3);
}

#[test]
fn test_custom_capacities() {
    let queue = CommandQueue::with_capacities(2, 4, 6);
    let occ = queue.occupancy();
    assert_eq!(occ[0].capacity, 2);
    assert_eq!(occ[1].capacity, 4);
    assert_eq!(occ[2].capacity, 6);
}

#[test]
fn test_classify_shell_command_read_only() {
    assert_eq!(classify_shell_command("git status"), ShellCommandClass::ReadOnly);
    assert_eq!(classify_shell_command("rg TODO"), ShellCommandClass::ReadOnly);
}

#[test]
fn test_classify_shell_command_mutating() {
    assert_eq!(
        classify_shell_command("git checkout -b feature/wave3"),
        ShellCommandClass::Mutating
    );
    assert_eq!(classify_shell_command("cargo build"), ShellCommandClass::Mutating);
}

#[test]
fn test_shell_command_warning_destructive() {
    let msg = shell_command_warning("rm -rf /tmp/demo", ShellCommandClass::Mutating)
        .expect("destructive warning expected");
    assert!(msg.contains("destructive"));
}

#[test]
fn test_shell_command_warning_anti_stall() {
    let msg = shell_command_warning("sleep 60", ShellCommandClass::Mutating)
        .expect("stall warning expected");
    assert!(msg.contains("Long blocking sleep"));
}

#[test]
fn classification_lowercases_and_splits_quoted_words() {
    assert_eq!(classify_shell_command("LS -la"), ShellCommandClass::ReadOnly);
    assert_eq!(classify_shell_command("GIT Log --oneline"), ShellCommandClass::ReadOnly);
    assert_eq!(classify_shell_command("'git' 'status'"), ShellCommandClass::ReadOnly);
    assert_eq!(classify_shell_command("\"cat\" file.txt"), ShellCommandClass::ReadOnly);
    assert_eq!(classify_shell_command("git"), ShellCommandClass::Mutating);
    assert_eq!(classify_shell_command("git push"), ShellCommandClass::Mutating);
}

#[test]
fn classification_of_empty_or_unbalanced_commands_is_mutating() {
    assert_eq!(classify_shell_command(""), ShellCommandClass::Mutating);
    assert_eq!(classify_shell_command("   "), ShellCommandClass::Mutating);
    assert_eq!(classify_shell_command("echo 'unterminated"), ShellCommandClass::Mutating);
    assert_eq!(classify_shell_words(&vec![]), ShellCommandClass::Mutating);
    assert_eq!(
        classify_shell_words(&vec!["git".to_string(), "diff".to_string()]),
        ShellCommandClass::ReadOnly
    );
}

#[test]
fn warnings_match_case_insensitively() {
    let msg = shell_command_warning("RM -RF /var", ShellCommandClass::ReadOnly).expect("warning");
    assert!(msg.contains("destructive"));
    let msg = shell_command_warning("Terraform Destroy -auto-approve", ShellCommandClass::Mutating)
        .expect("warning");
    assert!(msg.contains("destructive"));
}

#[test]
fn sleep_threshold_is_thirty_seconds() {
    assert!(shell_command_warning("sleep 29", ShellCommandClass::Mutating).is_none());
    let msg = shell_command_warning("sleep 30", ShellCommandClass::Mutating).expect("warning");
    assert!(msg.starts_with("Long blocking sleep"));
    let msg = shell_command_warning("make && sleep\t+45", ShellCommandClass::Mutating)
        .expect("warning");
    assert!(msg.starts_with("Long blocking sleep"));
}

#[test]
fn sleep_seconds_parsing() {
    assert_eq!(parse_sleep_seconds("sleep 5"), Some(5));
    assert_eq!(parse_sleep_seconds("echo hi; sleep abc sleep 40"), Some(40));
    assert_eq!(parse_sleep_seconds("sleep"), None);
    assert_eq!(parse_sleep_seconds("sleep x"), None);
    assert_eq!(parse_sleep_seconds("sleep -5"), None);
    assert_eq!(parse_sleep_seconds("sleep +7"), Some(7));
    assert_eq!(parse_sleep_seconds("sleep 18446744073709551615"), Some(u64::MAX));
    assert_eq!(parse_sleep_seconds("sleep 18446744073709551616"), None);
    assert_eq!(parse_sleep_seconds("sleep\u{3000}90"), Some(90));
    assert_eq!(parse_sleep_seconds("sleepy 90"), None);
    // a `sleep` that is the last word ends the search
    assert_eq!(parse_sleep_seconds("sleep x sleep"), None);
}

#[test]
fn streaming_and_checkout_warnings() {
    let msg = shell_command_warning("tail -f app.log", ShellCommandClass::ReadOnly).expect("w");
    assert!(msg.starts_with("Streaming/monitoring"));
    // " watch " needs a space on both sides
    assert!(shell_command_warning("watch ls", ShellCommandClass::ReadOnly).is_none());
    let msg = shell_command_warning("cd x; watch -n1 ls", ShellCommandClass::ReadOnly).expect("w");
    assert!(msg.starts_with("Streaming/monitoring"));
    let cmd = "cd repo && git checkout main";
    assert!(shell_command_warning(cmd, ShellCommandClass::ReadOnly).is_none());
    let msg = shell_command_warning(cmd, ShellCommandClass::Mutating).expect("w");
    assert!(msg.starts_with("Git checkout"));
    assert!(shell_command_warning("ls -la", ShellCommandClass::ReadOnly).is_none());
}

#[test]
fn destructive_warning_takes_precedence() {
    let msg = shell_command_warning_lowercased("sleep 100; rm -rf build", ShellCommandClass::ReadOnly)
        .expect("w");
    assert!(msg.starts_with("This looks destructive"));
}

#[test]
fn lane_names_and_occupancy_snapshot() {
    assert_eq!(Lane::Main.as_str(), "main");
    assert_eq!(Lane::Cron.as_str(), "cron");
    assert_eq!(Lane::Subagent.as_str(), "subagent");
    let occ = lane_occupancy(Lane::Cron, 4, 1);
    assert_eq!(occ.lane, Lane::Cron);
    assert_eq!(occ.active, 3);
    assert_eq!(occ.capacity, 4);
    let queue = CommandQueue::default();
    let occ = queue.occupancy();
    assert_eq!(occ[0].lane, Lane::Main);
    assert_eq!(occ[1].lane, Lane::Cron);
    assert_eq!(occ[2].lane, Lane::Subagent);
    assert_eq!(occ[2].active, 0);
}

#[test]
fn semaphore_for_selects_the_lane() {
    let queue = CommandQueue::with_capacities(1, 2, 3);
    assert_eq!(queue.semaphore_for(Lane::Main).available_permits(), 1);
    assert_eq!(queue.semaphore_for(Lane::Cron).available_permits(), 2);
    let permit = queue.semaphore_for(Lane::Subagent).try_acquire().expect("permit");
    let occ = queue.occupancy();
    assert_eq!(occ[2].active, 1);
    drop(permit);
    assert_eq!(queue.occupancy()[2].active, 0);
}

#[test]
fn chained_commands_are_read_only_only_when_every_part_is() {
    assert_eq!(classify_shell_command("ls && rm -rf build"), ShellCommandClass::Mutating);
    assert_eq!(classify_shell_command("cat a; touch b"), ShellCommandClass::Mutating);
    assert_eq!(classify_shell_command("ls || make"), ShellCommandClass::Mutating);
    assert_eq!(classify_shell_command("echo x|tee out"), ShellCommandClass::Mutating);
    assert_eq!(classify_shell_command("ls & rm x"), ShellCommandClass::Mutating);
    assert_eq!(classify_shell_command("git status | grep main"), ShellCommandClass::ReadOnly);
    assert_eq!(classify_shell_command("ls; pwd && wc -l f"), ShellCommandClass::ReadOnly);
    assert_eq!(classify_shell_command("ls;"), ShellCommandClass::ReadOnly);
    assert_eq!(classify_shell_command(";"), ShellCommandClass::Mutating);
}

#[test]
fn command_segments_split_at_chain_characters() {
    assert_eq!(split_command_segments("a && b;c|d"), vec!["a ", "", " b", "c", "d"]);
    assert_eq!(split_command_segments(""), vec![""]);
}

#[test]
fn quoted_or_escaped_chain_characters_do_not_cut_the_line() {
    assert_eq!(classify_shell_command("echo \"|\""), ShellCommandClass::ReadOnly);
    assert_eq!(classify_shell_command("grep \"a|b\" f"), ShellCommandClass::ReadOnly);
    assert_eq!(classify_shell_command("git log --format=\"%h | %s\""), ShellCommandClass::ReadOnly);
    assert_eq!(classify_shell_command("grep 'x; rm -rf /' notes"), ShellCommandClass::ReadOnly);
    assert_eq!(classify_shell_command("ls \\; rm"), ShellCommandClass::ReadOnly);
    assert_eq!(classify_shell_command("echo \"a\\\"|b\""), ShellCommandClass::ReadOnly);
    assert_eq!(classify_shell_command("echo \"x\" | rm y"), ShellCommandClass::Mutating);
    assert_eq!(split_command_segments("echo 'a|b'|wc"), vec!["echo 'a|b'", "wc"]);
    assert_eq!(split_command_segments("a\\&b&c"), vec!["a\\&b", "c"]);
}
