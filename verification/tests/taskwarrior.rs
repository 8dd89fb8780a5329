use taskroll::taskwarrior::Taskwarrior;

#[test]
fn export_orders_coefficients_filters_subcommand() {
    let tw = Taskwarrior::new("/usr/bin/task".to_string());
    let cmd = tw
        .export()
        .with_urgency_coefficient("due", "0")
        .with_filter("+READY")
        .with_urgency_coefficient("age", "2.5")
        .command();
    assert_eq!(cmd.program, "/usr/bin/task");
    assert_eq!(
        cmd.args,
        vec![
            "rc.urgency.due.coefficient=0".to_string(),
            "rc.urgency.age.coefficient=2.5".to_string(),
            "+READY".to_string(),
            "export".to_string(),
        ]
    );
}

#[test]
fn repeated_coefficient_key_overwrites_in_place() {
    // Overrides are keyed by coefficient name: the last write wins and the
    // position is kept.
    let tw = Taskwarrior::new("task".to_string());
    let cmd = tw
        .export()
        .with_urgency_coefficient("due", "0")
        .with_urgency_coefficient("age", "1")
        .with_urgency_coefficient("due", "3.5")
        .command();
    assert_eq!(
        cmd.args,
        vec![
            "rc.urgency.due.coefficient=3.5".to_string(),
            "rc.urgency.age.coefficient=1".to_string(),
            "export".to_string(),
        ]
    );
}

#[test]
fn repeating_the_same_override_is_idempotent() {
    let tw = Taskwarrior::new("task".to_string());
    let once = tw.export().with_urgency_coefficient("due", "0").command();
    let twice = tw
        .export()
        .with_urgency_coefficient("due", "0")
        .with_urgency_coefficient("due", "0")
        .command();
    assert_eq!(once.args, twice.args);
}

#[test]
fn export_without_options_is_bare() {
    let tw = Taskwarrior::new("task".to_string());
    let cmd = tw.export().command();
    assert_eq!(cmd.args, vec!["export".to_string()]);
}

#[test]
fn modify_orders_subjects_subcommand_mods() {
    let tw = Taskwarrior::new("task".to_string());
    let cmd = tw
        .modify()
        .with_subject("uuid-a")
        .with_subject("uuid-b")
        .with_mod("wait:1h")
        .with_mod("priority:H")
        .command();
    assert_eq!(cmd.program, "task");
    assert_eq!(
        cmd.args,
        vec![
            "uuid-a".to_string(),
            "uuid-b".to_string(),
            "modify".to_string(),
            "wait:1h".to_string(),
            "priority:H".to_string(),
        ]
    );
}

#[test]
fn mark_done_names_the_task_then_done() {
    let tw = Taskwarrior::new("task".to_string());
    let cmd = tw.mark_done_command("uuid-z");
    assert_eq!(cmd.program, "task");
    assert_eq!(cmd.args, vec!["uuid-z".to_string(), "done".to_string()]);
}
