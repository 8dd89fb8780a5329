use taskroll::activity::Activity;
use taskroll::engine::App;
use taskroll::error::RunError;
use taskroll::task::Task;
use taskroll::taskwarrior::Taskwarrior;

fn candidate(id: u64, uuid: &str, estimate: Option<i64>, urgency: u64) -> Task {
    Task {
        id,
        uuid: uuid.to_string(),
        description: format!("task {}", id),
        tags: Vec::new(),
        project: None,
        due: None,
        estimate,
        annotations: Vec::new(),
        urgency,
    }
}

fn fresh_app() -> App {
    App::new(Taskwarrior::new("task".to_string()))
}

fn working_app(uuid: &str) -> App {
    let mut app = fresh_app();
    let tasks = vec![candidate(1, uuid, None, 5)];
    app.handle_tick_with_roll(1000, 3, &tasks)
        .expect("selection over one weighted task succeeds");
    assert!(matches!(app.doing, Activity::Working { .. }));
    app
}

#[test]
fn new_app_is_idle() {
    let app = fresh_app();
    assert!(app.doing.is_nothing());
    assert!(!app.should_quit());
}

#[test]
fn tick_installs_activity_when_idle() {
    // Nothing, tick fires, one candidate with estimate 15 min, roll 2
    // (target 20 min): Working with planned length 15 min.
    let mut app = fresh_app();
    let tasks = vec![candidate(1, "u-1", Some(900), 7)];
    app.handle_tick_with_roll(2000, 2, &tasks).expect("tick selection succeeds");
    match &app.doing {
        Activity::Working { task, timer } => {
            assert_eq!(task.uuid, "u-1");
            assert_eq!(timer.started_at, 2000);
            assert_eq!(timer.planned_length, 900);
            assert_eq!(timer.original_length, 900);
        }
        other => panic!("expected a work session, got {:?}", other),
    }
}

#[test]
fn tick_never_interrupts_an_activity() {
    let mut app = working_app("u-1");
    let before = format!("{:?}", app.doing);
    let tasks = vec![candidate(9, "u-other", None, 50)];
    app.handle_tick(5000, &tasks).expect("tick on a busy engine is a no-op");
    assert_eq!(format!("{:?}", app.doing), before);
}

#[test]
fn failed_selection_leaves_state_unchanged() {
    // Empty candidate list and a work roll: SelectionFailure is reported
    // and the activity stays as it was.
    let mut app = fresh_app();
    let tasks: Vec<Task> = Vec::new();
    match app.handle_tick_with_roll(2000, 3, &tasks) {
        Err(RunError::SelectionFailure) => {}
        other => panic!("expected SelectionFailure, got {:?}", other),
    }
    assert!(app.doing.is_nothing());

    let mut busy = working_app("u-1");
    let before = format!("{:?}", busy.doing);
    match busy.reroll_with_roll(3000, 3, &tasks) {
        Err(RunError::SelectionFailure) => {}
        other => panic!("expected SelectionFailure, got {:?}", other),
    }
    assert_eq!(format!("{:?}", busy.doing), before);
}

#[test]
fn reroll_restamps_the_start_instant() {
    // Rerolling always rebuilds the timing fields: the new start is the
    // call time, even when rerolled repeatedly.
    let mut app = working_app("u-1");
    let tasks = vec![candidate(1, "u-1", None, 5)];
    app.reroll_with_roll(4000, 2, &tasks).expect("reroll succeeds");
    match &app.doing {
        Activity::Working { timer, .. } => assert_eq!(timer.started_at, 4000),
        other => panic!("expected a work session, got {:?}", other),
    }
    app.reroll_with_roll(4001, 2, &tasks).expect("reroll succeeds");
    match &app.doing {
        Activity::Working { timer, .. } => assert_eq!(timer.started_at, 4001),
        other => panic!("expected a work session, got {:?}", other),
    }
}

#[test]
fn reroll_on_break_never_chains_breaks() {
    let mut app = fresh_app();
    let no_tasks: Vec<Task> = Vec::new();
    app.handle_tick_with_roll(1000, 0, &no_tasks).expect("break needs no candidates");
    assert!(app.doing.is_break());
    let tasks = vec![candidate(1, "u-1", None, 5)];
    app.reroll_with_roll(1500, 0, &tasks).expect("reroll succeeds");
    assert!(!app.doing.is_break());
    match &app.doing {
        Activity::Working { timer, .. } => assert_eq!(timer.planned_length, 600),
        other => panic!("expected the minimum work bucket, got {:?}", other),
    }
}

#[test]
fn extend_grows_the_current_session() {
    let mut app = working_app("u-1");
    let initial = match &app.doing {
        Activity::Working { timer, .. } => timer.planned_length,
        other => panic!("expected a work session, got {:?}", other),
    };
    app.doing.extend();
    app.doing.extend();
    match &app.doing {
        Activity::Working { timer, .. } => {
            assert_eq!(timer.planned_length, initial * 3);
            assert_eq!(timer.original_length, initial);
        }
        other => panic!("expected a work session, got {:?}", other),
    }
    // Extending while idle changes nothing.
    let mut idle = fresh_app();
    idle.doing.extend();
    assert!(idle.doing.is_nothing());
}

#[test]
fn complete_failure_terminates_without_installing() {
    // Working, complete requested, the external mutation fails: the run
    // ends with ExternalCallFailure and no new activity is installed —
    // the driver aborts before any re-selection.
    let mut app = working_app("u-42");
    let cmd = app.complete_command().expect("a worked task has a completion command");
    assert_eq!(cmd.program, "task");
    assert_eq!(cmd.args, vec!["u-42".to_string(), "done".to_string()]);

    // The driver would now run `cmd`; simulate a non-zero exit status.
    let mutation_failed = true;
    let run_result: Result<(), RunError> = if mutation_failed {
        Err(RunError::ExternalCallFailure)
    } else {
        app.reroll(9999, &Vec::<Task>::new()).map(|_| ())
    };
    assert_eq!(run_result, Err(RunError::ExternalCallFailure));
    match &app.doing {
        Activity::Working { task, .. } => assert_eq!(task.uuid, "u-42"),
        other => panic!("activity must be unchanged, got {:?}", other),
    }
}

#[test]
fn complete_is_noop_without_a_task() {
    let app = fresh_app();
    assert!(app.complete_command().is_none());
}

#[test]
fn interactive_slot_is_a_single_mailbox() {
    let mut app = working_app("u-1");
    assert!(app.take_interactive().is_none());
    assert!(app.stage_edit());
    assert!(app.stage_open());
    // Last writer wins: only the opener is left.
    let cmd = app.take_interactive().expect("one staged command");
    assert_eq!(cmd.program, "tw-open");
    assert_eq!(cmd.args, vec!["u-1".to_string()]);
    // Drained exactly once.
    assert!(app.take_interactive().is_none());
}

#[test]
fn staged_commands_carry_exact_arguments() {
    let mut app = working_app("u-7");
    assert!(app.stage_edit());
    let edit = app.take_interactive().unwrap();
    assert_eq!(edit.program, "task");
    assert_eq!(edit.args, vec!["u-7".to_string(), "edit".to_string()]);

    assert!(app.stage_defer());
    let defer = app.take_interactive().unwrap();
    assert_eq!(defer.program, "task");
    assert_eq!(
        defer.args,
        vec!["u-7".to_string(), "modify".to_string(), "wait:1h".to_string()]
    );

    assert!(app.stage_breakdown());
    let breakdown = app.take_interactive().unwrap();
    assert_eq!(breakdown.program, "tw-breakdown");
    assert_eq!(breakdown.args, vec!["--seq".to_string(), "u-7".to_string()]);

    let mut idle = fresh_app();
    assert!(!idle.stage_edit());
    assert!(!idle.stage_defer());
    assert!(!idle.stage_open());
    assert!(!idle.stage_breakdown());
    assert!(idle.take_interactive().is_none());
}

#[test]
fn quit_is_sticky() {
    let mut app = fresh_app();
    app.request_quit();
    assert!(app.should_quit());
}

#[test]
fn focus_url_encodes_goal_and_duration() {
    let mut app = fresh_app();
    let mut task = candidate(1, "u-1", None, 5);
    task.description = "fix the bug".to_string();
    app.handle_tick_with_roll(1000, 3, &vec![task]).expect("selection succeeds");
    // 30 minutes planned; 5 seconds elapsed.
    let url = app.focus_url(1005).expect("time remains");
    assert_eq!(
        url,
        "raycast://focus/start?goal=fix%20the%20bug&categories=messaging,social,news&duration=1795"
    );
    // Once overdue there is nothing to focus on.
    assert!(app.focus_url(1000 + 1800).is_none());
    assert!(fresh_app().focus_url(1000).is_none());
}

#[test]
fn refresh_replaces_snapshot_keeping_the_clock() {
    let mut app = working_app("u-1");
    let cmd = app.refresh_command().expect("a worked task can be refreshed");
    assert_eq!(cmd.program, "task");
    assert_eq!(
        cmd.args,
        vec!["u-1".to_string(), "limit:1".to_string(), "export".to_string()]
    );
    let started = match &app.doing {
        Activity::Working { timer, .. } => timer.started_at,
        other => panic!("expected a work session, got {:?}", other),
    };
    let mut fresh = candidate(1, "u-1", None, 9);
    fresh.description = "renamed".to_string();
    app.refresh_doing(fresh);
    match &app.doing {
        Activity::Working { task, timer } => {
            assert_eq!(task.description, "renamed");
            assert_eq!(timer.started_at, started);
        }
        other => panic!("expected a work session, got {:?}", other),
    }
    // Refreshing while idle changes nothing.
    let mut idle = fresh_app();
    assert!(idle.refresh_command().is_none());
    assert!(idle.refresh_target().is_none());
    idle.refresh_doing(candidate(2, "u-2", None, 1));
    assert!(idle.doing.is_nothing());
}

#[test]
fn candidate_fetch_zeroes_date_driven_urgency() {
    let app = fresh_app();
    let cmd = app.available_tasks_command();
    assert_eq!(cmd.program, "task");
    assert_eq!(
        cmd.args,
        vec![
            "rc.urgency.due.coefficient=0".to_string(),
            "rc.urgency.age.coefficient=0".to_string(),
            "rc.urgency.blocked.coefficient=0".to_string(),
            "rc.urgency.blocking.coefficient=0".to_string(),
            "jirastatus.not:backlog".to_string(),
            "+READY".to_string(),
            "export".to_string(),
        ]
    );
}

#[test]
fn error_messages_name_the_failure() {
    assert_eq!(RunError::SelectionFailure.message(), "could not choose a task");
    assert_eq!(RunError::ExternalCallFailure.message(), "external tracker call failed");
    assert_eq!(RunError::InteractiveProgramFailure.message(), "interactive command failed");
}
