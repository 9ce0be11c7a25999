use nebula_installer::board::{handle_event, push_log, App, FAILED_PACKAGES_NOTICE, LOG_CAPACITY, SPINNER_LEN};
use nebula_installer::installer::step_names;
use nebula_installer::model::{Fraction, InstallerEvent, Step, StepStatus};
use std::collections::VecDeque;

fn app() -> App {
    let steps = step_names().into_iter().map(Step::pending).collect();
    App::new(steps, VecDeque::from(vec!["Starting nebula installer...".to_string()]))
}

#[test]
fn a_new_screen() {
    let a = app();
    assert_eq!(a.steps.len(), 11);
    assert!(a.steps.iter().all(|s| s.status == StepStatus::Pending && s.err.is_none()));
    assert_eq!(a.progress, Fraction { num: 0, den: 1 });
    assert_eq!(a.spinner_idx, 0);
    assert!(!a.done);
    assert_eq!(a.err, None);
}

#[test]
fn the_log_keeps_the_newest_lines() {
    let mut logs = VecDeque::new();
    for i in 0..LOG_CAPACITY + 5 {
        push_log(&mut logs, format!("line {}", i));
    }
    assert_eq!(logs.len(), 200);
    assert_eq!(logs.front().map(|s| s.as_str()), Some("line 5"));
    assert_eq!(logs.back().map(|s| s.as_str()), Some("line 204"));
}

#[test]
fn log_lines_go_to_the_screen_and_the_file() {
    let mut a = app();
    let lines = handle_event(&mut a, InstallerEvent::Log("$ wipefs -af /dev/sda".to_string()), false);
    assert_eq!(lines, vec!["$ wipefs -af /dev/sda"]);
    assert_eq!(a.logs.len(), 2);
    assert_eq!(a.logs[1], "$ wipefs -af /dev/sda");
}

#[test]
fn progress_is_taken_over() {
    let mut a = app();
    let lines = handle_event(&mut a, InstallerEvent::Progress(Fraction { num: 3, den: 11 }), false);
    assert!(lines.is_empty());
    assert_eq!(a.progress, Fraction { num: 3, den: 11 });
    assert_eq!(a.logs.len(), 1);
}

#[test]
fn steps_are_updated() {
    let mut a = app();
    let lines = handle_event(
        &mut a,
        InstallerEvent::Step { index: 5, status: StepStatus::Running, err: None },
        false,
    );
    assert_eq!(lines, vec!["STEP Installing Base System: RUNNING"]);
    assert_eq!(a.steps[5].status, StepStatus::Running);
    let lines = handle_event(
        &mut a,
        InstallerEvent::Step {
            index: 5,
            status: StepStatus::Failed,
            err: Some("Command failed: pacstrap /mnt base".to_string()),
        },
        false,
    );
    assert_eq!(
        lines,
        vec!["STEP Installing Base System: FAIL", "ERROR: Command failed: pacstrap /mnt base"]
    );
    assert_eq!(a.steps[5].status, StepStatus::Failed);
    assert_eq!(a.steps[5].err.as_deref(), Some("Command failed: pacstrap /mnt base"));
    assert_eq!(a.steps[5].name, "Installing Base System");
    assert_eq!(a.steps[4].status, StepStatus::Pending);
    let lines = handle_event(
        &mut a,
        InstallerEvent::Step { index: 1, status: StepStatus::Skipped, err: None },
        false,
    );
    assert_eq!(lines, vec!["STEP Encrypting Disk: SKIP"]);
    let lines = handle_event(
        &mut a,
        InstallerEvent::Step { index: 0, status: StepStatus::Done, err: None },
        false,
    );
    assert_eq!(lines, vec!["STEP Partitioning Disk: OK"]);
    let lines = handle_event(
        &mut a,
        InstallerEvent::Step { index: 11, status: StepStatus::Done, err: None },
        false,
    );
    assert!(lines.is_empty());
}

#[test]
fn the_end_is_noted() {
    let mut a = app();
    let lines = handle_event(&mut a, InstallerEvent::Done(Some("boom".to_string())), true);
    assert_eq!(lines, vec!["DONE: boom"]);
    assert!(a.done);
    assert_eq!(a.err.as_deref(), Some("boom"));
    assert_eq!(a.logs.len(), 1);

    let mut b = app();
    let lines = handle_event(&mut b, InstallerEvent::Done(None), false);
    assert_eq!(lines, vec!["DONE: ok"]);
    assert!(b.done);
    assert_eq!(b.err, None);
    assert_eq!(b.logs.len(), 1);

    let mut c = app();
    let lines = handle_event(&mut c, InstallerEvent::Done(None), true);
    assert_eq!(lines, vec!["DONE: ok", FAILED_PACKAGES_NOTICE]);
    assert_eq!(c.logs.back().map(|s| s.as_str()), Some(FAILED_PACKAGES_NOTICE));
    assert_eq!(
        FAILED_PACKAGES_NOTICE,
        "Optional packages failed. See /var/log/nebula-failed-packages.txt on the installed system."
    );
}

#[test]
fn the_spinner_goes_round() {
    let mut a = app();
    let mut seen = Vec::new();
    for _ in 0..SPINNER_LEN + 1 {
        a.tick();
        seen.push(a.spinner_idx);
    }
    assert_eq!(seen, vec![1, 2, 3, 0, 1]);
}

#[test]
fn the_spinner_comes_back_from_anywhere() {
    let mut a = app();
    a.spinner_idx = 9;
    a.tick();
    assert_eq!(a.spinner_idx, 2);
    a.spinner_idx = usize::MAX - 1;
    a.tick();
    assert_eq!(a.spinner_idx, usize::MAX % SPINNER_LEN);
}
