use crossbeam_channel::{unbounded, Receiver};
use nebula_installer::channel::EventSender;
use nebula_installer::command::{conclude, run, Exit};
use nebula_installer::installer::{
    should_skip, skip_flags, step_names, InstallConfig, STEP_COUNT,
};
use nebula_installer::disks::DiskInfo;
use nebula_installer::model::{Fraction, InstallerEvent, StepStatus};
use nebula_installer::pipeline::{Directive, Pipeline};

fn drain(rx: &Receiver<InstallerEvent>) -> Vec<InstallerEvent> {
    rx.try_iter().collect()
}

fn step(index: usize, status: StepStatus) -> InstallerEvent {
    InstallerEvent::Step { index, status, err: None }
}

fn progress(num: usize, den: usize) -> InstallerEvent {
    InstallerEvent::Progress(Fraction { num, den })
}

fn config(encrypt_disk: bool) -> InstallConfig {
    InstallConfig {
        disk: DiskInfo { name: "sda".into(), size: "10G".into(), model: String::new() },
        keymap: "us".into(),
        timezone: "UTC".into(),
        hostname: "nebula".into(),
        username: "kevin".into(),
        user_password: "secret".into(),
        luks_password: String::new(),
        encrypt_disk,
        swap_enabled: true,
        driver_packages: vec![],
        kernel_package: "linux".into(),
        kernel_headers: "linux-headers".into(),
        base_packages: vec![],
        extra_pacman_packages: vec![],
        extra_aur_packages: vec![],
        offline_only: false,
        hyprland_selected: true,
    }
}

#[test]
fn eleven_steps_are_named() {
    let names = step_names();
    assert_eq!(names.len(), STEP_COUNT);
    assert_eq!(names[0], "Partitioning Disk");
    assert_eq!(names[1], "Encrypting Disk");
    assert_eq!(names[5], "Installing Base System");
    assert_eq!(names[10], "Finalizing");
}

#[test]
fn new_pipeline_is_pending_and_silent() {
    let (tx, rx) = unbounded();
    let _sender = EventSender::new(tx);
    let p = Pipeline::new(step_names());
    assert_eq!(p.len(), 11);
    assert_eq!(p.cursor(), 0);
    assert!(!p.is_finished());
    for i in 0..11 {
        assert_eq!(p.status(i), StepStatus::Pending);
    }
    assert_eq!(p.error(), None);
    assert!(drain(&rx).is_empty());
}

#[test]
fn run_with_encryption_skipped() {
    let (tx, rx) = unbounded();
    let mut sender = EventSender::new(tx);
    let cfg = config(false);
    let mut p = Pipeline::new(step_names());
    for index in 0..STEP_COUNT {
        if should_skip(index, &cfg) {
            assert!(p.skip_step(&mut sender));
        } else {
            assert!(p.begin_step(&mut sender));
            assert_eq!(p.status(index), StepStatus::Running);
            assert!(p.end_step(&mut sender, Ok(())));
        }
    }
    assert!(p.finish(&mut sender));
    assert!(p.is_finished());
    assert_eq!(p.error(), None);

    let events = drain(&rx);
    let mut expected = Vec::new();
    for index in 0..11 {
        if index == 1 {
            expected.push(step(1, StepStatus::Skipped));
        } else {
            expected.push(step(index, StepStatus::Running));
            expected.push(step(index, StepStatus::Done));
        }
        expected.push(progress(index + 1, 11));
    }
    expected.push(InstallerEvent::Done(None));
    assert_eq!(events, expected);

    let skipped = events.iter().filter(|e| matches!(e, InstallerEvent::Step { status: StepStatus::Skipped, .. })).count();
    let running = events.iter().filter(|e| matches!(e, InstallerEvent::Step { status: StepStatus::Running, .. })).count();
    let done = events.iter().filter(|e| matches!(e, InstallerEvent::Step { status: StepStatus::Done, .. })).count();
    assert_eq!((skipped, running, done), (1, 10, 10));
    assert_eq!(events.last(), Some(&InstallerEvent::Done(None)));
}

#[test]
fn failing_base_install_halts_the_run() {
    let (tx, rx) = unbounded();
    let mut sender = EventSender::new(tx);
    let mut p = Pipeline::new(step_names());
    for _ in 0..5 {
        assert!(p.begin_step(&mut sender));
        assert!(p.end_step(&mut sender, Ok(())));
    }
    let _ = drain(&rx);

    assert!(p.begin_step(&mut sender));
    let command = run("pacstrap", &["/mnt", "base"]);
    let outcome = conclude(&command, Exit::Ended { code: Some(1) }).map_err(|e| e.message());
    assert_eq!(outcome, Err("Command failed: pacstrap /mnt base".to_string()));
    assert!(p.end_step(&mut sender, outcome));
    assert_eq!(p.status(5), StepStatus::Failed);
    assert_eq!(p.cursor(), 5);

    // nothing can start any more
    assert!(!p.begin_step(&mut sender));
    assert!(!p.skip_step(&mut sender));
    assert!(!p.end_step(&mut sender, Ok(())));
    assert!(p.finish(&mut sender));
    assert!(!p.finish(&mut sender));
    assert!(!p.begin_step(&mut sender));

    let events = drain(&rx);
    assert_eq!(
        events,
        vec![
            step(5, StepStatus::Running),
            InstallerEvent::Step {
                index: 5,
                status: StepStatus::Failed,
                err: Some("Command failed: pacstrap /mnt base".to_string()),
            },
            InstallerEvent::Done(Some("Command failed: pacstrap /mnt base".to_string())),
        ]
    );
    for index in 6..11 {
        assert_eq!(p.status(index), StepStatus::Pending);
    }
    assert_eq!(p.error(), Some("Command failed: pacstrap /mnt base".to_string()));
}

#[test]
fn no_step_starts_after_a_failure() {
    for failing in 0..4usize {
        let (tx, rx) = unbounded();
        let mut sender = EventSender::new(tx);
        let names: Vec<String> = (0..4).map(|i| format!("step {}", i)).collect();
        let mut p = Pipeline::new(names);
        for index in 0..4usize {
            if !p.begin_step(&mut sender) {
                break;
            }
            let outcome = if index == failing { Err(format!("boom {}", index)) } else { Ok(()) };
            p.end_step(&mut sender, outcome);
        }
        p.finish(&mut sender);
        let events = drain(&rx);
        let at = events
            .iter()
            .position(|e| matches!(e, InstallerEvent::Step { status: StepStatus::Failed, .. }))
            .unwrap();
        assert_eq!(
            events[at],
            InstallerEvent::Step {
                index: failing,
                status: StepStatus::Failed,
                err: Some(format!("boom {}", failing)),
            }
        );
        assert!(events[at + 1..]
            .iter()
            .all(|e| !matches!(e, InstallerEvent::Step { status: StepStatus::Running, .. })));
        let dones: Vec<&InstallerEvent> =
            events.iter().filter(|e| matches!(e, InstallerEvent::Done(_))).collect();
        assert_eq!(dones, vec![&InstallerEvent::Done(Some(format!("boom {}", failing)))]);
        assert_eq!(events.len(), at + 2);
    }
}

#[test]
fn progress_never_goes_back_and_ends_at_one() {
    let (tx, rx) = unbounded();
    let mut sender = EventSender::new(tx);
    let names: Vec<String> = (0..6).map(|i| format!("step {}", i)).collect();
    let mut p = Pipeline::new(names);
    for index in 0..6usize {
        if index % 2 == 1 {
            assert!(p.skip_step(&mut sender));
        } else {
            assert!(p.begin_step(&mut sender));
            assert!(p.end_step(&mut sender, Ok(())));
        }
    }
    assert!(p.finish(&mut sender));
    let events = drain(&rx);
    let fractions: Vec<(usize, Fraction)> = events
        .iter()
        .enumerate()
        .filter_map(|(i, e)| match e {
            InstallerEvent::Progress(f) => Some((i, *f)),
            _ => None,
        })
        .collect();
    assert_eq!(fractions.len(), 6);
    for pair in fractions.windows(2) {
        assert!(pair[0].1.num * pair[1].1.den <= pair[1].1.num * pair[0].1.den);
    }
    let (at, last) = fractions[5];
    assert_eq!(last, Fraction { num: 6, den: 6 });
    assert_eq!(events[at - 1], step(5, StepStatus::Skipped));
    assert!(fractions[..5].iter().all(|(_, f)| f.num < f.den));
    for index in 0..6usize {
        let statuses: Vec<StepStatus> = events
            .iter()
            .filter_map(|e| match e {
                InstallerEvent::Step { index: i, status, .. } if *i == index => Some(*status),
                _ => None,
            })
            .collect();
        if index % 2 == 1 {
            assert_eq!(statuses, vec![StepStatus::Skipped]);
        } else {
            assert_eq!(statuses, vec![StepStatus::Running, StepStatus::Done]);
        }
    }
}

#[test]
fn transitions_out_of_turn_change_nothing() {
    let (tx, rx) = unbounded();
    let mut sender = EventSender::new(tx);
    let mut p = Pipeline::new(vec!["only".to_string()]);
    assert!(!p.end_step(&mut sender, Ok(())));
    assert!(!p.finish(&mut sender));
    assert!(p.begin_step(&mut sender));
    assert!(!p.begin_step(&mut sender));
    assert!(!p.skip_step(&mut sender));
    assert!(!p.finish(&mut sender));
    assert!(p.end_step(&mut sender, Ok(())));
    assert!(!p.begin_step(&mut sender));
    assert!(p.finish(&mut sender));
    assert_eq!(
        drain(&rx),
        vec![
            step(0, StepStatus::Running),
            step(0, StepStatus::Done),
            progress(1, 1),
            InstallerEvent::Done(None),
        ]
    );
}

#[test]
fn empty_pipeline_finishes_at_once() {
    let (tx, rx) = unbounded();
    let mut sender = EventSender::new(tx);
    let mut p = Pipeline::new(vec![]);
    assert!(!p.begin_step(&mut sender));
    assert!(p.finish(&mut sender));
    assert_eq!(drain(&rx), vec![InstallerEvent::Done(None)]);
}

#[test]
fn only_encryption_can_be_skipped() {
    let plain = config(false);
    let encrypted = config(true);
    for index in 0..STEP_COUNT {
        assert_eq!(should_skip(index, &plain), index == 1);
        assert!(!should_skip(index, &encrypted));
    }
}

// Drives a pipeline to its end; the work of step `fails`, if any, ends with an error
fn drive(
    p: &mut Pipeline,
    sender: &mut EventSender,
    skips: &[bool],
    fails: Option<usize>,
) -> (Vec<usize>, Option<String>) {
    let mut ran = Vec::new();
    loop {
        match p.advance(sender, skips) {
            Directive::Run(index) => {
                ran.push(index);
                let outcome = if fails == Some(index) {
                    Err(format!("Command failed: step {}", index))
                } else {
                    Ok(())
                };
                assert!(p.end_step(sender, outcome));
            }
            Directive::Over(err) => return (ran, err),
        }
    }
}

#[test]
fn skip_flags_mark_the_encryption_alone() {
    let mut expected = vec![false; 11];
    assert_eq!(skip_flags(&config(true)), expected);
    expected[1] = true;
    assert_eq!(skip_flags(&config(false)), expected);
}

#[test]
fn driven_run_skips_the_marked_step() {
    let (tx, rx) = unbounded();
    let mut sender = EventSender::new(tx);
    let mut p = Pipeline::new(step_names());
    let skips = skip_flags(&config(false));
    let (ran, err) = drive(&mut p, &mut sender, &skips, None);
    assert_eq!(ran, vec![0, 2, 3, 4, 5, 6, 7, 8, 9, 10]);
    assert_eq!(err, None);
    assert!(p.is_finished());
    assert_eq!(p.cursor(), 11);

    let mut expected = Vec::new();
    for index in 0..11 {
        if index == 1 {
            expected.push(step(1, StepStatus::Skipped));
        } else {
            expected.push(step(index, StepStatus::Running));
            expected.push(step(index, StepStatus::Done));
        }
        expected.push(progress(index + 1, 11));
    }
    expected.push(InstallerEvent::Done(None));
    assert_eq!(drain(&rx), expected);

    // the run stays over
    assert_eq!(p.advance(&mut sender, &skips), Directive::Over(None));
    assert!(drain(&rx).is_empty());
}

#[test]
fn driven_run_stops_at_the_first_failure() {
    let (tx, rx) = unbounded();
    let mut sender = EventSender::new(tx);
    let mut p = Pipeline::new(step_names());
    let skips = skip_flags(&config(true));
    let (ran, err) = drive(&mut p, &mut sender, &skips, Some(5));
    assert_eq!(ran, vec![0, 1, 2, 3, 4, 5]);
    assert_eq!(err, Some("Command failed: step 5".to_string()));
    assert_eq!(p.cursor(), 5);
    assert_eq!(p.status(5), StepStatus::Failed);
    for index in 6..11 {
        assert_eq!(p.status(index), StepStatus::Pending);
    }

    let events = drain(&rx);
    assert_eq!(events.len(), 5 * 3 + 3);
    assert_eq!(
        events[15..],
        [
            step(5, StepStatus::Running),
            InstallerEvent::Step {
                index: 5,
                status: StepStatus::Failed,
                err: Some("Command failed: step 5".to_string()),
            },
            InstallerEvent::Done(Some("Command failed: step 5".to_string())),
        ]
    );
    assert_eq!(
        p.advance(&mut sender, &skips),
        Directive::Over(Some("Command failed: step 5".to_string()))
    );
    assert!(drain(&rx).is_empty());
}

#[test]
fn a_failure_behind_skipped_steps_is_the_first_to_run() {
    let (tx, rx) = unbounded();
    let mut sender = EventSender::new(tx);
    let names = vec!["a".to_string(), "b".to_string(), "c".to_string(), "d".to_string()];
    let mut p = Pipeline::new(names);
    // a mark without a step, and steps without a mark
    let (ran, err) = drive(&mut p, &mut sender, &[true, true], Some(2));
    assert_eq!(ran, vec![2]);
    assert_eq!(err, Some("Command failed: step 2".to_string()));
    assert_eq!(
        drain(&rx),
        vec![
            step(0, StepStatus::Skipped),
            progress(1, 4),
            step(1, StepStatus::Skipped),
            progress(2, 4),
            step(2, StepStatus::Running),
            InstallerEvent::Step {
                index: 2,
                status: StepStatus::Failed,
                err: Some("Command failed: step 2".to_string()),
            },
            InstallerEvent::Done(Some("Command failed: step 2".to_string())),
        ]
    );
    assert_eq!(p.status(3), StepStatus::Pending);
}

#[test]
fn moving_on_while_a_step_runs_changes_nothing() {
    let (tx, rx) = unbounded();
    let mut sender = EventSender::new(tx);
    let mut p = Pipeline::new(vec!["a".to_string(), "b".to_string()]);
    assert_eq!(p.advance(&mut sender, &[]), Directive::Run(0));
    assert_eq!(drain(&rx), vec![step(0, StepStatus::Running)]);
    assert_eq!(p.advance(&mut sender, &[true, true]), Directive::Run(0));
    assert_eq!(p.status(0), StepStatus::Running);
    assert!(drain(&rx).is_empty());
    assert!(p.end_step(&mut sender, Ok(())));
    assert_eq!(p.advance(&mut sender, &[true, true]), Directive::Over(None));
    assert_eq!(
        drain(&rx),
        vec![
            step(0, StepStatus::Done),
            progress(1, 2),
            step(1, StepStatus::Skipped),
            progress(2, 2),
            InstallerEvent::Done(None),
        ]
    );
}
