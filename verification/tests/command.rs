use crossbeam_channel::unbounded;
use nebula_installer::channel::EventSender;
use nebula_installer::command::{
    conclude, conclude_capture, run, run_chroot, run_with_input, strings, Captured, CommandSpec,
    Exit, Heartbeat, InstallError, CHROOT_PROGRAM, HEARTBEAT_SECONDS, TARGET_ROOT,
};
use nebula_installer::model::InstallerEvent;

#[test]
fn command_line_joins_with_spaces() {
    assert_eq!(run("sync", &[]).command_line(), "sync");
    assert_eq!(run("umount", &["-R", "/mnt"]).command_line(), "umount -R /mnt");
    assert_eq!(run("bash", &["-c", "echo a b"]).command_line(), "bash -c echo a b");
    assert_eq!(run("x", &[""]).command_line(), "x ");
}

#[test]
fn chroot_puts_the_target_first() {
    let c = run_chroot(&["locale-gen"]);
    assert_eq!(c.program, "arch-chroot");
    assert_eq!(c.args, vec!["/mnt".to_string(), "locale-gen".to_string()]);
    assert_eq!(c.command_line(), "arch-chroot /mnt locale-gen");
    assert_eq!(c.input, None);
    assert_eq!(c.heartbeat, None);
    assert!(c.envs.is_empty());
    assert_eq!(CHROOT_PROGRAM, "arch-chroot");
    assert_eq!(TARGET_ROOT, "/mnt");
    let d = CommandSpec::chroot(&strings(&["pacman", "-Sy"]));
    assert_eq!(d.command_line(), "arch-chroot /mnt pacman -Sy");
    let e = CommandSpec::chroot(&vec![]);
    assert_eq!(e.command_line(), "arch-chroot /mnt");
}

#[test]
fn builders_keep_the_rest() {
    let c = CommandSpec::new("pacstrap", strings(&["/mnt", "base"]))
        .with_input("secret\n".to_string())
        .with_heartbeat("Still downloading packages...")
        .with_env("SYSTEMD_OFFLINE", "1")
        .with_env("PACMAN_COLOR", "never");
    assert_eq!(c.program, "pacstrap");
    assert_eq!(c.args, vec!["/mnt".to_string(), "base".to_string()]);
    assert_eq!(c.input, Some("secret\n".to_string()));
    assert_eq!(c.heartbeat, Some("Still downloading packages...".to_string()));
    assert_eq!(
        c.envs,
        vec![
            ("SYSTEMD_OFFLINE".to_string(), "1".to_string()),
            ("PACMAN_COLOR".to_string(), "never".to_string()),
        ]
    );
    let d = run_with_input("cryptsetup", &["open"], "pw\n".to_string());
    assert_eq!(d.input, Some("pw\n".to_string()));
    assert_eq!(HEARTBEAT_SECONDS, 10);
}

#[test]
fn announce_and_beat_log() {
    let (tx, rx) = unbounded();
    let mut sender = EventSender::new(tx);
    let quiet = run("wipefs", &["-af", "/dev/sda"]);
    quiet.announce(&mut sender);
    assert!(!quiet.beat(&mut sender));
    let loud = run("pacman", &[]).with_heartbeat("Installing packages...");
    assert!(loud.beat(&mut sender));
    let got: Vec<InstallerEvent> = rx.try_iter().collect();
    assert_eq!(
        got,
        vec![
            InstallerEvent::Log("$ wipefs -af /dev/sda".to_string()),
            InstallerEvent::Log("Installing packages...".to_string()),
        ]
    );
}

#[test]
fn conclude_names_the_command() {
    let c = run("parted", &["-s", "/dev/sda", "mklabel", "gpt"]);
    assert_eq!(conclude(&c, Exit::Ended { code: Some(0) }), Ok(()));
    assert_eq!(
        conclude(&c, Exit::Ended { code: Some(1) }),
        Err(InstallError::Exit {
            command: "parted -s /dev/sda mklabel gpt".to_string(),
            code: Some(1),
        })
    );
    assert_eq!(
        conclude(&c, Exit::Ended { code: None }),
        Err(InstallError::Exit { command: "parted -s /dev/sda mklabel gpt".to_string(), code: None })
    );
    assert_eq!(
        conclude(&c, Exit::Ended { code: Some(-1) }),
        Err(InstallError::Exit {
            command: "parted -s /dev/sda mklabel gpt".to_string(),
            code: Some(-1),
        })
    );
    assert_eq!(
        conclude(&c, Exit::SpawnFailed),
        Err(InstallError::Spawn { command: "parted -s /dev/sda mklabel gpt".to_string() })
    );
    assert_eq!(
        conclude(&c, Exit::InputFailed),
        Err(InstallError::Input { command: "parted -s /dev/sda mklabel gpt".to_string() })
    );
    assert_eq!(
        conclude(&c, Exit::WaitFailed),
        Err(InstallError::Wait { command: "parted -s /dev/sda mklabel gpt".to_string() })
    );
}

#[test]
fn conclude_capture_hands_out_the_output() {
    let c = run("blkid", &["-s", "UUID"]);
    assert_eq!(
        conclude_capture(
            &c,
            Captured::Ended {
                success: true,
                stdout: "abcd-1234\n".to_string(),
                stderr: "warning".to_string(),
            }
        ),
        Ok("abcd-1234\n".to_string())
    );
    assert_eq!(
        conclude_capture(
            &c,
            Captured::Ended {
                success: false,
                stdout: "ignored".to_string(),
                stderr: "  no such device \n".to_string(),
            }
        ),
        Err(InstallError::Capture {
            command: "blkid -s UUID".to_string(),
            stderr: "no such device".to_string(),
        })
    );
    assert_eq!(
        conclude_capture(&c, Captured::RunFailed),
        Err(InstallError::Run { command: "blkid -s UUID".to_string() })
    );
}

#[test]
fn a_failed_capture_names_its_command() {
    let end = Captured::Ended {
        success: false,
        stdout: String::new(),
        stderr: "permission denied\n".to_string(),
    };
    let first = conclude_capture(&run("blkid", &["/dev/sda2"]), end.duplicate()).unwrap_err();
    let second = conclude_capture(&run("genfstab", &["-U", "/mnt"]), end.duplicate()).unwrap_err();
    assert_ne!(first, second);
    assert_eq!(first.message(), "Command failed: blkid /dev/sda2: permission denied");
    assert_eq!(second.message(), "Command failed: genfstab -U /mnt: permission denied");
    assert_eq!(end.duplicate(), end);

    let silent = Captured::Ended { success: false, stdout: "x".to_string(), stderr: " \n".to_string() };
    assert_eq!(
        conclude_capture(&run("blkid", &[]), silent).unwrap_err().message(),
        "Command failed: blkid"
    );
}

#[test]
fn error_messages() {
    assert_eq!(
        InstallError::Spawn { command: "wipefs -a /dev/sda".to_string() }.message(),
        "spawn wipefs -a /dev/sda"
    );
    assert_eq!(
        InstallError::Input { command: "cryptsetup open /dev/sda2 cryptroot -".to_string() }
            .message(),
        "write stdin: cryptsetup open /dev/sda2 cryptroot -"
    );
    assert_eq!(
        InstallError::Wait { command: "mkfs.ext4 -F /dev/sda2".to_string() }.message(),
        "wait: mkfs.ext4 -F /dev/sda2"
    );
    assert_eq!(
        InstallError::Exit { command: "mount /dev/sda2 /mnt".to_string(), code: Some(32) }.message(),
        "Command failed: mount /dev/sda2 /mnt"
    );
    assert_eq!(
        InstallError::Run { command: "genfstab -U /mnt".to_string() }.message(),
        "run genfstab -U /mnt"
    );
    assert_eq!(
        InstallError::Capture { command: "genfstab -U /mnt".to_string(), stderr: "boom".to_string() }
            .message(),
        "Command failed: genfstab -U /mnt: boom"
    );
    assert_eq!(
        InstallError::Capture { command: "genfstab -U /mnt".to_string(), stderr: String::new() }
            .message(),
        "Command failed: genfstab -U /mnt"
    );
    assert_eq!(
        InstallError::Precondition { what: "Timezone not found: Mars/Base".to_string() }.message(),
        "Timezone not found: Mars/Base"
    );
    assert_eq!(InstallError::File { what: "write fstab".to_string() }.message(), "write fstab");
    assert_eq!(InstallError::GaveUp { what: "gave up".to_string() }.message(), "gave up");
}

#[test]
fn a_heartbeat_is_due_every_ten_seconds() {
    let mut heartbeat = Heartbeat::new();
    let mut due_at = Vec::new();
    for tick in 1..=250u64 {
        if heartbeat.elapsed(100) {
            due_at.push(tick);
        }
    }
    assert_eq!(due_at, vec![100, 200]);
    let mut coarse = Heartbeat::new();
    assert!(!coarse.elapsed(9_999));
    assert!(coarse.elapsed(1));
    assert!(coarse.elapsed(u64::MAX));
    assert!(!coarse.elapsed(0));
}
