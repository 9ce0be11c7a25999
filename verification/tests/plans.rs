use nebula_installer::command::{run, run_chroot, Captured, InstallError};
use nebula_installer::grub::{
    ensure_grub_cmdline_params, remove_grub_cmdline_params, set_grub_distributor,
    set_grub_gfxmode, set_grub_gfxpayload, set_grub_theme, update_grub_cmdline,
};
use nebula_installer::installer::{
    initramfs_step, plymouth_actions, repo_setup_actions, services_actions, unmount_actions, Action,
};
use nebula_installer::pacman::{
    hybrid_pacman_conf, install_pacman_packages, run_pacstrap, sync_pacman_databases,
    zsh_setup_command, Conf, OFFLINE_CONF,
};
use nebula_installer::disks::DiskInfo;
use nebula_installer::installer::{layout, swap_actions, InstallConfig, STEP_COUNT};
use nebula_installer::plans::{
    after_theme_search, base_install_actions, configure_actions, facts_needed, finalize_actions,
    fstab_actions, grub_theme_places, hook_actions, hypr_script_places, log_actions,
    look_for_theme, packages_actions, report_actions, sddm_theme_places, step_actions,
    uuid_query_command, BaseFacts, Detection, FactKind, FinalFacts, PackageFacts, Probed, StepFacts,
    SystemFacts, FAILED_PACKAGES_PATH, GRUB_THEME_DIR, THEME_SEARCH_DEPTH, THEME_SEARCH_ROOTS,
};
use nebula_installer::steps::{
    bootloader_actions, encrypt_actions, format_actions, mount_actions, partition_actions,
};
use nebula_installer::steps::{
    bind_repo_actions, grub_theme_copy_actions, hypr_defaults_actions, identity_actions,
    import_key_actions, keyring_actions, locale_actions, sddm_theme_actions, shell_actions,
    theme_hook_actions, theme_hook_owner_actions, user_actions,
};
use nebula_installer::system::{crypttab_line, os_release};

fn names(items: &[&str]) -> Vec<String> {
    items.iter().map(|s| s.to_string()).collect()
}

fn log(line: &str) -> Action {
    Action::Log(line.to_string())
}

fn write(path: &str, contents: &str, what: &str) -> Action {
    Action::Write { path: path.to_string(), contents: contents.to_string(), what: what.to_string() }
}

fn fail(what: &str) -> Action {
    Action::Fail(InstallError::Precondition { what: what.to_string() })
}

fn base_facts() -> BaseFacts {
    BaseFacts {
        repo_available: false,
        cpuinfo: Some("processor : 0\nvendor_id : GenuineIntel\n".to_string()),
        mirrorlist: None,
        mirror: None,
        script_available: true,
        repo_files: vec![],
    }
}

const BASE: [&str; 12] = [
    "base", "linux-firmware", "btrfs-progs", "grub", "efibootmgr", "networkmanager", "plymouth",
    "sudo", "vim", "zram-generator", "linux", "intel-ucode",
];

#[test]
fn base_system_from_the_network() {
    let facts = base_facts();
    let plan = base_install_actions(false, "linux", "linux-headers", &vec![], &facts);
    let mut args = names(&["/mnt"]);
    args.extend(names(&BASE));
    let mut want = keyring_actions();
    want.extend(vec![
        log("Setting pacman mirror to geo.mirror.pkgbuild.com..."),
        write(
            "/etc/pacman.d/mirrorlist",
            "Server = https://mirror.nebulalinux.com/stable/$repo/os/$arch\n",
            "write mirrorlist",
        ),
        log("Detected CPU microcode: intel-ucode"),
        log("Downloading and installing packages..."),
        log("Downloading and installing packages..."),
        log(&format!("$ pacstrap {}", args.join(" "))),
        Action::Stream(run_pacstrap(&args, true)),
        write(
            "/mnt/etc/pacman.d/mirrorlist",
            "Server = https://mirror.nebulalinux.com/stable/$repo/os/$arch\n",
            "write mirrorlist",
        ),
    ]);
    assert_eq!(plan, want);
}

#[test]
fn base_system_from_the_medium() {
    let mut facts = base_facts();
    facts.repo_available = true;
    facts.script_available = false;
    facts.mirror = Some("https://m.example.org/".to_string());
    facts.repo_files =
        BASE.iter().filter(|p| **p != "base").map(|p| format!("{}-1.0-1-any.pkg.tar.zst", p)).collect();
    let plan = base_install_actions(false, "linux", "linux-headers", &vec![], &facts);
    let mut args = names(&["-C", "/tmp/nebula-pacman.offline.conf", "/mnt"]);
    args.extend(names(&BASE));
    let mut want = keyring_actions();
    want.extend(vec![
        log("Offline repo detected; using it for base system install."),
        log("Detected CPU microcode: intel-ucode"),
        write("/tmp/nebula-pacman.offline.conf", OFFLINE_CONF, "write offline pacman.conf"),
        Action::CheckOfflineBase,
        log("Downloading and installing packages..."),
        log("Downloading and installing packages..."),
        log(&format!("$ pacstrap {}", args.join(" "))),
        Action::Stream(run_pacstrap(&args, false)),
        write(
            "/mnt/etc/pacman.d/mirrorlist",
            "Server = https://m.example.org/$repo/os/$arch\n",
            "write mirrorlist",
        ),
    ]);
    assert_eq!(plan, want);
}

#[test]
fn base_system_that_cannot_be_installed() {
    let mut facts = base_facts();
    assert_eq!(
        base_install_actions(true, "linux", "linux-headers", &vec![], &facts),
        vec![fail("Offline repo not found at /opt/nebula-repo")]
    );

    facts.cpuinfo = None;
    let plan = base_install_actions(false, "linux", "linux-headers", &vec![], &facts);
    assert_eq!(plan.len(), keyring_actions().len() + 3);
    assert_eq!(
        plan.last(),
        Some(&Action::Fail(InstallError::File { what: "read cpuinfo".to_string() }))
    );

    let mut medium = base_facts();
    medium.repo_available = true;
    medium.cpuinfo = Some(String::new());
    medium.repo_files = names(&["linux-6.9-1-x86_64.pkg.tar.zst"]);
    let plan = base_install_actions(true, "linux", "linux-headers", &vec![], &medium);
    let missing: Vec<String> = BASE[1..10]
        .iter()
        .map(|p| format!("/opt/nebula-repo/{}-*.pkg.tar.zst", p))
        .collect();
    assert_eq!(
        plan.last(),
        Some(&fail(&format!("Offline repo missing required packages: {}", missing.join(", "))))
    );
    assert_eq!(plan[plan.len() - 2], Action::CheckOfflineBase);
    assert!(plan.iter().all(|a| !matches!(a, Action::Stream(_))));
}

#[test]
fn table_of_file_systems() {
    assert_eq!(
        fstab_actions(),
        vec![Action::AppendOutput {
            command: run("genfstab", &["-U", "/mnt"]),
            path: "/mnt/etc/fstab".to_string(),
            open_what: "open fstab".to_string(),
            write_what: "write fstab".to_string(),
        }]
    );
    assert_eq!(log_actions(&names(&["a", "b"])), vec![log("a"), log("b")]);
}

fn stream_install(packages: &[&str], conf: Conf) -> Action {
    Action::Stream(install_pacman_packages(&names(packages), conf.path()).unwrap())
}

fn stream_sync(conf: Conf) -> Action {
    Action::Stream(sync_pacman_databases(conf.path()))
}

fn final_sync() -> Vec<Action> {
    vec![
        log("Syncing nebula repo database for first boot..."),
        Action::Tolerated {
            command: sync_pacman_databases(None),
            streamed: true,
            prefix: "Warning: failed to sync package databases: ".to_string(),
        },
    ]
}

#[test]
fn packages_from_the_network() {
    let facts = PackageFacts { repo_available: false, key_on_medium: false, key_in_target: false };
    let plan = packages_actions(
        false,
        "kevin",
        &names(&["sddm", "zsh", "sddm"]),
        &names(&["firefox"]),
        &names(&["brave-bin", "firefox"]),
        facts,
    );
    let mut want = vec![log("Installing selected apps and packages...")];
    want.extend(repo_setup_actions(false));
    want.push(stream_sync(Conf::System));
    want.push(stream_install(&["sddm", "zsh"], Conf::System));
    want.push(stream_sync(Conf::System));
    want.push(Action::BestEffort { packages: names(&["firefox", "brave-bin"]), conf: Conf::System });
    want.extend(shell_actions(&zsh_setup_command("kevin")));
    assert_eq!(plan, want);
}

#[test]
fn packages_from_the_medium_and_the_network() {
    let facts = PackageFacts { repo_available: true, key_on_medium: true, key_in_target: false };
    let plan = packages_actions(false, "kevin", &names(&["zsh"]), &names(&["yay"]), &vec![], facts);
    let mut want = vec![log("Installing selected apps and packages...")];
    want.extend(bind_repo_actions());
    want.push(write("/mnt/etc/pacman.offline.conf", OFFLINE_CONF, "write offline pacman.conf"));
    want.push(write("/mnt/etc/pacman.hybrid.conf", &hybrid_pacman_conf(true), "write hybrid pacman.conf"));
    want.extend(import_key_actions());
    want.extend(repo_setup_actions(true));
    want.push(stream_sync(Conf::Offline));
    want.push(stream_install(&["zsh"], Conf::Offline));
    want.push(stream_sync(Conf::Hybrid));
    want.push(Action::BestEffort { packages: names(&["yay"]), conf: Conf::Hybrid });
    want.extend(final_sync());
    want.extend(shell_actions(&zsh_setup_command("kevin")));
    assert_eq!(plan, want);
}

#[test]
fn packages_from_the_medium_alone() {
    let facts = PackageFacts { repo_available: true, key_on_medium: false, key_in_target: false };
    let plan =
        packages_actions(true, "kevin", &names(&["zsh"]), &vec![], &names(&["brave-bin"]), facts);
    let mut want = vec![
        log("Installing selected apps and packages..."),
        log("Offline-only enabled; skipping nebula repo setup."),
    ];
    want.extend(bind_repo_actions());
    want.push(write("/mnt/etc/pacman.offline.conf", OFFLINE_CONF, "write offline pacman.conf"));
    want.push(stream_sync(Conf::Offline));
    want.push(stream_install(&["zsh"], Conf::Offline));
    want.push(Action::BestEffort { packages: names(&["brave-bin"]), conf: Conf::Offline });
    want.extend(shell_actions(&zsh_setup_command("kevin")));
    assert_eq!(plan, want);

    let with_key = PackageFacts { repo_available: false, key_on_medium: true, key_in_target: true };
    let plan = packages_actions(true, "kevin", &vec![], &vec![], &vec![], with_key);
    let mut want = vec![log("Installing selected apps and packages...")];
    want.extend(repo_setup_actions(true));
    want.extend(shell_actions(&zsh_setup_command("kevin")));
    assert_eq!(plan, want);

    let nothing = PackageFacts { repo_available: false, key_on_medium: false, key_in_target: false };
    let plan = packages_actions(false, "kevin", &vec![], &vec![], &vec![], nothing);
    let mut want = vec![log("Installing selected apps and packages...")];
    want.extend(repo_setup_actions(false));
    want.extend(final_sync());
    want.extend(shell_actions(&zsh_setup_command("kevin")));
    assert_eq!(plan, want);
}

fn tolerated(args: &[&str], prefix: &str) -> Action {
    Action::Tolerated { command: run_chroot(args), streamed: false, prefix: prefix.to_string() }
}

fn handover() -> Vec<Action> {
    vec![
        tolerated(
            &["chown", "-R", "kevin:kevin", "/home/kevin/.config", "/home/kevin/.local"],
            "Failed to chown home dirs: ",
        ),
        tolerated(&["sudo", "-u", "kevin", "xdg-user-dirs-update"], "xdg-user-dirs-update failed: "),
        Action::CopyLog,
    ]
}

#[test]
fn the_last_step_without_the_compositor() {
    let facts = FinalFacts {
        hypr_script: Some("/usr/share/nebula-hypr/run.sh".to_string()),
        display: Probed { lines: names(&["ignored"]), found: None },
        rates: vec![],
        repo_mounted: false,
    };
    let base = names(&["zsh"]);
    let mut want = services_actions(&base);
    want.extend(handover());
    want.extend(unmount_actions(false));
    assert_eq!(finalize_actions("kevin", &base, false, false, &facts), want);
    want.push(Action::CloseVolume);
    assert_eq!(finalize_actions("kevin", &base, false, true, &facts), want);
}

#[test]
fn the_last_step_with_the_compositor() {
    let output = "eDP-1\n    1920x1080 60.00*\nDP-1\n    3840x2160 30.00*\n";
    let facts = FinalFacts {
        hypr_script: Some("/usr/share/nebula-hypr/run.sh".to_string()),
        display: Probed {
            lines: names(&["Using cached wlr-randr output from /tmp/nebula-wlr-randr.txt"]),
            found: Some(output.to_string()),
        },
        rates: names(&["60.00", "30.00"]),
        repo_mounted: true,
    };
    let base = names(&["sddm"]);
    let mut want = services_actions(&base);
    want.extend(hypr_defaults_actions("/usr/share/nebula-hypr/run.sh", "kevin"));
    want.extend(vec![
        log("Generating Hyprland monitor config..."),
        log("Using cached wlr-randr output from /tmp/nebula-wlr-randr.txt"),
        log("Writing Hyprland monitor config to /mnt/home/kevin/.config/hypr/monitors.conf"),
        Action::MakeDir {
            path: "/mnt/home/kevin/.config/hypr".to_string(),
            what: "create hypr config dir".to_string(),
        },
        write(
            "/mnt/home/kevin/.config/hypr/monitors.conf",
            "# Auto-generated\nmonitor = eDP-1, 1920x1080@60.00, 0x0, 1.0\nmonitor = DP-1, 3840x2160@30.00, 1920x0, 1.5\n",
            "write hypr monitors config",
        ),
    ]);
    want.extend(theme_hook_actions("kevin"));
    want.push(Action::EditHook {
        path: "/mnt/home/kevin/.config/hypr/hyprland.conf".to_string(),
        target_include: "/mnt/home/kevin/.local/share/nebula/hypr/nebula-theme.conf".to_string(),
        home_include: "~/.local/share/nebula/hypr/nebula-theme.conf".to_string(),
    });
    want.extend(theme_hook_owner_actions("kevin"));
    want.extend(handover());
    want.extend(unmount_actions(true));
    want.push(Action::CloseVolume);
    assert_eq!(finalize_actions("kevin", &base, true, true, &facts), want);
}

#[test]
fn the_last_step_without_displays() {
    let mut facts = FinalFacts {
        hypr_script: None,
        display: Probed { lines: names(&["Failed to run wlr-randr; skipping monitor detection (x)"]), found: None },
        rates: vec![],
        repo_mounted: false,
    };
    let base = names(&["zsh"]);
    let plan = finalize_actions("kevin", &base, true, false, &facts);
    let at = services_actions(&base).len();
    assert_eq!(
        plan[at..at + 4],
        [
            log("nebula-hypr installer script not found; skipping Hyprland config install."),
            log("Generating Hyprland monitor config..."),
            log("Failed to run wlr-randr; skipping monitor detection (x)"),
            log("Failed to read wlr-randr output; skipping monitor config."),
        ]
    );
    facts.display = Probed { lines: vec![], found: Some("nothing\n".to_string()) };
    let plan = finalize_actions("kevin", &base, true, false, &facts);
    assert_eq!(plan[at + 2], log("No monitor data found; skipping monitor config."));
}

fn system_facts() -> SystemFacts {
    SystemFacts {
        timezone_exists: true,
        version: "1.2.3".to_string(),
        gfx: Detection { lines: names(&["gfx probe"]), resolution: Some((2560, 1440)) },
        splash_exists: true,
        luks_exists: true,
        theme: Probed {
            lines: names(&["Checking GRUB theme path /t: found"]),
            found: Some("/t".to_string()),
        },
        theme_display: Detection { lines: names(&["theme probe"]), resolution: Some((3840, 2160)) },
        variant_exists: true,
        sddm_source: Some("/usr/share/sddm/themes/nebula-sddm".to_string()),
        sddm: Probed { lines: names(&["sddm probe"]), found: Some("2.00".to_string()) },
        root_uuid: Some(Captured::Ended {
            success: true,
            stdout: "abcd-1234\n".to_string(),
            stderr: String::new(),
        }),
    }
}

#[test]
fn configuring_an_encrypted_system() {
    let facts = system_facts();
    let plan = configure_actions("nebula", "de", "Europe/Berlin", "kevin", "pw", true, "/dev/sda2", &facts);
    let mut want = identity_actions("nebula", "de");
    want.extend(locale_actions("Europe/Berlin"));
    want.push(write("/mnt/etc/os-release", &os_release("1.2.3"), "write os-release"));
    want.push(Action::EditGrub(set_grub_distributor()));
    want.push(log("gfx probe"));
    want.push(log("Detected monitor resolution for GRUB gfxmode: 2560x1440"));
    want.push(Action::EditGrub(set_grub_gfxmode("2560x1440")));
    want.push(Action::EditGrub(set_grub_gfxpayload()));
    want.extend(user_actions("kevin", "pw"));
    want.extend(plymouth_actions(true, true, true));
    want.push(log("Checking GRUB theme path /t: found"));
    want.push(log("theme probe"));
    want.push(log("Detected monitor resolution: 3840x2160; using GRUB theme variant: 4k"));
    want.push(log("Installing GRUB theme from /t (variant: 4k)"));
    want.extend(grub_theme_copy_actions("/t", "/t/4k"));
    want.push(Action::EditGrub(set_grub_theme()));
    want.extend(sddm_theme_actions("/usr/share/sddm/themes/nebula-sddm"));
    want.push(log("sddm probe"));
    want.push(log("SDDM scale factor detected: 2.00"));
    want.push(Action::WriteFile {
        path: "/mnt/etc/sddm.conf.d/nebula-scale.conf".to_string(),
        contents: "[General]\nGreeterEnvironment=QT_SCALE_FACTOR=2.00,QT_AUTO_SCREEN_SCALE_FACTOR=0\n\n[Wayland]\nEnableHiDPI=true\n".to_string(),
    });
    want.push(log("Installed SDDM theme: nebula-sddm"));
    want.extend(initramfs_step(true, true, true));
    want.push(log("$ blkid -s UUID -o value /dev/sda2"));
    want.push(Action::WriteFile {
        path: "/mnt/etc/crypttab".to_string(),
        contents: crypttab_line("abcd-1234"),
    });
    want.push(Action::EditGrub(update_grub_cmdline("abcd-1234")));
    want.push(Action::EditGrub(ensure_grub_cmdline_params(&["quiet", "splash"])));
    assert_eq!(plan, want);
}

#[test]
fn configuring_a_plain_system_without_themes() {
    let mut facts = system_facts();
    facts.gfx = Detection { lines: vec![], resolution: None };
    facts.splash_exists = false;
    facts.luks_exists = false;
    facts.theme = Probed { lines: names(&["No GRUB theme found under archiso mounts."]), found: None };
    facts.sddm_source = None;
    facts.root_uuid = None;
    let plan = configure_actions("nebula", "us", "UTC", "kevin", "pw", false, "/dev/sda2", &facts);
    let mut want = identity_actions("nebula", "us");
    want.extend(locale_actions("UTC"));
    want.push(write("/mnt/etc/os-release", &os_release("1.2.3"), "write os-release"));
    want.push(Action::EditGrub(set_grub_distributor()));
    want.push(Action::EditGrub(set_grub_gfxmode("1920x1080")));
    want.push(Action::EditGrub(set_grub_gfxpayload()));
    want.extend(user_actions("kevin", "pw"));
    want.extend(plymouth_actions(false, false, false));
    want.push(log("No GRUB theme found under archiso mounts."));
    want.push(log("GRUB theme not found at any known path; skipping theme install."));
    want.push(log("SDDM theme not found at any known path; skipping theme install."));
    want.extend(initramfs_step(false, false, false));
    want.push(Action::EditGrub(ensure_grub_cmdline_params(&["quiet", "splash"])));
    assert_eq!(plan, want);
}

#[test]
fn configuring_fails_where_something_is_missing() {
    let mut facts = system_facts();
    facts.timezone_exists = false;
    let plan = configure_actions("nebula", "us", "Mars/Base", "kevin", "pw", true, "/dev/sda2", &facts);
    let mut want = identity_actions("nebula", "us");
    want.push(fail("Timezone not found: Mars/Base"));
    assert_eq!(plan, want);

    let mut facts = system_facts();
    facts.root_uuid = Some(Captured::Ended {
        success: false,
        stdout: String::new(),
        stderr: " no such device \n".to_string(),
    });
    let plan = configure_actions("nebula", "us", "UTC", "kevin", "pw", true, "/dev/sda2", &facts);
    assert_eq!(
        plan[plan.len() - 2..],
        [
            Action::Fail(InstallError::Capture {
                command: "blkid -s UUID -o value /dev/sda2".to_string(),
                stderr: "no such device".to_string(),
            }),
            Action::EditGrub(ensure_grub_cmdline_params(&["quiet", "splash"])),
        ]
    );

    facts.root_uuid = Some(Captured::RunFailed);
    let plan = configure_actions("nebula", "us", "UTC", "kevin", "pw", true, "/dev/sda2", &facts);
    assert_eq!(
        plan[plan.len() - 2],
        Action::Fail(InstallError::Run { command: "blkid -s UUID -o value /dev/sda2".to_string() })
    );
    facts.root_uuid = None;
    let plan = configure_actions("nebula", "us", "UTC", "kevin", "pw", true, "/dev/sda2", &facts);
    assert_eq!(
        plan[plan.len() - 2],
        Action::Fail(InstallError::Run { command: "blkid -s UUID -o value /dev/sda2".to_string() })
    );
}

#[test]
fn the_prompt_stays_visible_without_its_theme() {
    let mut facts = system_facts();
    facts.luks_exists = false;
    facts.variant_exists = false;
    facts.theme_display = Detection { lines: vec![], resolution: None };
    facts.sddm.found = None;
    let plan = configure_actions("nebula", "us", "UTC", "kevin", "pw", true, "/dev/sda2", &facts);
    assert_eq!(
        plan[plan.len() - 2..],
        [
            log("Plymouth LUKS theme missing! Disabling quiet splash to ensure crypt prompt is visible."),
            Action::EditGrub(remove_grub_cmdline_params(&["quiet", "splash"])),
        ]
    );
    assert!(plan.contains(&log(
        "Monitor resolution not detected; using default GRUB theme variant: 1080p"
    )));
    assert!(plan.contains(&log("GRUB theme variant not found at /t/1080p; falling back to 1080p")));
    assert!(plan.contains(&log("Installing GRUB theme from /t (variant: 1080p)")));
    assert!(plan.contains(&log("SDDM scale factor not detected; using auto scaling.")));
    let copies = grub_theme_copy_actions("/t", "/t/1080p");
    assert!(copies.iter().all(|a| plan.contains(a)));
}

fn config() -> InstallConfig {
    InstallConfig {
        disk: DiskInfo { name: "sda".into(), size: "10G".into(), model: String::new() },
        keymap: "de".into(),
        timezone: "Europe/Berlin".into(),
        hostname: "nebula".into(),
        username: "kevin".into(),
        user_password: "pw".into(),
        luks_password: "open sesame".into(),
        encrypt_disk: true,
        swap_enabled: false,
        driver_packages: names(&["mesa"]),
        kernel_package: "linux".into(),
        kernel_headers: "linux-headers".into(),
        base_packages: names(&["sddm"]),
        extra_pacman_packages: names(&["firefox"]),
        extra_aur_packages: vec![],
        offline_only: false,
        hyprland_selected: false,
    }
}

#[test]
fn each_step_has_its_plan() {
    let c = config();
    let l = layout(&c);
    let kinds: Vec<FactKind> = (0..STEP_COUNT).map(facts_needed).collect();
    assert_eq!(
        kinds,
        vec![
            FactKind::Nothing,
            FactKind::Nothing,
            FactKind::Nothing,
            FactKind::Nothing,
            FactKind::Nothing,
            FactKind::Base,
            FactKind::Nothing,
            FactKind::System,
            FactKind::Packages,
            FactKind::Nothing,
            FactKind::Final,
        ]
    );
    assert_eq!(step_actions(0, &c, &StepFacts::Nothing), partition_actions(&l));
    assert_eq!(step_actions(1, &c, &StepFacts::Nothing), encrypt_actions(&l, "open sesame"));
    assert_eq!(step_actions(2, &c, &StepFacts::Nothing), format_actions(&l));
    assert_eq!(step_actions(3, &c, &StepFacts::Nothing), mount_actions(&l));
    assert_eq!(step_actions(4, &c, &StepFacts::Nothing), swap_actions(false));
    let base = base_facts();
    assert_eq!(
        step_actions(5, &c, &StepFacts::Base(base.clone())),
        base_install_actions(false, "linux", "linux-headers", &names(&["mesa"]), &base)
    );
    assert_eq!(step_actions(6, &c, &StepFacts::Nothing), fstab_actions());
    let system = system_facts();
    assert_eq!(
        step_actions(7, &c, &StepFacts::System(system.clone())),
        configure_actions("nebula", "de", "Europe/Berlin", "kevin", "pw", true, "/dev/sda2", &system)
    );
    let packages = PackageFacts { repo_available: false, key_on_medium: false, key_in_target: false };
    assert_eq!(
        step_actions(8, &c, &StepFacts::Packages(packages)),
        packages_actions(false, "kevin", &names(&["sddm"]), &names(&["firefox"]), &vec![], packages)
    );
    assert_eq!(step_actions(9, &c, &StepFacts::Nothing), bootloader_actions());
    let last = FinalFacts {
        hypr_script: None,
        display: Probed { lines: vec![], found: None },
        rates: vec![],
        repo_mounted: false,
    };
    assert_eq!(
        step_actions(10, &c, &StepFacts::Final(last.clone())),
        finalize_actions("kevin", &names(&["sddm"]), false, true, &last)
    );
    assert!(step_actions(11, &c, &StepFacts::Nothing).is_empty());
    for index in [5, 7, 8, 10] {
        assert_eq!(
            step_actions(index, &c, &StepFacts::Nothing),
            vec![fail("Step facts missing")]
        );
    }
}

#[test]
fn theme_is_taken_from_the_first_place_that_has_it() {
    let places = grub_theme_places();
    assert_eq!(places.len(), 7);
    assert_eq!(places[0], "/usr/share/grub/themes/nebula-vimix-grub");
    assert_eq!(places[6], "/run/archiso/bootmnt/airootfs/usr/share/grub/themes/nebula-vimix-grub");
    assert!(places.iter().all(|place| place.ends_with(GRUB_THEME_DIR)));

    let probed = look_for_theme(&places, &[false, false, true, true, false, false, false]);
    assert_eq!(
        probed,
        Probed {
            lines: vec![
                "Checking GRUB theme path /usr/share/grub/themes/nebula-vimix-grub: missing"
                    .to_string(),
                "Checking GRUB theme path /boot/grub/themes/nebula-vimix-grub: missing"
                    .to_string(),
                "Checking GRUB theme path /run/archiso/bootmnt/boot/grub/themes/nebula-vimix-grub: found"
                    .to_string(),
            ],
            found: Some("/run/archiso/bootmnt/boot/grub/themes/nebula-vimix-grub".to_string()),
        }
    );
    // what the search found is not asked for
    assert_eq!(after_theme_search(probed.clone(), Some("/x".to_string()), None), probed);
}

#[test]
fn theme_that_lies_nowhere_is_searched() {
    let places = vec!["/a".to_string(), "/b".to_string()];
    // a place of which nothing is said counts as missing
    let probed = look_for_theme(&places, &[false]);
    let lines = vec![
        "Checking GRUB theme path /a: missing".to_string(),
        "Checking GRUB theme path /b: missing".to_string(),
    ];
    assert_eq!(probed, Probed { lines: lines.clone(), found: None });

    let mut first = lines.clone();
    first.push("Found GRUB theme via search: /m/t".to_string());
    assert_eq!(
        after_theme_search(probed.clone(), Some("/m/t".to_string()), Some("/n/t".to_string())),
        Probed { lines: first, found: Some("/m/t".to_string()) }
    );
    let mut second = lines.clone();
    second.push("Found GRUB theme via airootfs search: /n/t".to_string());
    assert_eq!(
        after_theme_search(probed.clone(), None, Some("/n/t".to_string())),
        Probed { lines: second, found: Some("/n/t".to_string()) }
    );
    let mut none = lines;
    none.push("No GRUB theme found under archiso mounts.".to_string());
    assert_eq!(after_theme_search(probed, None, None), Probed { lines: none, found: None });

    assert_eq!(THEME_SEARCH_ROOTS, ["/run/archiso/bootmnt", "/run/archiso/airootfs"]);
    assert_eq!(THEME_SEARCH_DEPTH, 5);
    assert_eq!(look_for_theme(&Vec::new(), &[true]), Probed { lines: vec![], found: None });
}

#[test]
fn places_of_the_login_theme_and_of_the_script() {
    assert_eq!(
        sddm_theme_places(),
        vec![
            "/usr/share/sddm/themes/nebula-sddm".to_string(),
            "/run/archiso/bootmnt/airootfs/usr/share/sddm/themes/nebula-sddm".to_string(),
            "/run/archiso/bootmnt/usr/share/sddm/themes/nebula-sddm".to_string(),
        ]
    );
    assert_eq!(
        hypr_script_places(),
        vec![
            "/mnt/usr/share/nebula-hypr/run.sh".to_string(),
            "/usr/share/nebula-hypr/run.sh".to_string(),
            "/run/archiso/bootmnt/airootfs/usr/share/nebula-hypr/run.sh".to_string(),
            "/run/archiso/bootmnt/usr/share/nebula-hypr/run.sh".to_string(),
        ]
    );
}

#[test]
fn the_hook_is_written_where_the_settings_lack_it() {
    let path = "/mnt/home/kevin/.config/hypr/hyprland.conf";
    let target = "/mnt/home/kevin/.local/share/nebula/hypr/nebula-theme.conf";
    let home = "~/.local/share/nebula/hypr/nebula-theme.conf";
    assert_eq!(
        hook_actions(None, path, target, home),
        vec![Action::Log("Hyprland defaults not found; skipping theme hook.".to_string())]
    );
    let existing = "monitor = ,preferred,auto,1\n";
    let updated = nebula_installer::system::hook_hyprland_conf(existing, target, home);
    assert_ne!(updated, existing);
    assert_eq!(
        hook_actions(Some(existing), path, target, home),
        vec![Action::Write {
            path: path.to_string(),
            contents: updated.clone(),
            what: "append hypr theme include".to_string(),
        }]
    );
    assert_eq!(
        updated,
        "monitor = ,preferred,auto,1\n# Nebula post-install hooks\nsource = ~/.local/share/nebula/hypr/nebula-theme.conf\n"
    );
    // settings that hold the hook and need no change stay as they are
    let hooked = "a\nsource = ~/.local/share/nebula/hypr/nebula-theme.conf\nb";
    assert_eq!(hook_actions(Some(hooked), path, target, home), vec![]);
}

#[test]
fn failed_packages_are_written_down_without_ending_the_step() {
    assert_eq!(report_actions(&[]), vec![]);
    let failed = vec!["zen-browser".to_string(), "code".to_string()];
    assert_eq!(FAILED_PACKAGES_PATH, "/mnt/var/log/nebula-failed-packages.txt");
    assert_eq!(
        report_actions(&failed),
        vec![
            Action::Log(
                "Some optional packages failed to install. See /var/log/nebula-failed-packages.txt"
                    .to_string()
            ),
            Action::Record {
                path: "/mnt/var/log/nebula-failed-packages.txt".to_string(),
                contents: "Failed optional packages:\nzen-browser\ncode\n".to_string(),
                complaint: "Warning: failed to write /var/log/nebula-failed-packages.txt"
                    .to_string(),
            },
            Action::Note(
                "Optional packages failed. See /var/log/nebula-failed-packages.txt".to_string()
            ),
        ]
    );
    // nothing in the report can end the step
    assert!(report_actions(&failed).iter().all(|action| !matches!(
        action,
        Action::Fail(_) | Action::Write { .. } | Action::WriteFile { .. } | Action::MakeDir { .. }
    )));
}

#[test]
fn the_identifier_is_asked_of_blkid() {
    let query = uuid_query_command("/dev/nvme0n1p2");
    assert_eq!(query, run("blkid", &["-s", "UUID", "-o", "value", "/dev/nvme0n1p2"]));
    assert_eq!(query.command_line(), "blkid -s UUID -o value /dev/nvme0n1p2");
}
