use nebula_installer::command::InstallError;
use nebula_installer::pacman::{
    decide_packages, sets_up_repo,
    base_package_list, failed_packages_log, hybrid_pacman_conf, install_pacman_packages,
    mirrorlist_contents, needs_nebula_repo, optional_conf, optional_packages, pacstrap_args,
    pacstrap_line, require_offline_repo, required_conf, run_pacstrap, sync_pacman_databases,
    validate_offline_base_package, validate_offline_packages, zsh_setup_command, Conf,
    DEFAULT_MIRRORLIST, OFFLINE_CONF, OFFLINE_PACMAN_CONF_PATH,
};

fn names(items: &[&str]) -> Vec<String> {
    items.iter().map(|s| s.to_string()).collect()
}

#[test]
fn mirror_lists() {
    assert_eq!(mirrorlist_contents(None, None), DEFAULT_MIRRORLIST);
    assert_eq!(
        DEFAULT_MIRRORLIST,
        "Server = https://mirror.nebulalinux.com/stable/$repo/os/$arch\n"
    );
    assert_eq!(
        mirrorlist_contents(Some("  Server = a\nServer = b \n"), Some("ignored")),
        "Server = a\nServer = b\n"
    );
    assert_eq!(mirrorlist_contents(Some("  "), Some("https://m")), "");
    assert_eq!(
        mirrorlist_contents(None, Some(" https://mirror.example.org/arch// ")),
        "Server = https://mirror.example.org/arch/$repo/os/$arch\n"
    );
    assert_eq!(mirrorlist_contents(None, Some("\n")), "");
}

#[test]
fn settings_files() {
    assert!(OFFLINE_CONF.starts_with("[options]\nHoldPkg     = pacman glibc\n"));
    assert!(OFFLINE_CONF.ends_with("[nebula-offline]\nSigLevel = Optional TrustAll\nServer = file:///opt/nebula-repo\n"));
    let plain = hybrid_pacman_conf(false);
    let with_repo = hybrid_pacman_conf(true);
    assert_eq!(
        plain,
        format!("{}\n[core]\nInclude = /etc/pacman.d/mirrorlist\n\n[extra]\nInclude = /etc/pacman.d/mirrorlist\n\n[multilib]\nInclude = /etc/pacman.d/mirrorlist\n", OFFLINE_CONF)
    );
    assert_eq!(
        with_repo,
        plain.replace(
            "\n[core]",
            "\n[nebula]\nSigLevel = Required DatabaseOptional\nServer = https://pkgs.nebulalinux.com/stable/$arch\n\n[core]"
        )
    );
}

#[test]
fn offline_packages() {
    let files = names(&[
        "linux-6.9.1-1-x86_64.pkg.tar.zst",
        "linux-firmware-2024-1-any.pkg.tar.zst",
        "grub-2.12-1-x86_64.pkg.tar.zst.sig",
        "vim.pkg.tar.zst",
    ]);
    assert_eq!(validate_offline_packages(&names(&["base", "linux", "linux-firmware"]), &files), Ok(()));
    assert_eq!(
        validate_offline_packages(&names(&["base", "grub", "linux", "vim", "sudo"]), &files),
        Err(InstallError::Precondition {
            what: "Offline repo missing required packages: /opt/nebula-repo/grub-*.pkg.tar.zst, /opt/nebula-repo/vim-*.pkg.tar.zst, /opt/nebula-repo/sudo-*.pkg.tar.zst".to_string()
        })
    );
    assert_eq!(validate_offline_packages(&[], &[]), Ok(()));
    assert_eq!(validate_offline_packages(&names(&["base"]), &[]), Ok(()));
}

#[test]
fn offline_base_package() {
    assert_eq!(validate_offline_base_package(true, true, "Name : base\n", ""), Ok(()));
    assert_eq!(
        validate_offline_base_package(false, true, "Name : base\n", ""),
        Err(InstallError::Precondition { what: "Offline repo sync failed".to_string() })
    );
    assert_eq!(
        validate_offline_base_package(true, false, "", " error: package 'base' was not found\n"),
        Err(InstallError::Precondition {
            what: "Offline repo missing base package: error: package 'base' was not found".to_string()
        })
    );
    assert_eq!(
        validate_offline_base_package(true, true, " \n", ""),
        Err(InstallError::Precondition { what: "Offline repo missing base package".to_string() })
    );
    assert_eq!(require_offline_repo(true, true), Ok(()));
    assert_eq!(require_offline_repo(false, false), Ok(()));
    assert_eq!(
        require_offline_repo(true, false),
        Err(InstallError::Precondition { what: "Offline repo not found at /opt/nebula-repo".to_string() })
    );
}

#[test]
fn base_packages() {
    assert_eq!(
        base_package_list("linux", "linux-headers", &vec![], None),
        names(&[
            "base", "linux-firmware", "btrfs-progs", "grub", "efibootmgr", "networkmanager",
            "plymouth", "sudo", "vim", "zram-generator", "linux",
        ])
    );
    assert_eq!(
        base_package_list(
            "linux-lts",
            "linux-lts-headers",
            &names(&["mesa", "vim", "dkms", "nvidia-dkms", "mesa"]),
            Some("intel-ucode")
        ),
        names(&[
            "base", "linux-firmware", "btrfs-progs", "grub", "efibootmgr", "networkmanager",
            "plymouth", "sudo", "vim", "zram-generator", "linux-lts", "mesa", "dkms",
            "nvidia-dkms", "linux-lts-headers", "intel-ucode",
        ])
    );
    let open = base_package_list("linux", "linux-headers", &names(&["nvidia-open-dkms"]), None);
    assert_eq!(open[open.len() - 2..], names(&["nvidia-open-dkms", "linux-headers"])[..]);
    let nouveau = base_package_list("linux", "linux-headers", &names(&["vulkan-nouveau"]), Some("amd-ucode"));
    assert_eq!(nouveau[nouveau.len() - 2..], names(&["vulkan-nouveau", "amd-ucode"])[..]);
}

#[test]
fn base_installation() {
    let packages = names(&["base", "linux"]);
    assert_eq!(pacstrap_args(false, &packages), names(&["/mnt", "base", "linux"]));
    assert_eq!(
        pacstrap_args(true, &packages),
        names(&["-C", "/tmp/nebula-pacman.offline.conf", "/mnt", "base", "linux"])
    );
    assert_eq!(OFFLINE_PACMAN_CONF_PATH, "/tmp/nebula-pacman.offline.conf");
    let args = pacstrap_args(false, &packages);
    assert_eq!(pacstrap_line(&args), "$ pacstrap /mnt base linux");
    let direct = run_pacstrap(&args, false);
    assert_eq!(direct.program, "pacstrap");
    assert_eq!(direct.args, args);
    assert_eq!(
        direct.envs,
        vec![
            ("SYSTEMD_OFFLINE".to_string(), "1".to_string()),
            ("PACMAN_COLOR".to_string(), "never".to_string()),
        ]
    );
    assert_eq!(direct.heartbeat, Some("Still downloading packages...".to_string()));
    assert_eq!(direct.input, None);
    let scripted = run_pacstrap(&args, true);
    assert_eq!(scripted.program, "script");
    assert_eq!(
        scripted.args,
        names(&["-qec", "SYSTEMD_OFFLINE=1 PACMAN_COLOR=never pacstrap /mnt base linux", "/dev/null"])
    );
    assert!(scripted.envs.is_empty());
    assert_eq!(scripted.heartbeat, Some("Still downloading packages...".to_string()));
}

#[test]
fn package_commands() {
    assert_eq!(install_pacman_packages(&[], None), None);
    let plain = install_pacman_packages(&names(&["firefox", "zed"]), None).unwrap();
    assert_eq!(
        plain.command_line(),
        "arch-chroot /mnt pacman -S --noconfirm --needed firefox zed"
    );
    assert_eq!(plain.envs, vec![("PACMAN_COLOR".to_string(), "never".to_string())]);
    assert_eq!(plain.heartbeat, Some("Installing packages...".to_string()));
    assert_eq!(plain.input, None);
    let offline = install_pacman_packages(&names(&["firefox"]), Some("/etc/pacman.offline.conf")).unwrap();
    assert_eq!(
        offline.command_line(),
        "arch-chroot /mnt pacman -S --noconfirm --needed --config /etc/pacman.offline.conf firefox"
    );
    let sync = sync_pacman_databases(None);
    assert_eq!(sync.command_line(), "arch-chroot /mnt pacman -Sy --noconfirm");
    assert_eq!(sync.heartbeat, Some("Syncing package databases...".to_string()));
    assert_eq!(sync.envs, vec![("PACMAN_COLOR".to_string(), "never".to_string())]);
    assert_eq!(
        sync_pacman_databases(Some("/etc/pacman.hybrid.conf")).command_line(),
        "arch-chroot /mnt pacman -Sy --noconfirm --config /etc/pacman.hybrid.conf"
    );
}

#[test]
fn which_settings() {
    assert_eq!(required_conf(false, false), Conf::System);
    assert_eq!(required_conf(true, false), Conf::Offline);
    assert_eq!(required_conf(false, true), Conf::Offline);
    assert_eq!(optional_conf(false, false), Conf::System);
    assert_eq!(optional_conf(true, false), Conf::Hybrid);
    assert_eq!(optional_conf(true, true), Conf::Offline);
    assert_eq!(optional_conf(false, true), Conf::Offline);
    assert_eq!(Conf::System.path(), None);
    assert_eq!(Conf::Offline.path(), Some("/etc/pacman.offline.conf"));
    assert_eq!(Conf::Hybrid.path(), Some("/etc/pacman.hybrid.conf"));
}

#[test]
fn optional_package_lists() {
    assert_eq!(
        optional_packages(&names(&["firefox", "zed", "firefox"]), &names(&["brave-bin", "zed"])),
        names(&["firefox", "zed", "brave-bin"])
    );
    assert!(optional_packages(&vec![], &vec![]).is_empty());
    assert!(needs_nebula_repo(&names(&["firefox", "yay"]), &[]));
    assert!(needs_nebula_repo(&names(&["yay-bin"]), &[]));
    assert!(needs_nebula_repo(&names(&["firefox"]), &names(&["brave-bin"])));
    assert!(!needs_nebula_repo(&names(&["firefox", "yay-git"]), &[]));
}

#[test]
fn failed_packages_file() {
    assert_eq!(failed_packages_log(&[]), None);
    assert_eq!(
        failed_packages_log(&names(&["brave-bin", "zed"])),
        Some("Failed optional packages:\nbrave-bin\nzed\n".to_string())
    );
}

#[test]
fn shell_settings_for_the_user() {
    let want = format!(
        "if [ -f /etc/skel/.zshrc ] && [ ! -f /home/{0}/.zshrc ]; then \
             cp /etc/skel/.zshrc /home/{0}/.zshrc; \
             chown {0}:{0} /home/{0}/.zshrc; \
             fi; \
             if [ -d /etc/skel/.config/oh-my-zsh/custom/plugins ]; then \
             mkdir -p /home/{0}/.config/oh-my-zsh/custom; \
             cp -a -n /etc/skel/.config/oh-my-zsh/custom/plugins /home/{0}/.config/oh-my-zsh/custom/; \
             chown -R {0}:{0} /home/{0}/.config/oh-my-zsh/custom; \
             fi",
        "kevin"
    );
    assert_eq!(zsh_setup_command("kevin"), want);
}

#[test]
fn decisions_of_the_package_step() {
    // no medium, network allowed
    let online = decide_packages(false, false, false, true, true, true);
    assert!(!online.note_repo_skipped && !online.bind_repo && !online.write_hybrid && !online.import_key);
    assert_eq!(online.required, Some(Conf::System));
    assert_eq!(online.optional, Some(Conf::System));
    assert!(online.sync_before_optional);
    assert!(!online.final_sync);
    // medium at hand, network allowed
    let hybrid = decide_packages(false, true, true, true, true, false);
    assert!(hybrid.bind_repo && hybrid.write_hybrid && hybrid.import_key && !hybrid.hybrid_names_repo);
    assert_eq!(hybrid.required, Some(Conf::Offline));
    assert_eq!(hybrid.optional, Some(Conf::Hybrid));
    assert!(hybrid.sync_before_optional);
    assert!(hybrid.final_sync);
    // medium only
    let offline = decide_packages(true, true, false, true, true, true);
    assert!(offline.note_repo_skipped && offline.bind_repo && !offline.write_hybrid && !offline.import_key);
    assert_eq!(offline.required, Some(Conf::Offline));
    assert_eq!(offline.optional, Some(Conf::Offline));
    assert!(!offline.sync_before_optional);
    assert!(!offline.final_sync);
    // nothing to install
    let nothing = decide_packages(false, false, false, false, false, false);
    assert_eq!(nothing.required, None);
    assert_eq!(nothing.optional, None);
    assert!(!nothing.sync_before_optional);
    assert!(nothing.final_sync);
    assert!(sets_up_repo(false, false));
    assert!(sets_up_repo(true, true));
    assert!(!sets_up_repo(true, false));
}
