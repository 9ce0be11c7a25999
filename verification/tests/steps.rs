use nebula_installer::command::{run, run_chroot, run_with_input, CommandSpec};
use nebula_installer::disks::DiskInfo;
use nebula_installer::grub::{ensure_grub_cmdline_params, remove_grub_cmdline_params};
use nebula_installer::installer::{
    cmdline_rule, extend_actions, first_existing, hooks_line, initramfs_step, layout,
    plymouth_actions, repo_setup_actions, services_actions, swap_actions, unmount_actions,
    variant_source, Action, InstallConfig, Layout,
};
use nebula_installer::steps::{
    bind_repo_actions, bootloader_actions, encrypt_actions, format_actions,
    grub_theme_copy_actions, hypr_defaults_actions, identity_actions,
    import_key_actions, keyring_actions, locale_actions, mount_actions, partition_actions,
    sddm_theme_actions, shell_actions, theme_hook_actions, theme_hook_owner_actions,
    user_actions, THEME_AUTOSTART, THEME_INCLUDE, THEME_SCRIPT,
};

fn config(name: &str, encrypt_disk: bool) -> InstallConfig {
    InstallConfig {
        disk: DiskInfo { name: name.into(), size: "10G".into(), model: String::new() },
        keymap: "de".into(),
        timezone: "Europe/Berlin".into(),
        hostname: "nebula".into(),
        username: "kevin".into(),
        user_password: "secret".into(),
        luks_password: "open sesame".into(),
        encrypt_disk,
        swap_enabled: true,
        driver_packages: vec![],
        kernel_package: "linux".into(),
        kernel_headers: "linux-headers".into(),
        base_packages: vec!["sddm".into()],
        extra_pacman_packages: vec![],
        extra_aur_packages: vec![],
        offline_only: false,
        hyprland_selected: true,
    }
}

fn log(line: &str) -> Action {
    Action::Log(line.to_string())
}

fn cmd(program: &str, args: &[&str]) -> Action {
    Action::Run(run(program, args))
}

fn chroot(args: &[&str]) -> Action {
    Action::Run(run_chroot(args))
}

fn write_file(path: &str, contents: &str) -> Action {
    Action::WriteFile { path: path.to_string(), contents: contents.to_string() }
}

fn write(path: &str, contents: &str, what: &str) -> Action {
    Action::Write { path: path.to_string(), contents: contents.to_string(), what: what.to_string() }
}

fn mkdir(path: &str, what: &str) -> Action {
    Action::MakeDir { path: path.to_string(), what: what.to_string() }
}

#[test]
fn layouts() {
    assert_eq!(
        layout(&config("sda", false)),
        Layout {
            disk_path: "/dev/sda".into(),
            efi_part: "/dev/sda1".into(),
            root_part: "/dev/sda2".into(),
            root_label: "root".into(),
            root_device: "/dev/sda2".into(),
        }
    );
    assert_eq!(
        layout(&config("nvme0n1", true)),
        Layout {
            disk_path: "/dev/nvme0n1".into(),
            efi_part: "/dev/nvme0n1p1".into(),
            root_part: "/dev/nvme0n1p2".into(),
            root_label: "cryptroot".into(),
            root_device: "/dev/mapper/cryptroot".into(),
        }
    );
}

#[test]
fn partitioning() {
    let l = layout(&config("sda", true));
    assert_eq!(
        partition_actions(&l),
        vec![
            log("Wiping /dev/sda..."),
            cmd("wipefs", &["-af", "/dev/sda"]),
            cmd("parted", &["-s", "/dev/sda", "mklabel", "gpt"]),
            cmd("parted", &["-s", "/dev/sda", "mkpart", "ESP", "fat32", "1MiB", "513MiB"]),
            cmd("parted", &["-s", "/dev/sda", "set", "1", "esp", "on"]),
            cmd("parted", &["-s", "/dev/sda", "mkpart", "cryptroot", "513MiB", "100%"]),
        ]
    );
}

#[test]
fn encrypting_feeds_the_passphrase() {
    let l = layout(&config("sda", true));
    assert_eq!(
        encrypt_actions(&l, "open sesame"),
        vec![
            log("Setting up LUKS..."),
            Action::Run(run_with_input(
                "cryptsetup",
                &["luksFormat", "--type", "luks2", "--batch-mode", "/dev/sda2"],
                "open sesame\nopen sesame\n".to_string()
            )),
            Action::Run(run_with_input(
                "cryptsetup",
                &["open", "/dev/sda2", "cryptroot"],
                "open sesame\n".to_string()
            )),
        ]
    );
}

#[test]
fn formatting_and_mounting() {
    let l = layout(&config("sda", true));
    assert_eq!(
        format_actions(&l),
        vec![
            log("Formatting filesystems..."),
            cmd("mkfs.fat", &["-F32", "/dev/sda1"]),
            cmd("mkfs.btrfs", &["-f", "/dev/mapper/cryptroot"]),
        ]
    );
    let plain = layout(&config("vda", false));
    assert_eq!(
        mount_actions(&plain),
        vec![
            cmd("mount", &["/dev/vda2", "/mnt"]),
            cmd("btrfs", &["subvolume", "create", "/mnt/@"]),
            cmd("btrfs", &["subvolume", "create", "/mnt/@home"]),
            cmd("umount", &["/mnt"]),
            cmd("mount", &["-o", "subvol=@,compress=zstd", "/dev/vda2", "/mnt"]),
            cmd("mkdir", &["-p", "/mnt/home"]),
            cmd("mount", &["-o", "subvol=@home,compress=zstd", "/dev/vda2", "/mnt/home"]),
            cmd("mkdir", &["-p", "/mnt/boot"]),
            cmd("mount", &["/dev/vda1", "/mnt/boot"]),
        ]
    );
}

#[test]
fn swap() {
    assert_eq!(
        swap_actions(true),
        vec![
            log("Configuring zram swap..."),
            mkdir("/mnt/etc/systemd", "create systemd dir"),
            write("/mnt/etc/systemd/zram-generator.conf", "[zram0]\nzram-size = ram\n", "write zram config"),
        ]
    );
    assert_eq!(swap_actions(false), vec![log("Swap disabled.")]);
}

#[test]
fn identity_and_locale() {
    assert_eq!(
        identity_actions("nebula", "de"),
        vec![
            write_file("/mnt/etc/hostname", "nebula\n"),
            write_file("/mnt/etc/hosts", "127.0.0.1\tlocalhost\n::1\tlocalhost\n127.0.1.1\tnebula\n"),
            write_file("/mnt/etc/vconsole.conf", "KEYMAP=de\n"),
        ]
    );
    assert_eq!(
        locale_actions("Europe/Berlin"),
        vec![
            chroot(&["ln", "-sf", "/usr/share/zoneinfo/Europe/Berlin", "/etc/localtime"]),
            chroot(&["hwclock", "--systohc"]),
            chroot(&["timedatectl", "set-ntp", "true"]),
            chroot(&["sed", "-i", "s/^#en_US.UTF-8 UTF-8/en_US.UTF-8 UTF-8/", "/etc/locale.gen"]),
            chroot(&["locale-gen"]),
            chroot(&["bash", "-c", "echo LANG=en_US.UTF-8 > /etc/locale.conf"]),
        ]
    );
}

#[test]
fn the_user() {
    assert_eq!(
        user_actions("kevin", "secret"),
        vec![
            chroot(&["useradd", "-m", "-G", "wheel", "-s", "/bin/zsh", "kevin"]),
            Action::Run(run_chroot(&["chpasswd"]).with_input("kevin:secret\n".to_string())),
            chroot(&["passwd", "-l", "root"]),
            chroot(&["sed", "-i", "s/^# %wheel ALL=(ALL:ALL) ALL/%wheel ALL=(ALL:ALL) ALL/", "/etc/sudoers"]),
        ]
    );
    assert_eq!(shell_actions("true"), vec![chroot(&["bash", "-c", "true"])]);
}

#[test]
fn boot_splash() {
    let copy = |src: &str| {
        vec![
            cmd("mkdir", &["-p", "/mnt/usr/share/plymouth/themes"]),
            cmd("cp", &["-a", src, "/mnt/usr/share/plymouth/themes/"]),
        ]
    };
    let splash = "/usr/share/plymouth/themes/nebula-splash";
    let luks = "/usr/share/plymouth/themes/nebula-luks";
    let mut want = copy(splash);
    want.extend(copy(luks));
    want.push(chroot(&["plymouth-set-default-theme", "nebula-luks"]));
    assert_eq!(plymouth_actions(true, true, true), want);

    let mut want = copy(splash);
    want.push(log("Plymouth LUKS theme not found at /usr/share/plymouth/themes/nebula-luks; skipping LUKS theme install."));
    assert_eq!(plymouth_actions(true, true, false), want);

    let mut want = copy(splash);
    want.push(chroot(&["plymouth-set-default-theme", "nebula-splash"]));
    assert_eq!(plymouth_actions(false, true, true), want);

    assert_eq!(
        plymouth_actions(false, false, true),
        vec![log("Plymouth splash theme not found at /usr/share/plymouth/themes/nebula-splash; skipping splash theme install.")]
    );
}

#[test]
fn initial_ram_disk() {
    assert_eq!(
        hooks_line(true),
        "s/^HOOKS=.*/HOOKS=(base udev autodetect modconf block keyboard keymap plymouth encrypt filesystems)/"
    );
    assert_eq!(
        initramfs_step(false, true, false),
        vec![
            chroot(&["sed", "-i", hooks_line(false), "/etc/mkinitcpio.conf"]),
            chroot(&["mkinitcpio", "-P"]),
            chroot(&["plymouth-set-default-theme", "nebula-splash"]),
        ]
    );
    assert_eq!(
        initramfs_step(true, true, true),
        vec![
            chroot(&["sed", "-i", hooks_line(true), "/etc/mkinitcpio.conf"]),
            chroot(&["mkinitcpio", "-P"]),
            chroot(&["plymouth-set-default-theme", "nebula-luks"]),
        ]
    );
    assert_eq!(initramfs_step(true, true, false).len(), 2);
    assert_eq!(initramfs_step(false, false, true).len(), 2);
}

#[test]
fn kernel_command_line() {
    assert_eq!(
        cmdline_rule(true, false),
        (
            Some("Plymouth LUKS theme missing! Disabling quiet splash to ensure crypt prompt is visible.".to_string()),
            remove_grub_cmdline_params(&["quiet", "splash"])
        )
    );
    assert_eq!(cmdline_rule(true, true), (None, ensure_grub_cmdline_params(&["quiet", "splash"])));
    assert_eq!(cmdline_rule(false, false), (None, ensure_grub_cmdline_params(&["quiet", "splash"])));
}

#[test]
fn boot_loader_and_services() {
    assert_eq!(
        bootloader_actions(),
        vec![
            chroot(&["grub-install", "--target=x86_64-efi", "--efi-directory=/boot", "--bootloader-id=GRUB"]),
            chroot(&["grub-mkconfig", "-o", "/boot/grub/grub.cfg"]),
        ]
    );
    assert_eq!(
        services_actions(&["base".to_string(), "sddm".to_string()]),
        vec![
            chroot(&["systemctl", "enable", "NetworkManager"]),
            chroot(&["systemctl", "enable", "sddm"]),
        ]
    );
    assert_eq!(
        services_actions(&["base".to_string()]),
        vec![
            chroot(&["systemctl", "enable", "NetworkManager"]),
            log("SDDM not in base package list; skipping service enable."),
        ]
    );
    assert_eq!(
        unmount_actions(true),
        vec![cmd("sync", &[]), cmd("umount", &["/mnt/opt/nebula-repo"]), cmd("umount", &["-R", "/mnt"])]
    );
    assert_eq!(unmount_actions(false), vec![cmd("sync", &[]), cmd("umount", &["-R", "/mnt"])]);
}

#[test]
fn package_repository() {
    let trust = vec![
        chroot(&["pacman-key", "--lsign-key", "7CB33A71D4C4C529149862B799EC53F7C03BE297"]),
        chroot(&[
            "bash",
            "-c",
            r"if ! grep -q '^\[nebula\]' /etc/pacman.conf; then sed -i '/^\[core\]/i [nebula]\nSigLevel = Required DatabaseOptional\nServer = https://pkgs.nebulalinux.com/stable/\$arch\n' /etc/pacman.conf; fi",
        ]),
    ];
    let mut local = vec![chroot(&["pacman-key", "--add", "/usr/share/nebula/nebula-repo.gpg"])];
    local.extend(trust.clone());
    assert_eq!(repo_setup_actions(true), local);
    let mut remote = vec![chroot(&[
        "bash",
        "-c",
        "curl -fsSL https://pkgs.nebulalinux.com/nebula-repo.gpg | pacman-key --add -",
    ])];
    remote.extend(trust);
    assert_eq!(repo_setup_actions(false), remote);
    assert_eq!(
        import_key_actions(),
        vec![
            mkdir("/mnt/usr/share/nebula", "create nebula key dir"),
            cmd("cp", &["/usr/share/nebula/nebula-repo.gpg", "/mnt/usr/share/nebula/nebula-repo.gpg"]),
            chroot(&["pacman-key", "--add", "/usr/share/nebula/nebula-repo.gpg"]),
            chroot(&["pacman-key", "--lsign-key", "7CB33A71D4C4C529149862B799EC53F7C03BE297"]),
        ]
    );
    assert_eq!(
        bind_repo_actions(),
        vec![
            mkdir("/mnt/opt/nebula-repo", "create offline repo dir"),
            cmd("mount", &["--bind", "/opt/nebula-repo", "/mnt/opt/nebula-repo"]),
        ]
    );
    assert_eq!(
        keyring_actions(),
        vec![
            log("Initializing pacman keyring..."),
            cmd("pacman-key", &["--init"]),
            cmd("pacman-key", &["--populate", "archlinux"]),
        ]
    );
}

#[test]
fn themes() {
    assert_eq!(
        grub_theme_copy_actions("/usr/share/grub/themes/nebula-vimix-grub", "/usr/share/grub/themes/nebula-vimix-grub/2k"),
        vec![
            cmd("mkdir", &["-p", "/mnt/boot/grub/themes"]),
            cmd("mkdir", &["-p", "/mnt/boot/grub/themes/nebula-vimix-grub"]),
            cmd("cp", &["-a", "/usr/share/grub/themes/nebula-vimix-grub/.", "/mnt/boot/grub/themes/nebula-vimix-grub"]),
            cmd("cp", &["-a", "/usr/share/grub/themes/nebula-vimix-grub/2k/.", "/mnt/boot/grub/themes/nebula-vimix-grub"]),
        ]
    );
    assert_eq!(variant_source("/t", "4k", true), "/t/4k");
    assert_eq!(variant_source("/t", "4k", false), "/t/1080p");
    assert_eq!(
        sddm_theme_actions("/usr/share/sddm/themes/nebula-sddm"),
        vec![
            cmd("mkdir", &["-p", "/mnt/usr/share/sddm/themes"]),
            cmd("cp", &["-a", "/usr/share/sddm/themes/nebula-sddm", "/mnt/usr/share/sddm/themes/nebula-sddm"]),
            write_file("/mnt/etc/sddm.conf", "[Theme]\nCurrent=nebula-sddm\n"),
            mkdir("/mnt/etc/sddm.conf.d", "create sddm.conf.d"),
            write_file("/mnt/etc/sddm.conf.d/virtualkbd.conf", "[General]\nInputMethod=qtvirtualkeyboard\n"),
        ]
    );
    assert_eq!(
        hypr_defaults_actions("/usr/share/nebula-hypr/run.sh", "kevin"),
        vec![
            log("Installing Nebula Hyprland defaults from /usr/share/nebula-hypr/run.sh..."),
            cmd("bash", &["/usr/share/nebula-hypr/run.sh", "/mnt", "kevin"]),
        ]
    );
}

#[test]
fn theme_hook() {
    assert_eq!(
        theme_hook_actions("kevin"),
        vec![
            mkdir("/mnt/home/kevin/.config/autostart", "create autostart dir"),
            mkdir("/mnt/home/kevin/.local/share/nebula/post-install", "create theme script dir"),
            mkdir("/mnt/home/kevin/.local/share/nebula/hypr", "create hypr config dir"),
            write("/mnt/home/kevin/.config/autostart/nebula-theme.desktop", THEME_AUTOSTART, "write theme autostart"),
            write("/mnt/home/kevin/.local/share/nebula/post-install/run-gnome-theme.sh", THEME_SCRIPT, "write theme script"),
            cmd("chmod", &["+x", "/mnt/home/kevin/.local/share/nebula/post-install/run-gnome-theme.sh"]),
            write("/mnt/home/kevin/.local/share/nebula/hypr/nebula-theme.conf", THEME_INCLUDE, "write hypr theme include"),
        ]
    );
    assert_eq!(
        theme_hook_owner_actions("kevin"),
        vec![chroot(&[
            "chown",
            "-R",
            "kevin:kevin",
            "/home/kevin/.config/autostart",
            "/home/kevin/.local/share/nebula/post-install",
            "/home/kevin/.local/share/nebula/hypr/nebula-theme.conf",
        ])]
    );
    assert!(THEME_AUTOSTART.starts_with("[Desktop Entry]\nType=Application\nName=Nebula Theme Setup\n"));
    assert!(THEME_AUTOSTART.ends_with("OnlyShowIn=GNOME;\nX-GNOME-Autostart-enabled=true\n"));
    assert_eq!(THEME_SCRIPT.lines().count(), 17);
    assert_eq!(
        THEME_INCLUDE,
        "# Nebula post-install hooks\nexec-once = /bin/bash -lc \"$HOME/.local/share/nebula/post-install/run-gnome-theme.sh\"\n"
    );
}

#[test]
fn lists_of_actions_are_joined() {
    let mut out = vec![log("a")];
    extend_actions(&mut out, vec![log("b"), log("c")]);
    extend_actions(&mut out, vec![]);
    assert_eq!(out, vec![log("a"), log("b"), log("c")]);
    assert_eq!(first_existing(&[false, true, true]), Some(1));
    assert_eq!(first_existing(&[true]), Some(0));
    assert_eq!(first_existing(&[false, false]), None);
    assert_eq!(first_existing(&[]), None);
    let _: CommandSpec = run("x", &[]);
}
