//! What the steps of the installation do: for each step, or part of a
//! step, the list of its actions in order.

use crate::command::{fed, in_chroot, plain, run, run_chroot, run_with_input, CommandView};
use crate::installer::{action_views, Action, ActionView, Layout, LayoutView};
use crate::text::{glue, glue3, glue4};
use vstd::prelude::*;

verus! {

/// What the first step does: it wipes the disk and lays out its two partitions.
pub open spec fn partition_plan(l: LayoutView) -> Seq<ActionView> {
    seq![
        ActionView::Log("Wiping "@ + l.disk_path + "..."@),
        ActionView::Run(plain("wipefs"@, seq!["-af"@, l.disk_path])),
        ActionView::Run(plain("parted"@, seq!["-s"@, l.disk_path, "mklabel"@, "gpt"@])),
        ActionView::Run(
            plain(
                "parted"@,
                seq!["-s"@, l.disk_path, "mkpart"@, "ESP"@, "fat32"@, "1MiB"@, "513MiB"@],
            ),
        ),
        ActionView::Run(plain("parted"@, seq!["-s"@, l.disk_path, "set"@, "1"@, "esp"@, "on"@])),
        ActionView::Run(
            plain("parted"@, seq!["-s"@, l.disk_path, "mkpart"@, l.root_label, "513MiB"@, "100%"@]),
        ),
    ]
}

/// What the first step does: it wipes the disk and lays out its two partitions.
pub fn partition_actions(l: &Layout) -> (out: Vec<Action>)
    ensures
        action_views(out@) == partition_plan(l@),
{
    let mut out: Vec<Action> = Vec::new();
    out.push(Action::Log(glue3("Wiping ", l.disk_path.as_str(), "...")));
    out.push(Action::Run(run("wipefs", &["-af", l.disk_path.as_str()])));
    out.push(Action::Run(run("parted", &["-s", l.disk_path.as_str(), "mklabel", "gpt"])));
    out.push(
        Action::Run(
            run(
                "parted",
                &["-s", l.disk_path.as_str(), "mkpart", "ESP", "fat32", "1MiB", "513MiB"],
            ),
        ),
    );
    out.push(Action::Run(run("parted", &["-s", l.disk_path.as_str(), "set", "1", "esp", "on"])));
    out.push(
        Action::Run(
            run(
                "parted",
                &["-s", l.disk_path.as_str(), "mkpart", l.root_label.as_str(), "513MiB", "100%"],
            ),
        ),
    );
    proof {
        let want = partition_plan(l@);
        assert(out@[1]@->Run_0.args =~= want[1]->Run_0.args);
        assert(out@[2]@->Run_0.args =~= want[2]->Run_0.args);
        assert(out@[3]@->Run_0.args =~= want[3]->Run_0.args);
        assert(out@[4]@->Run_0.args =~= want[4]->Run_0.args);
        assert(out@[5]@->Run_0.args =~= want[5]->Run_0.args);
    }
    out
}

/// What the step that encrypts the disk does: it sets up the encrypted volume
/// on the system partition and opens it, the passphrase handed over on
/// standard input.
pub open spec fn encrypt_plan(l: LayoutView, passphrase: Seq<char>) -> Seq<ActionView> {
    seq![
        ActionView::Log("Setting up LUKS..."@),
        ActionView::Run(
            fed(
                "cryptsetup"@,
                seq!["luksFormat"@, "--type"@, "luks2"@, "--batch-mode"@, l.root_part],
                passphrase + "\n"@ + passphrase + "\n"@,
            ),
        ),
        ActionView::Run(
            fed("cryptsetup"@, seq!["open"@, l.root_part, "cryptroot"@], passphrase + "\n"@),
        ),
    ]
}

/// What the step that encrypts the disk does: it sets up the encrypted volume
/// on the system partition and opens it, the passphrase handed over on
/// standard input.
pub fn encrypt_actions(l: &Layout, passphrase: &str) -> (out: Vec<Action>)
    ensures
        action_views(out@) == encrypt_plan(l@, passphrase@),
{
    let mut out: Vec<Action> = Vec::new();
    out.push(Action::Log("Setting up LUKS...".to_owned()));
    out.push(
        Action::Run(
            run_with_input(
                "cryptsetup",
                &["luksFormat", "--type", "luks2", "--batch-mode", l.root_part.as_str()],
                glue4(passphrase, "\n", passphrase, "\n"),
            ),
        ),
    );
    out.push(
        Action::Run(
            run_with_input(
                "cryptsetup",
                &["open", l.root_part.as_str(), "cryptroot"],
                glue(passphrase, "\n"),
            ),
        ),
    );
    proof {
        let want = encrypt_plan(l@, passphrase@);
        assert(out@[1]@->Run_0.args =~= want[1]->Run_0.args);
        assert(out@[2]@->Run_0.args =~= want[2]->Run_0.args);
    }
    out
}

/// What the step that creates the file systems does.
pub open spec fn format_plan(l: LayoutView) -> Seq<ActionView> {
    seq![
        ActionView::Log("Formatting filesystems..."@),
        ActionView::Run(plain("mkfs.fat"@, seq!["-F32"@, l.efi_part])),
        ActionView::Run(plain("mkfs.btrfs"@, seq!["-f"@, l.root_device])),
    ]
}

/// What the step that creates the file systems does.
pub fn format_actions(l: &Layout) -> (out: Vec<Action>)
    ensures
        action_views(out@) == format_plan(l@),
{
    let mut out: Vec<Action> = Vec::new();
    out.push(Action::Log("Formatting filesystems...".to_owned()));
    out.push(Action::Run(run("mkfs.fat", &["-F32", l.efi_part.as_str()])));
    out.push(Action::Run(run("mkfs.btrfs", &["-f", l.root_device.as_str()])));
    proof {
        let want = format_plan(l@);
        assert(out@[1]@->Run_0.args =~= want[1]->Run_0.args);
        assert(out@[2]@->Run_0.args =~= want[2]->Run_0.args);
    }
    out
}

/// What the step that mounts the file systems does: it creates the subvolumes
/// for the system and for the home directories and mounts them and the boot
/// partition.
pub open spec fn mount_plan(l: LayoutView) -> Seq<ActionView> {
    seq![
        ActionView::Run(plain("mount"@, seq![l.root_device, "/mnt"@])),
        ActionView::Run(plain("btrfs"@, seq!["subvolume"@, "create"@, "/mnt/@"@])),
        ActionView::Run(plain("btrfs"@, seq!["subvolume"@, "create"@, "/mnt/@home"@])),
        ActionView::Run(plain("umount"@, seq!["/mnt"@])),
        ActionView::Run(
            plain("mount"@, seq!["-o"@, "subvol=@,compress=zstd"@, l.root_device, "/mnt"@]),
        ),
        ActionView::Run(plain("mkdir"@, seq!["-p"@, "/mnt/home"@])),
        ActionView::Run(
            plain(
                "mount"@,
                seq!["-o"@, "subvol=@home,compress=zstd"@, l.root_device, "/mnt/home"@],
            ),
        ),
        ActionView::Run(plain("mkdir"@, seq!["-p"@, "/mnt/boot"@])),
        ActionView::Run(plain("mount"@, seq![l.efi_part, "/mnt/boot"@])),
    ]
}

/// What the step that mounts the file systems does: it creates the subvolumes
/// for the system and for the home directories and mounts them and the boot
/// partition.
pub fn mount_actions(l: &Layout) -> (out: Vec<Action>)
    ensures
        action_views(out@) == mount_plan(l@),
{
    let mut out: Vec<Action> = Vec::new();
    out.push(Action::Run(run("mount", &[l.root_device.as_str(), "/mnt"])));
    out.push(Action::Run(run("btrfs", &["subvolume", "create", "/mnt/@"])));
    out.push(Action::Run(run("btrfs", &["subvolume", "create", "/mnt/@home"])));
    out.push(Action::Run(run("umount", &["/mnt"])));
    out.push(
        Action::Run(
            run("mount", &["-o", "subvol=@,compress=zstd", l.root_device.as_str(), "/mnt"]),
        ),
    );
    out.push(Action::Run(run("mkdir", &["-p", "/mnt/home"])));
    out.push(
        Action::Run(
            run(
                "mount",
                &["-o", "subvol=@home,compress=zstd", l.root_device.as_str(), "/mnt/home"],
            ),
        ),
    );
    out.push(Action::Run(run("mkdir", &["-p", "/mnt/boot"])));
    out.push(Action::Run(run("mount", &[l.efi_part.as_str(), "/mnt/boot"])));
    proof {
        let want = mount_plan(l@);
        assert(out@[0]@->Run_0.args =~= want[0]->Run_0.args);
        assert(out@[1]@->Run_0.args =~= want[1]->Run_0.args);
        assert(out@[2]@->Run_0.args =~= want[2]->Run_0.args);
        assert(out@[3]@->Run_0.args =~= want[3]->Run_0.args);
        assert(out@[4]@->Run_0.args =~= want[4]->Run_0.args);
        assert(out@[5]@->Run_0.args =~= want[5]->Run_0.args);
        assert(out@[6]@->Run_0.args =~= want[6]->Run_0.args);
        assert(out@[7]@->Run_0.args =~= want[7]->Run_0.args);
        assert(out@[8]@->Run_0.args =~= want[8]->Run_0.args);
    }
    out
}

/// What the step that sets up swap does where swap is wanted.
pub open spec fn swap_on_plan() -> Seq<ActionView> {
    seq![
        ActionView::Log("Configuring zram swap..."@),
        ActionView::MakeDir { path: "/mnt/etc/systemd"@, what: "create systemd dir"@ },
        ActionView::Write {
            path: "/mnt/etc/systemd/zram-generator.conf"@,
            contents: "[zram0]\nzram-size = ram\n"@,
            what: "write zram config"@,
        },
    ]
}

/// What the step that sets up swap does where swap is wanted.
pub fn swap_on_actions() -> (out: Vec<Action>)
    ensures
        action_views(out@) == swap_on_plan(),
{
    let mut out: Vec<Action> = Vec::new();
    out.push(Action::Log("Configuring zram swap...".to_owned()));
    out.push(
        Action::MakeDir {
            path: "/mnt/etc/systemd".to_owned(),
            what: "create systemd dir".to_owned(),
        },
    );
    out.push(
        Action::Write {
            path: "/mnt/etc/systemd/zram-generator.conf".to_owned(),
            contents: "[zram0]\nzram-size = ram\n".to_owned(),
            what: "write zram config".to_owned(),
        },
    );
    out
}

/// What the step that sets up swap does where no swap is wanted.
pub open spec fn swap_off_plan() -> Seq<ActionView> {
    seq![
        ActionView::Log("Swap disabled."@),
    ]
}

/// What the step that sets up swap does where no swap is wanted.
pub fn swap_off_actions() -> (out: Vec<Action>)
    ensures
        action_views(out@) == swap_off_plan(),
{
    let mut out: Vec<Action> = Vec::new();
    out.push(Action::Log("Swap disabled.".to_owned()));
    out
}

/// What the step that installs the boot loader does.
pub open spec fn bootloader_plan() -> Seq<ActionView> {
    seq![
        ActionView::Run(
            in_chroot(
                seq![
                    "grub-install"@,
                    "--target=x86_64-efi"@,
                    "--efi-directory=/boot"@,
                    "--bootloader-id=GRUB"@,
                ],
            ),
        ),
        ActionView::Run(in_chroot(seq!["grub-mkconfig"@, "-o"@, "/boot/grub/grub.cfg"@])),
    ]
}

/// What the step that installs the boot loader does.
pub fn bootloader_actions() -> (out: Vec<Action>)
    ensures
        action_views(out@) == bootloader_plan(),
{
    let mut out: Vec<Action> = Vec::new();
    out.push(
        Action::Run(
            run_chroot(
                &[
                    "grub-install",
                    "--target=x86_64-efi",
                    "--efi-directory=/boot",
                    "--bootloader-id=GRUB",
                ],
            ),
        ),
    );
    out.push(Action::Run(run_chroot(&["grub-mkconfig", "-o", "/boot/grub/grub.cfg"])));
    proof {
        let want = bootloader_plan();
        assert(out@[0]@->Run_0.args =~= want[0]->Run_0.args);
        assert(out@[1]@->Run_0.args =~= want[1]->Run_0.args);
    }
    out
}

/// The files that name the machine and its keyboard layout.
pub open spec fn identity_plan(hostname: Seq<char>, keymap: Seq<char>) -> Seq<ActionView> {
    seq![
        ActionView::WriteFile { path: "/mnt/etc/hostname"@, contents: hostname + "\n"@ },
        ActionView::WriteFile {
            path: "/mnt/etc/hosts"@,
            contents: "127.0.0.1\tlocalhost\n::1\tlocalhost\n127.0.1.1\t"@ + hostname + "\n"@,
        },
        ActionView::WriteFile {
            path: "/mnt/etc/vconsole.conf"@,
            contents: "KEYMAP="@ + keymap + "\n"@,
        },
    ]
}

/// The files that name the machine and its keyboard layout.
pub fn identity_actions(hostname: &str, keymap: &str) -> (out: Vec<Action>)
    ensures
        action_views(out@) == identity_plan(hostname@, keymap@),
{
    let mut out: Vec<Action> = Vec::new();
    out.push(
        Action::WriteFile {
            path: "/mnt/etc/hostname".to_owned(),
            contents: glue(hostname, "\n"),
        },
    );
    out.push(
        Action::WriteFile {
            path: "/mnt/etc/hosts".to_owned(),
            contents: glue3("127.0.0.1\tlocalhost\n::1\tlocalhost\n127.0.1.1\t", hostname, "\n"),
        },
    );
    out.push(
        Action::WriteFile {
            path: "/mnt/etc/vconsole.conf".to_owned(),
            contents: glue3("KEYMAP=", keymap, "\n"),
        },
    );
    out
}

/// The commands that set the clock and the language of the installed system.
pub open spec fn locale_plan(timezone: Seq<char>) -> Seq<ActionView> {
    seq![
        ActionView::Run(
            in_chroot(seq!["ln"@, "-sf"@, "/usr/share/zoneinfo/"@ + timezone, "/etc/localtime"@]),
        ),
        ActionView::Run(in_chroot(seq!["hwclock"@, "--systohc"@])),
        ActionView::Run(in_chroot(seq!["timedatectl"@, "set-ntp"@, "true"@])),
        ActionView::Run(
            in_chroot(
                seq![
                    "sed"@,
                    "-i"@,
                    "s/^#en_US.UTF-8 UTF-8/en_US.UTF-8 UTF-8/"@,
                    "/etc/locale.gen"@,
                ],
            ),
        ),
        ActionView::Run(in_chroot(seq!["locale-gen"@])),
        ActionView::Run(
            in_chroot(seq!["bash"@, "-c"@, "echo LANG=en_US.UTF-8 > /etc/locale.conf"@]),
        ),
    ]
}

/// The commands that set the clock and the language of the installed system.
pub fn locale_actions(timezone: &str) -> (out: Vec<Action>)
    ensures
        action_views(out@) == locale_plan(timezone@),
{
    let mut out: Vec<Action> = Vec::new();
    out.push(
        Action::Run(
            run_chroot(
                &["ln", "-sf", glue("/usr/share/zoneinfo/", timezone).as_str(), "/etc/localtime"],
            ),
        ),
    );
    out.push(Action::Run(run_chroot(&["hwclock", "--systohc"])));
    out.push(Action::Run(run_chroot(&["timedatectl", "set-ntp", "true"])));
    out.push(
        Action::Run(
            run_chroot(
                &["sed", "-i", "s/^#en_US.UTF-8 UTF-8/en_US.UTF-8 UTF-8/", "/etc/locale.gen"],
            ),
        ),
    );
    out.push(Action::Run(run_chroot(&["locale-gen"])));
    out.push(Action::Run(run_chroot(&["bash", "-c", "echo LANG=en_US.UTF-8 > /etc/locale.conf"])));
    proof {
        let want = locale_plan(timezone@);
        assert(out@[0]@->Run_0.args =~= want[0]->Run_0.args);
        assert(out@[1]@->Run_0.args =~= want[1]->Run_0.args);
        assert(out@[2]@->Run_0.args =~= want[2]->Run_0.args);
        assert(out@[3]@->Run_0.args =~= want[3]->Run_0.args);
        assert(out@[4]@->Run_0.args =~= want[4]->Run_0.args);
        assert(out@[5]@->Run_0.args =~= want[5]->Run_0.args);
    }
    out
}

/// The commands that create the user, set the password, lock the root account
/// and let the user's group use `sudo`. The password is handed over on
/// standard input.
pub open spec fn user_plan(username: Seq<char>, password: Seq<char>) -> Seq<ActionView> {
    seq![
        ActionView::Run(
            in_chroot(seq!["useradd"@, "-m"@, "-G"@, "wheel"@, "-s"@, "/bin/zsh"@, username]),
        ),
        ActionView::Run(
            CommandView {
                input: Some(username + ":"@ + password + "\n"@),
                ..in_chroot(seq!["chpasswd"@])
            },
        ),
        ActionView::Run(in_chroot(seq!["passwd"@, "-l"@, "root"@])),
        ActionView::Run(
            in_chroot(
                seq![
                    "sed"@,
                    "-i"@,
                    "s/^# %wheel ALL=(ALL:ALL) ALL/%wheel ALL=(ALL:ALL) ALL/"@,
                    "/etc/sudoers"@,
                ],
            ),
        ),
    ]
}

/// The commands that create the user, set the password, lock the root account
/// and let the user's group use `sudo`. The password is handed over on
/// standard input.
pub fn user_actions(username: &str, password: &str) -> (out: Vec<Action>)
    ensures
        action_views(out@) == user_plan(username@, password@),
{
    let mut out: Vec<Action> = Vec::new();
    out.push(
        Action::Run(run_chroot(&["useradd", "-m", "-G", "wheel", "-s", "/bin/zsh", username])),
    );
    out.push(
        Action::Run(run_chroot(&["chpasswd"]).with_input(glue4(username, ":", password, "\n"))),
    );
    out.push(Action::Run(run_chroot(&["passwd", "-l", "root"])));
    out.push(
        Action::Run(
            run_chroot(
                &[
                    "sed",
                    "-i",
                    "s/^# %wheel ALL=(ALL:ALL) ALL/%wheel ALL=(ALL:ALL) ALL/",
                    "/etc/sudoers",
                ],
            ),
        ),
    );
    proof {
        let want = user_plan(username@, password@);
        assert(out@[0]@->Run_0.args =~= want[0]->Run_0.args);
        assert(out@[1]@->Run_0.args =~= want[1]->Run_0.args);
        assert(out@[2]@->Run_0.args =~= want[2]->Run_0.args);
        assert(out@[3]@->Run_0.args =~= want[3]->Run_0.args);
    }
    out
}

/// The commands that copy a boot splash theme from `source` into the installed system.
pub open spec fn copy_theme_plan(source: Seq<char>) -> Seq<ActionView> {
    seq![
        ActionView::Run(plain("mkdir"@, seq!["-p"@, "/mnt/usr/share/plymouth/themes"@])),
        ActionView::Run(plain("cp"@, seq!["-a"@, source, "/mnt/usr/share/plymouth/themes/"@])),
    ]
}

/// The commands that copy a boot splash theme from `source` into the installed system.
pub fn copy_theme_actions(source: &str) -> (out: Vec<Action>)
    ensures
        action_views(out@) == copy_theme_plan(source@),
{
    let mut out: Vec<Action> = Vec::new();
    out.push(Action::Run(run("mkdir", &["-p", "/mnt/usr/share/plymouth/themes"])));
    out.push(Action::Run(run("cp", &["-a", source, "/mnt/usr/share/plymouth/themes/"])));
    proof {
        let want = copy_theme_plan(source@);
        assert(out@[0]@->Run_0.args =~= want[0]->Run_0.args);
        assert(out@[1]@->Run_0.args =~= want[1]->Run_0.args);
    }
    out
}

/// The command that makes `theme` the boot splash of the installed system.
pub open spec fn set_theme_plan(theme: Seq<char>) -> Seq<ActionView> {
    seq![
        ActionView::Run(in_chroot(seq!["plymouth-set-default-theme"@, theme])),
    ]
}

/// The command that makes `theme` the boot splash of the installed system.
pub fn set_theme_actions(theme: &str) -> (out: Vec<Action>)
    ensures
        action_views(out@) == set_theme_plan(theme@),
{
    let mut out: Vec<Action> = Vec::new();
    out.push(Action::Run(run_chroot(&["plymouth-set-default-theme", theme])));
    proof {
        let want = set_theme_plan(theme@);
        assert(out@[0]@->Run_0.args =~= want[0]->Run_0.args);
    }
    out
}

/// The commands that rebuild the initial ram disk with the hooks `hooks`.
pub open spec fn initramfs_plan(hooks: Seq<char>) -> Seq<ActionView> {
    seq![
        ActionView::Run(in_chroot(seq!["sed"@, "-i"@, hooks, "/etc/mkinitcpio.conf"@])),
        ActionView::Run(in_chroot(seq!["mkinitcpio"@, "-P"@])),
    ]
}

/// The commands that rebuild the initial ram disk with the hooks `hooks`.
pub fn initramfs_actions(hooks: &str) -> (out: Vec<Action>)
    ensures
        action_views(out@) == initramfs_plan(hooks@),
{
    let mut out: Vec<Action> = Vec::new();
    out.push(Action::Run(run_chroot(&["sed", "-i", hooks, "/etc/mkinitcpio.conf"])));
    out.push(Action::Run(run_chroot(&["mkinitcpio", "-P"])));
    proof {
        let want = initramfs_plan(hooks@);
        assert(out@[0]@->Run_0.args =~= want[0]->Run_0.args);
        assert(out@[1]@->Run_0.args =~= want[1]->Run_0.args);
    }
    out
}

/// The commands that end the installation: buffers are written out and the
/// installed system is unmounted, the bound package repository first where
/// `repo_mounted` says it is mounted.
pub open spec fn unmount_with_repo_plan() -> Seq<ActionView> {
    seq![
        ActionView::Run(plain("sync"@, Seq::empty())),
        ActionView::Run(plain("umount"@, seq!["/mnt/opt/nebula-repo"@])),
        ActionView::Run(plain("umount"@, seq!["-R"@, "/mnt"@])),
    ]
}

/// The commands that end the installation: buffers are written out and the
/// installed system is unmounted, the bound package repository first where
/// `repo_mounted` says it is mounted.
pub fn unmount_with_repo_actions() -> (out: Vec<Action>)
    ensures
        action_views(out@) == unmount_with_repo_plan(),
{
    let mut out: Vec<Action> = Vec::new();
    out.push(Action::Run(run("sync", &[])));
    out.push(Action::Run(run("umount", &["/mnt/opt/nebula-repo"])));
    out.push(Action::Run(run("umount", &["-R", "/mnt"])));
    proof {
        let want = unmount_with_repo_plan();
        assert(out@[0]@->Run_0.args =~= want[0]->Run_0.args);
        assert(out@[1]@->Run_0.args =~= want[1]->Run_0.args);
        assert(out@[2]@->Run_0.args =~= want[2]->Run_0.args);
    }
    out
}

/// The commands that end the installation where no package repository is
/// bound into the installed system.
pub open spec fn unmount_plan() -> Seq<ActionView> {
    seq![
        ActionView::Run(plain("sync"@, Seq::empty())),
        ActionView::Run(plain("umount"@, seq!["-R"@, "/mnt"@])),
    ]
}

/// The commands that end the installation where no package repository is
/// bound into the installed system.
pub fn unmount_actions() -> (out: Vec<Action>)
    ensures
        action_views(out@) == unmount_plan(),
{
    let mut out: Vec<Action> = Vec::new();
    out.push(Action::Run(run("sync", &[])));
    out.push(Action::Run(run("umount", &["-R", "/mnt"])));
    proof {
        let want = unmount_plan();
        assert(out@[0]@->Run_0.args =~= want[0]->Run_0.args);
        assert(out@[1]@->Run_0.args =~= want[1]->Run_0.args);
    }
    out
}

/// The commands that make the package repository of the installer known
/// inside the installed system with the key at `key_path` there.
pub open spec fn repo_key_local_plan() -> Seq<ActionView> {
    seq![
        ActionView::Run(
            in_chroot(seq!["pacman-key"@, "--add"@, "/usr/share/nebula/nebula-repo.gpg"@]),
        ),
    ]
}

/// The commands that make the package repository of the installer known
/// inside the installed system with the key at `key_path` there.
pub fn repo_key_local_actions() -> (out: Vec<Action>)
    ensures
        action_views(out@) == repo_key_local_plan(),
{
    let mut out: Vec<Action> = Vec::new();
    out.push(
        Action::Run(run_chroot(&["pacman-key", "--add", "/usr/share/nebula/nebula-repo.gpg"])),
    );
    proof {
        let want = repo_key_local_plan();
        assert(out@[0]@->Run_0.args =~= want[0]->Run_0.args);
    }
    out
}

/// The commands that fetch the key of the package repository from the network
/// into the installed system.
pub open spec fn repo_key_remote_plan() -> Seq<ActionView> {
    seq![
        ActionView::Run(
            in_chroot(
                seq![
                    "bash"@,
                    "-c"@,
                    "curl -fsSL https://pkgs.nebulalinux.com/nebula-repo.gpg | pacman-key --add -"@,
                ],
            ),
        ),
    ]
}

/// The commands that fetch the key of the package repository from the network
/// into the installed system.
pub fn repo_key_remote_actions() -> (out: Vec<Action>)
    ensures
        action_views(out@) == repo_key_remote_plan(),
{
    let mut out: Vec<Action> = Vec::new();
    out.push(
        Action::Run(
            run_chroot(
                &[
                    "bash",
                    "-c",
                    "curl -fsSL https://pkgs.nebulalinux.com/nebula-repo.gpg | pacman-key --add -",
                ],
            ),
        ),
    );
    proof {
        let want = repo_key_remote_plan();
        assert(out@[0]@->Run_0.args =~= want[0]->Run_0.args);
    }
    out
}

/// The commands that trust the key of the package repository and enter the
/// repository into the package manager's settings, unless it is there.
pub open spec fn repo_trust_plan() -> Seq<ActionView> {
    seq![
        ActionView::Run(
            in_chroot(
                seq!["pacman-key"@, "--lsign-key"@, "7CB33A71D4C4C529149862B799EC53F7C03BE297"@],
            ),
        ),
        ActionView::Run(
            in_chroot(
                seq![
                    "bash"@,
                    "-c"@,
                    "if ! grep -q '^\\[nebula\\]' /etc/pacman.conf; then sed -i '/^\\[core\\]/i [nebula]\\nSigLevel = Required DatabaseOptional\\nServer = https://pkgs.nebulalinux.com/stable/\\$arch\\n' /etc/pacman.conf; fi"@,
                ],
            ),
        ),
    ]
}

/// The commands that trust the key of the package repository and enter the
/// repository into the package manager's settings, unless it is there.
pub fn repo_trust_actions() -> (out: Vec<Action>)
    ensures
        action_views(out@) == repo_trust_plan(),
{
    let mut out: Vec<Action> = Vec::new();
    out.push(
        Action::Run(
            run_chroot(&["pacman-key", "--lsign-key", "7CB33A71D4C4C529149862B799EC53F7C03BE297"]),
        ),
    );
    out.push(
        Action::Run(
            run_chroot(
                &[
                    "bash",
                    "-c",
                    "if ! grep -q '^\\[nebula\\]' /etc/pacman.conf; then sed -i '/^\\[core\\]/i [nebula]\\nSigLevel = Required DatabaseOptional\\nServer = https://pkgs.nebulalinux.com/stable/\\$arch\\n' /etc/pacman.conf; fi",
                ],
            ),
        ),
    );
    proof {
        let want = repo_trust_plan();
        assert(out@[0]@->Run_0.args =~= want[0]->Run_0.args);
        assert(out@[1]@->Run_0.args =~= want[1]->Run_0.args);
    }
    out
}

/// What importing the repository key from the installer's own medium does.
pub open spec fn import_key_plan() -> Seq<ActionView> {
    seq![
        ActionView::MakeDir { path: "/mnt/usr/share/nebula"@, what: "create nebula key dir"@ },
        ActionView::Run(
            plain(
                "cp"@,
                seq![
                    "/usr/share/nebula/nebula-repo.gpg"@,
                    "/mnt/usr/share/nebula/nebula-repo.gpg"@,
                ],
            ),
        ),
        ActionView::Run(
            in_chroot(seq!["pacman-key"@, "--add"@, "/usr/share/nebula/nebula-repo.gpg"@]),
        ),
        ActionView::Run(
            in_chroot(
                seq!["pacman-key"@, "--lsign-key"@, "7CB33A71D4C4C529149862B799EC53F7C03BE297"@],
            ),
        ),
    ]
}

/// What importing the repository key from the installer's own medium does.
pub fn import_key_actions() -> (out: Vec<Action>)
    ensures
        action_views(out@) == import_key_plan(),
{
    let mut out: Vec<Action> = Vec::new();
    out.push(
        Action::MakeDir {
            path: "/mnt/usr/share/nebula".to_owned(),
            what: "create nebula key dir".to_owned(),
        },
    );
    out.push(
        Action::Run(
            run(
                "cp",
                &["/usr/share/nebula/nebula-repo.gpg", "/mnt/usr/share/nebula/nebula-repo.gpg"],
            ),
        ),
    );
    out.push(
        Action::Run(run_chroot(&["pacman-key", "--add", "/usr/share/nebula/nebula-repo.gpg"])),
    );
    out.push(
        Action::Run(
            run_chroot(&["pacman-key", "--lsign-key", "7CB33A71D4C4C529149862B799EC53F7C03BE297"]),
        ),
    );
    proof {
        let want = import_key_plan();
        assert(out@[1]@->Run_0.args =~= want[1]->Run_0.args);
        assert(out@[2]@->Run_0.args =~= want[2]->Run_0.args);
        assert(out@[3]@->Run_0.args =~= want[3]->Run_0.args);
    }
    out
}

/// What binding the package repository of the installer's medium into the
/// installed system does.
pub open spec fn bind_repo_plan() -> Seq<ActionView> {
    seq![
        ActionView::MakeDir { path: "/mnt/opt/nebula-repo"@, what: "create offline repo dir"@ },
        ActionView::Run(
            plain("mount"@, seq!["--bind"@, "/opt/nebula-repo"@, "/mnt/opt/nebula-repo"@]),
        ),
    ]
}

/// What binding the package repository of the installer's medium into the
/// installed system does.
pub fn bind_repo_actions() -> (out: Vec<Action>)
    ensures
        action_views(out@) == bind_repo_plan(),
{
    let mut out: Vec<Action> = Vec::new();
    out.push(
        Action::MakeDir {
            path: "/mnt/opt/nebula-repo".to_owned(),
            what: "create offline repo dir".to_owned(),
        },
    );
    out.push(Action::Run(run("mount", &["--bind", "/opt/nebula-repo", "/mnt/opt/nebula-repo"])));
    proof {
        let want = bind_repo_plan();
        assert(out@[1]@->Run_0.args =~= want[1]->Run_0.args);
    }
    out
}

/// The commands that start the package manager's key ring.
pub open spec fn keyring_plan() -> Seq<ActionView> {
    seq![
        ActionView::Log("Initializing pacman keyring..."@),
        ActionView::Run(plain("pacman-key"@, seq!["--init"@])),
        ActionView::Run(plain("pacman-key"@, seq!["--populate"@, "archlinux"@])),
    ]
}

/// The commands that start the package manager's key ring.
pub fn keyring_actions() -> (out: Vec<Action>)
    ensures
        action_views(out@) == keyring_plan(),
{
    let mut out: Vec<Action> = Vec::new();
    out.push(Action::Log("Initializing pacman keyring...".to_owned()));
    out.push(Action::Run(run("pacman-key", &["--init"])));
    out.push(Action::Run(run("pacman-key", &["--populate", "archlinux"])));
    proof {
        let want = keyring_plan();
        assert(out@[1]@->Run_0.args =~= want[1]->Run_0.args);
        assert(out@[2]@->Run_0.args =~= want[2]->Run_0.args);
    }
    out
}

/// The entry that starts the theme hook when the user first logs in.
pub const THEME_AUTOSTART: &'static str =
    "[Desktop Entry]\nType=Application\nName=Nebula Theme Setup\nComment=Apply GNOME dark theme on first login\nExec=/bin/bash -lc \"$HOME/.local/share/nebula/post-install/run-gnome-theme.sh\"\nTerminal=false\nOnlyShowIn=GNOME;\nX-GNOME-Autostart-enabled=true\n";

/// The script of the theme hook: it sets the dark theme once and then
/// takes itself out of the start-up entries.
pub const THEME_SCRIPT: &'static str =
    "#!/usr/bin/env bash\nset -euo pipefail\ntheme_marker=\"$HOME/.cache/nebula-theme-applied\"\nif [[ -f \"$theme_marker\" ]]; then\n  exit 0\nfi\nmkdir -p \"$HOME/.config/dconf\"\nif command -v gsettings >/dev/null 2>&1; then\n  gsettings set org.gnome.desktop.interface color-scheme 'prefer-dark' || true\n  gsettings set org.gnome.desktop.interface gtk-theme 'Adwaita-dark' || true\nfi\nmkdir -p \"$(dirname \"$theme_marker\")\"\ntouch \"$theme_marker\"\nautostart_file=\"$HOME/.config/autostart/nebula-theme.desktop\"\nif [[ -f \"$autostart_file\" ]]; then\n  rm -f \"$autostart_file\"\nfi\n";

/// The compositor's settings that run the theme hook.
pub const THEME_INCLUDE: &'static str =
    "# Nebula post-install hooks\nexec-once = /bin/bash -lc \"$HOME/.local/share/nebula/post-install/run-gnome-theme.sh\"\n";

/// The commands that switch on the network and, where `sddm` is true, the
/// login screen of the installed system.
pub open spec fn services_with_login_plan() -> Seq<ActionView> {
    seq![
        ActionView::Run(in_chroot(seq!["systemctl"@, "enable"@, "NetworkManager"@])),
        ActionView::Run(in_chroot(seq!["systemctl"@, "enable"@, "sddm"@])),
    ]
}

/// The commands that switch on the network and, where `sddm` is true, the
/// login screen of the installed system.
pub fn services_with_login_actions() -> (out: Vec<Action>)
    ensures
        action_views(out@) == services_with_login_plan(),
{
    let mut out: Vec<Action> = Vec::new();
    out.push(Action::Run(run_chroot(&["systemctl", "enable", "NetworkManager"])));
    out.push(Action::Run(run_chroot(&["systemctl", "enable", "sddm"])));
    proof {
        let want = services_with_login_plan();
        assert(out@[0]@->Run_0.args =~= want[0]->Run_0.args);
        assert(out@[1]@->Run_0.args =~= want[1]->Run_0.args);
    }
    out
}

/// The commands that switch on the network of an installed system without a login screen.
pub open spec fn services_without_login_plan() -> Seq<ActionView> {
    seq![
        ActionView::Run(in_chroot(seq!["systemctl"@, "enable"@, "NetworkManager"@])),
        ActionView::Log("SDDM not in base package list; skipping service enable."@),
    ]
}

/// The commands that switch on the network of an installed system without a login screen.
pub fn services_without_login_actions() -> (out: Vec<Action>)
    ensures
        action_views(out@) == services_without_login_plan(),
{
    let mut out: Vec<Action> = Vec::new();
    out.push(Action::Run(run_chroot(&["systemctl", "enable", "NetworkManager"])));
    out.push(Action::Log("SDDM not in base package list; skipping service enable.".to_owned()));
    proof {
        let want = services_without_login_plan();
        assert(out@[0]@->Run_0.args =~= want[0]->Run_0.args);
    }
    out
}

/// The commands that copy the boot menu's theme and its variant into the
/// installed system.
pub open spec fn grub_theme_copy_plan(
    theme_src: Seq<char>,
    variant_src: Seq<char>,
) -> Seq<ActionView> {
    seq![
        ActionView::Run(plain("mkdir"@, seq!["-p"@, "/mnt/boot/grub/themes"@])),
        ActionView::Run(plain("mkdir"@, seq!["-p"@, "/mnt/boot/grub/themes/nebula-vimix-grub"@])),
        ActionView::Run(
            plain(
                "cp"@,
                seq!["-a"@, theme_src + "/."@, "/mnt/boot/grub/themes/nebula-vimix-grub"@],
            ),
        ),
        ActionView::Run(
            plain(
                "cp"@,
                seq!["-a"@, variant_src + "/."@, "/mnt/boot/grub/themes/nebula-vimix-grub"@],
            ),
        ),
    ]
}

/// The commands that copy the boot menu's theme and its variant into the
/// installed system.
pub fn grub_theme_copy_actions(theme_src: &str, variant_src: &str) -> (out: Vec<Action>)
    ensures
        action_views(out@) == grub_theme_copy_plan(theme_src@, variant_src@),
{
    let mut out: Vec<Action> = Vec::new();
    out.push(Action::Run(run("mkdir", &["-p", "/mnt/boot/grub/themes"])));
    out.push(Action::Run(run("mkdir", &["-p", "/mnt/boot/grub/themes/nebula-vimix-grub"])));
    out.push(
        Action::Run(
            run(
                "cp",
                &["-a", glue(theme_src, "/.").as_str(), "/mnt/boot/grub/themes/nebula-vimix-grub"],
            ),
        ),
    );
    out.push(
        Action::Run(
            run(
                "cp",
                &[
                    "-a",
                    glue(variant_src, "/.").as_str(),
                    "/mnt/boot/grub/themes/nebula-vimix-grub",
                ],
            ),
        ),
    );
    proof {
        let want = grub_theme_copy_plan(theme_src@, variant_src@);
        assert(out@[0]@->Run_0.args =~= want[0]->Run_0.args);
        assert(out@[1]@->Run_0.args =~= want[1]->Run_0.args);
        assert(out@[2]@->Run_0.args =~= want[2]->Run_0.args);
        assert(out@[3]@->Run_0.args =~= want[3]->Run_0.args);
    }
    out
}

/// What installing the login screen's theme from `theme_src` does, up to the
/// settings of its scaling.
pub open spec fn sddm_theme_plan(theme_src: Seq<char>) -> Seq<ActionView> {
    seq![
        ActionView::Run(plain("mkdir"@, seq!["-p"@, "/mnt/usr/share/sddm/themes"@])),
        ActionView::Run(
            plain("cp"@, seq!["-a"@, theme_src, "/mnt/usr/share/sddm/themes/nebula-sddm"@]),
        ),
        ActionView::WriteFile {
            path: "/mnt/etc/sddm.conf"@,
            contents: "[Theme]\nCurrent=nebula-sddm\n"@,
        },
        ActionView::MakeDir { path: "/mnt/etc/sddm.conf.d"@, what: "create sddm.conf.d"@ },
        ActionView::WriteFile {
            path: "/mnt/etc/sddm.conf.d/virtualkbd.conf"@,
            contents: "[General]\nInputMethod=qtvirtualkeyboard\n"@,
        },
    ]
}

/// What installing the login screen's theme from `theme_src` does, up to the
/// settings of its scaling.
pub fn sddm_theme_actions(theme_src: &str) -> (out: Vec<Action>)
    ensures
        action_views(out@) == sddm_theme_plan(theme_src@),
{
    let mut out: Vec<Action> = Vec::new();
    out.push(Action::Run(run("mkdir", &["-p", "/mnt/usr/share/sddm/themes"])));
    out.push(Action::Run(run("cp", &["-a", theme_src, "/mnt/usr/share/sddm/themes/nebula-sddm"])));
    out.push(
        Action::WriteFile {
            path: "/mnt/etc/sddm.conf".to_owned(),
            contents: "[Theme]\nCurrent=nebula-sddm\n".to_owned(),
        },
    );
    out.push(
        Action::MakeDir {
            path: "/mnt/etc/sddm.conf.d".to_owned(),
            what: "create sddm.conf.d".to_owned(),
        },
    );
    out.push(
        Action::WriteFile {
            path: "/mnt/etc/sddm.conf.d/virtualkbd.conf".to_owned(),
            contents: "[General]\nInputMethod=qtvirtualkeyboard\n".to_owned(),
        },
    );
    proof {
        let want = sddm_theme_plan(theme_src@);
        assert(out@[0]@->Run_0.args =~= want[0]->Run_0.args);
        assert(out@[1]@->Run_0.args =~= want[1]->Run_0.args);
    }
    out
}

/// What installing the compositor's default settings with the script at `script` does.
pub open spec fn hypr_defaults_plan(script: Seq<char>, username: Seq<char>) -> Seq<ActionView> {
    seq![
        ActionView::Log("Installing Nebula Hyprland defaults from "@ + script + "..."@),
        ActionView::Run(plain("bash"@, seq![script, "/mnt"@, username])),
    ]
}

/// What installing the compositor's default settings with the script at `script` does.
pub fn hypr_defaults_actions(script: &str, username: &str) -> (out: Vec<Action>)
    ensures
        action_views(out@) == hypr_defaults_plan(script@, username@),
{
    let mut out: Vec<Action> = Vec::new();
    out.push(Action::Log(glue3("Installing Nebula Hyprland defaults from ", script, "...")));
    out.push(Action::Run(run("bash", &[script, "/mnt", username])));
    proof {
        let want = hypr_defaults_plan(script@, username@);
        assert(out@[1]@->Run_0.args =~= want[1]->Run_0.args);
    }
    out
}

/// The files of the hook that sets the desktop's theme when the user first
/// logs in, and the command that makes its script executable.
pub open spec fn theme_hook_plan(username: Seq<char>) -> Seq<ActionView> {
    seq![
        ActionView::MakeDir {
            path: "/mnt/home/"@ + username + "/.config/autostart"@,
            what: "create autostart dir"@,
        },
        ActionView::MakeDir {
            path: "/mnt/home/"@ + username + "/.local/share/nebula/post-install"@,
            what: "create theme script dir"@,
        },
        ActionView::MakeDir {
            path: "/mnt/home/"@ + username + "/.local/share/nebula/hypr"@,
            what: "create hypr config dir"@,
        },
        ActionView::Write {
            path: "/mnt/home/"@ + username + "/.config/autostart/nebula-theme.desktop"@,
            contents: THEME_AUTOSTART@,
            what: "write theme autostart"@,
        },
        ActionView::Write {
            path: "/mnt/home/"@ + username + "/.local/share/nebula/post-install/run-gnome-theme.sh"@,
            contents: THEME_SCRIPT@,
            what: "write theme script"@,
        },
        ActionView::Run(
            plain(
                "chmod"@,
                seq![
                    "+x"@,
                    "/mnt/home/"@ + username + "/.local/share/nebula/post-install/run-gnome-theme.sh"@,
                ],
            ),
        ),
        ActionView::Write {
            path: "/mnt/home/"@ + username + "/.local/share/nebula/hypr/nebula-theme.conf"@,
            contents: THEME_INCLUDE@,
            what: "write hypr theme include"@,
        },
    ]
}

/// The files of the hook that sets the desktop's theme when the user first
/// logs in, and the command that makes its script executable.
pub fn theme_hook_actions(username: &str) -> (out: Vec<Action>)
    ensures
        action_views(out@) == theme_hook_plan(username@),
{
    let mut out: Vec<Action> = Vec::new();
    out.push(
        Action::MakeDir {
            path: glue3("/mnt/home/", username, "/.config/autostart"),
            what: "create autostart dir".to_owned(),
        },
    );
    out.push(
        Action::MakeDir {
            path: glue3("/mnt/home/", username, "/.local/share/nebula/post-install"),
            what: "create theme script dir".to_owned(),
        },
    );
    out.push(
        Action::MakeDir {
            path: glue3("/mnt/home/", username, "/.local/share/nebula/hypr"),
            what: "create hypr config dir".to_owned(),
        },
    );
    out.push(
        Action::Write {
            path: glue3("/mnt/home/", username, "/.config/autostart/nebula-theme.desktop"),
            contents: THEME_AUTOSTART.to_owned(),
            what: "write theme autostart".to_owned(),
        },
    );
    out.push(
        Action::Write {
            path: glue3(
                "/mnt/home/",
                username,
                "/.local/share/nebula/post-install/run-gnome-theme.sh",
            ),
            contents: THEME_SCRIPT.to_owned(),
            what: "write theme script".to_owned(),
        },
    );
    out.push(
        Action::Run(
            run(
                "chmod",
                &[
                    "+x",
                    glue3("/mnt/home/", username, "/.local/share/nebula/post-install/run-gnome-theme.sh").as_str(),
                ],
            ),
        ),
    );
    out.push(
        Action::Write {
            path: glue3("/mnt/home/", username, "/.local/share/nebula/hypr/nebula-theme.conf"),
            contents: THEME_INCLUDE.to_owned(),
            what: "write hypr theme include".to_owned(),
        },
    );
    proof {
        let want = theme_hook_plan(username@);
        assert(out@[5]@->Run_0.args =~= want[5]->Run_0.args);
    }
    out
}

/// The command that gives the files of the theme hook to the user.
pub open spec fn theme_hook_owner_plan(username: Seq<char>) -> Seq<ActionView> {
    seq![
        ActionView::Run(
            in_chroot(
                seq![
                    "chown"@,
                    "-R"@,
                    username + ":"@ + username,
                    "/home/"@ + username + "/.config/autostart"@,
                    "/home/"@ + username + "/.local/share/nebula/post-install"@,
                    "/home/"@ + username + "/.local/share/nebula/hypr/nebula-theme.conf"@,
                ],
            ),
        ),
    ]
}

/// The command that gives the files of the theme hook to the user.
pub fn theme_hook_owner_actions(username: &str) -> (out: Vec<Action>)
    ensures
        action_views(out@) == theme_hook_owner_plan(username@),
{
    let mut out: Vec<Action> = Vec::new();
    out.push(
        Action::Run(
            run_chroot(
                &[
                    "chown",
                    "-R",
                    glue3(username, ":", username).as_str(),
                    glue3("/home/", username, "/.config/autostart").as_str(),
                    glue3("/home/", username, "/.local/share/nebula/post-install").as_str(),
                    glue3("/home/", username, "/.local/share/nebula/hypr/nebula-theme.conf").as_str(),
                ],
            ),
        ),
    );
    proof {
        let want = theme_hook_owner_plan(username@);
        assert(out@[0]@->Run_0.args =~= want[0]->Run_0.args);
    }
    out
}

/// The command that runs the shell command `command` inside the installed system.
pub open spec fn shell_plan(command: Seq<char>) -> Seq<ActionView> {
    seq![
        ActionView::Run(in_chroot(seq!["bash"@, "-c"@, command])),
    ]
}

/// The command that runs the shell command `command` inside the installed system.
pub fn shell_actions(command: &str) -> (out: Vec<Action>)
    ensures
        action_views(out@) == shell_plan(command@),
{
    let mut out: Vec<Action> = Vec::new();
    out.push(Action::Run(run_chroot(&["bash", "-c", command])));
    proof {
        let want = shell_plan(command@);
        assert(out@[0]@->Run_0.args =~= want[0]->Run_0.args);
    }
    out
}

} // verus!
