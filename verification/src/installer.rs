//! The installation itself: what the user chose, the names of its steps,
//! and the commands that each step runs.

use crate::command::{plain, run, strings, CommandSpec, CommandView};
use crate::command::{ErrorView, InstallError};
use crate::disks::{DiskInfo, DiskView};
use crate::grub::{Rule, RuleView};
use crate::pacman::Conf;
use crate::text::{str_texts, texts};
use vstd::prelude::*;

verus! {

/// What the user chose for the installation.
#[derive(Debug, Clone)]
pub struct InstallConfig {
    pub disk: DiskInfo,
    pub keymap: String,
    pub timezone: String,
    pub hostname: String,
    pub username: String,
    pub user_password: String,
    pub luks_password: String,
    pub encrypt_disk: bool,
    pub swap_enabled: bool,
    pub driver_packages: Vec<String>,
    pub kernel_package: String,
    pub kernel_headers: String,
    pub base_packages: Vec<String>,
    pub extra_pacman_packages: Vec<String>,
    pub extra_aur_packages: Vec<String>,
    pub offline_only: bool,
    pub hyprland_selected: bool,
}

/// How many steps the installation has.
pub const STEP_COUNT: usize = 11;

/// The names of the steps, in the order in which they run.
pub open spec fn step_name_list() -> Seq<Seq<char>> {
    seq![
        "Partitioning Disk"@,
        "Encrypting Disk"@,
        "Creating File System"@,
        "Mounting File System"@,
        "Configuring Zram Swap"@,
        "Installing Base System"@,
        "Generating Fstab"@,
        "Configuring Base System"@,
        "Installing Packages"@,
        "Installing Bootloader"@,
        "Finalizing"@,
    ]
}

/// The names of the steps, in the order in which they run.
pub fn step_names() -> (out: Vec<String>)
    ensures
        texts(out@) == step_name_list(),
        out.len() == STEP_COUNT,
{
    let names = [
        "Partitioning Disk",
        "Encrypting Disk",
        "Creating File System",
        "Mounting File System",
        "Configuring Zram Swap",
        "Installing Base System",
        "Generating Fstab",
        "Configuring Base System",
        "Installing Packages",
        "Installing Bootloader",
        "Finalizing",
    ];
    let out = strings(&names);
    out
}

/// The devices that the installation works on.
#[derive(Debug, Clone, PartialEq, Eq)]
pub struct Layout {
    /// The disk.
    pub disk_path: String,
    /// The partition that the machine boots from.
    pub efi_part: String,
    /// The partition that holds the system.
    pub root_part: String,
    /// The name of that partition in the partition table.
    pub root_label: String,
    /// The device that holds the file system: the partition, or the opened
    /// encrypted volume.
    pub root_device: String,
}

/// What a `Layout` holds, as plain text.
pub struct LayoutView {
    pub disk_path: Seq<char>,
    pub efi_part: Seq<char>,
    pub root_part: Seq<char>,
    pub root_label: Seq<char>,
    pub root_device: Seq<char>,
}

impl View for Layout {
    type V = LayoutView;

    open spec fn view(&self) -> LayoutView {
        LayoutView {
            disk_path: self.disk_path@,
            efi_part: self.efi_part@,
            root_part: self.root_part@,
            root_label: self.root_label@,
            root_device: self.root_device@,
        }
    }
}

/// The devices for an installation on `disk`, encrypted or not.
pub open spec fn layout_of(disk: DiskView, encrypt: bool) -> LayoutView {
    LayoutView {
        disk_path: disk.device_path(),
        efi_part: disk.partition_path(1),
        root_part: disk.partition_path(2),
        root_label: if encrypt {
            "cryptroot"@
        } else {
            "root"@
        },
        root_device: if encrypt {
            "/dev/mapper/cryptroot"@
        } else {
            disk.partition_path(2)
        },
    }
}

/// The devices that the installation works on.
pub fn layout(config: &InstallConfig) -> (l: Layout)
    ensures
        l@ == layout_of(config.disk@, config.encrypt_disk),
{
    let root_part = config.disk.partition_path(2);
    Layout {
        disk_path: config.disk.device_path(),
        efi_part: config.disk.partition_path(1),
        root_label: if config.encrypt_disk {
            "cryptroot".to_owned()
        } else {
            "root".to_owned()
        },
        root_device: if config.encrypt_disk {
            "/dev/mapper/cryptroot".to_owned()
        } else {
            root_part.clone()
        },
        root_part,
    }
}

/// One thing that a step does.
#[derive(Debug, Clone, PartialEq, Eq)]
pub enum Action {
    /// Logs a line.
    Log(String),
    /// Runs a command, its output taken into the log line by line; a
    /// failure ends the step.
    Run(CommandSpec),
    /// Runs a command, its output taken into the log as it comes,
    /// sanitized; a failure ends the step.
    Stream(CommandSpec),
    /// Creates a directory and those above it; a failure ends the step
    /// with the message `what`.
    MakeDir { path: String, what: String },
    /// Writes a file; a failure ends the step with the message `what`.
    Write { path: String, contents: String, what: String },
    /// Writes a file after creating the directory it lies in.
    WriteFile { path: String, contents: String },
    /// Ends the step with this error.
    Fail(InstallError),
    /// Runs a command for what it writes and adds that to the end of a
    /// file; a failure to open or to write the file ends the step with the
    /// message `open_what` or `write_what`.
    AppendOutput { command: CommandSpec, path: String, open_what: String, write_what: String },
    /// Changes the boot loader's settings file by a rule.
    EditGrub(Rule),
    /// Runs a command whose failure does not end the step: it is logged,
    /// after `prefix`. `streamed` says how the output is taken.
    Tolerated { command: CommandSpec, streamed: bool, prefix: String },
    /// Asks the package manager whether the medium's repository holds the
    /// base package, and ends the step if it does not.
    CheckOfflineBase,
    /// Installs optional packages as far as they can be installed, with
    /// the given settings, and writes down those that could not.
    BestEffort { packages: Vec<String>, conf: Conf },
    /// Enters the hook into the compositor's settings at `path`: what is
    /// done follows from what the file holds when its turn comes.
    EditHook { path: String, target_include: String, home_include: String },
    /// Writes a file that is kept for later diagnosis, after creating the
    /// directory it lies in. That it cannot be written does not end the
    /// step: `complaint` is logged.
    Record { path: String, contents: String, complaint: String },
    /// Adds a line to the installer's own log file; a failure is passed
    /// over.
    Note(String),
    /// Copies the installer's log into the installed system; a failure is
    /// logged.
    CopyLog,
    /// Closes the encrypted volume, with a bounded number of tries; that it
    /// stays open does not end the step.
    CloseVolume,
}

/// What an `Action` holds, as plain text.
pub enum ActionView {
    Log(Seq<char>),
    Run(CommandView),
    Stream(CommandView),
    MakeDir { path: Seq<char>, what: Seq<char> },
    Write { path: Seq<char>, contents: Seq<char>, what: Seq<char> },
    WriteFile { path: Seq<char>, contents: Seq<char> },
    Fail(ErrorView),
    AppendOutput {
        command: CommandView,
        path: Seq<char>,
        open_what: Seq<char>,
        write_what: Seq<char>,
    },
    EditGrub(RuleView),
    Tolerated { command: CommandView, streamed: bool, prefix: Seq<char> },
    CheckOfflineBase,
    BestEffort { packages: Seq<Seq<char>>, conf: Conf },
    EditHook { path: Seq<char>, target_include: Seq<char>, home_include: Seq<char> },
    Record { path: Seq<char>, contents: Seq<char>, complaint: Seq<char> },
    Note(Seq<char>),
    CopyLog,
    CloseVolume,
}

impl View for Action {
    type V = ActionView;

    open spec fn view(&self) -> ActionView {
        match self {
            Action::Log(line) => ActionView::Log(line@),
            Action::Run(c) => ActionView::Run(c@),
            Action::Stream(c) => ActionView::Stream(c@),
            Action::MakeDir { path, what } => ActionView::MakeDir { path: path@, what: what@ },
            Action::Write { path, contents, what } => ActionView::Write {
                path: path@,
                contents: contents@,
                what: what@,
            },
            Action::WriteFile { path, contents } => ActionView::WriteFile {
                path: path@,
                contents: contents@,
            },
            Action::Fail(e) => ActionView::Fail(e@),
            Action::AppendOutput { command, path, open_what, write_what } => {
                ActionView::AppendOutput {
                    command: command@,
                    path: path@,
                    open_what: open_what@,
                    write_what: write_what@,
                }
            },
            Action::EditGrub(rule) => ActionView::EditGrub(rule@),
            Action::Tolerated { command, streamed, prefix } => ActionView::Tolerated {
                command: command@,
                streamed: *streamed,
                prefix: prefix@,
            },
            Action::CheckOfflineBase => ActionView::CheckOfflineBase,
            Action::BestEffort { packages, conf } => ActionView::BestEffort {
                packages: texts(packages@),
                conf: *conf,
            },
            Action::EditHook { path, target_include, home_include } => ActionView::EditHook {
                path: path@,
                target_include: target_include@,
                home_include: home_include@,
            },
            Action::Record { path, contents, complaint } => ActionView::Record {
                path: path@,
                contents: contents@,
                complaint: complaint@,
            },
            Action::Note(line) => ActionView::Note(line@),
            Action::CopyLog => ActionView::CopyLog,
            Action::CloseVolume => ActionView::CloseVolume,
        }
    }
}

/// The views of a list of actions.
pub open spec fn action_views(v: Seq<Action>) -> Seq<ActionView> {
    Seq::new(v.len(), |i: int| v[i]@)
}

/// Adds the actions `more` to `out`.
pub fn extend_actions(out: &mut Vec<Action>, more: Vec<Action>)
    ensures
        action_views(final(out)@) == action_views(old(out)@) + action_views(more@),
{
    let mut more = more;
    out.append(&mut more);
}

/// Whether a step is left out: the encryption, where the disk is not to
/// be encrypted.
pub fn should_skip(index: usize, config: &InstallConfig) -> (r: bool)
    ensures
        r == (index == 1 && !config.encrypt_disk),
{
    index == 1 && !config.encrypt_disk
}

/// For each step, whether it is left out.
pub fn skip_flags(config: &InstallConfig) -> (out: Vec<bool>)
    ensures
        out.len() == STEP_COUNT,
        forall|i: int| 0 <= i < STEP_COUNT ==> #[trigger] out[i] == (i == 1 && !config.encrypt_disk),
{
    let mut out: Vec<bool> = Vec::new();
    let mut index: usize = 0;
    while index < STEP_COUNT
        invariant
            index <= STEP_COUNT,
            out.len() == index,
            forall|i: int| 0 <= i < index ==> #[trigger] out[i] == (i == 1 && !config.encrypt_disk),
        decreases STEP_COUNT - index,
    {
        out.push(should_skip(index, config));
        index += 1;
    }
    out
}

/// Where the boot splash themes lie on the installer's medium.
pub const SPLASH_THEME_SOURCE: &'static str = "/usr/share/plymouth/themes/nebula-splash";

/// Where the boot splash theme that asks for the passphrase lies on the
/// installer's medium.
pub const LUKS_THEME_SOURCE: &'static str = "/usr/share/plymouth/themes/nebula-luks";

/// What is done about the boot splash: the plain theme is copied if it is
/// there; for an encrypted disk the theme that asks for the passphrase is
/// copied and chosen if it is there; for a plain disk the plain theme is
/// chosen if it was copied. A theme that is not there is logged.
pub open spec fn plymouth_plan(encrypt: bool, splash_exists: bool, luks_exists: bool) -> Seq<
    ActionView,
> {
    (if splash_exists {
        crate::steps::copy_theme_plan(SPLASH_THEME_SOURCE@)
    } else {
        seq![
            ActionView::Log(
                "Plymouth splash theme not found at "@ + SPLASH_THEME_SOURCE@
                    + "; skipping splash theme install."@,
            ),
        ]
    }) + (if encrypt {
        if luks_exists {
            crate::steps::copy_theme_plan(LUKS_THEME_SOURCE@) + crate::steps::set_theme_plan(
                "nebula-luks"@,
            )
        } else {
            seq![
                ActionView::Log(
                    "Plymouth LUKS theme not found at "@ + LUKS_THEME_SOURCE@
                        + "; skipping LUKS theme install."@,
                ),
            ]
        }
    } else if splash_exists {
        crate::steps::set_theme_plan("nebula-splash"@)
    } else {
        Seq::empty()
    })
}

/// What is done about the boot splash.
pub fn plymouth_actions(encrypt: bool, splash_exists: bool, luks_exists: bool) -> (out: Vec<Action>)
    ensures
        action_views(out@) == plymouth_plan(encrypt, splash_exists, luks_exists),
{
    let mut out: Vec<Action> = Vec::new();
    if splash_exists {
        extend_actions(&mut out, crate::steps::copy_theme_actions(SPLASH_THEME_SOURCE));
    } else {
        out.push(
            Action::Log(
                crate::text::glue3(
                    "Plymouth splash theme not found at ",
                    SPLASH_THEME_SOURCE,
                    "; skipping splash theme install.",
                ),
            ),
        );
    }
    if encrypt {
        if luks_exists {
            extend_actions(&mut out, crate::steps::copy_theme_actions(LUKS_THEME_SOURCE));
            extend_actions(&mut out, crate::steps::set_theme_actions("nebula-luks"));
        } else {
            out.push(
                Action::Log(
                    crate::text::glue3(
                        "Plymouth LUKS theme not found at ",
                        LUKS_THEME_SOURCE,
                        "; skipping LUKS theme install.",
                    ),
                ),
            );
        }
    } else if splash_exists {
        extend_actions(&mut out, crate::steps::set_theme_actions("nebula-splash"));
    }
    out
}

/// The line that sets the hooks of the initial ram disk: with the hook
/// that opens the encrypted volume, or without it.
pub fn hooks_line(encrypt: bool) -> (r: &'static str)
    ensures
        r@ == (if encrypt {
            "s/^HOOKS=.*/HOOKS=(base udev autodetect modconf block keyboard keymap plymouth encrypt filesystems)/"@
        } else {
            "s/^HOOKS=.*/HOOKS=(base udev autodetect modconf block keyboard keymap plymouth filesystems)/"@
        }),
{
    if encrypt {
        "s/^HOOKS=.*/HOOKS=(base udev autodetect modconf block keyboard keymap plymouth encrypt filesystems)/"
    } else {
        "s/^HOOKS=.*/HOOKS=(base udev autodetect modconf block keyboard keymap plymouth filesystems)/"
    }
}

/// The boot splash theme that is chosen again once the initial ram disk
/// is rebuilt, if any.
pub open spec fn final_theme(encrypt: bool, splash_installed: bool, luks_installed: bool) -> Option<
    Seq<char>,
> {
    if encrypt {
        if luks_installed {
            Some("nebula-luks"@)
        } else {
            None
        }
    } else if splash_installed {
        Some("nebula-splash"@)
    } else {
        None
    }
}

/// The commands that rebuild the initial ram disk and choose the boot
/// splash theme again.
pub fn initramfs_step(encrypt: bool, splash_installed: bool, luks_installed: bool) -> (out: Vec<
    Action,
>)
    ensures
        action_views(out@) == crate::steps::initramfs_plan(hooks_line_text(encrypt)) + (
        match final_theme(encrypt, splash_installed, luks_installed) {
            Some(theme) => crate::steps::set_theme_plan(theme),
            None => Seq::empty(),
        }),
{
    let mut out = crate::steps::initramfs_actions(hooks_line(encrypt));
    if encrypt {
        if luks_installed {
            extend_actions(&mut out, crate::steps::set_theme_actions("nebula-luks"));
        }
    } else if splash_installed {
        extend_actions(&mut out, crate::steps::set_theme_actions("nebula-splash"));
    }
    out
}

/// The line that sets the hooks of the initial ram disk.
pub open spec fn hooks_line_text(encrypt: bool) -> Seq<char> {
    if encrypt {
        "s/^HOOKS=.*/HOOKS=(base udev autodetect modconf block keyboard keymap plymouth encrypt filesystems)/"@
    } else {
        "s/^HOOKS=.*/HOOKS=(base udev autodetect modconf block keyboard keymap plymouth filesystems)/"@
    }
}

/// What the step that sets up swap does.
pub fn swap_actions(enabled: bool) -> (out: Vec<Action>)
    ensures
        action_views(out@) == (if enabled {
            crate::steps::swap_on_plan()
        } else {
            crate::steps::swap_off_plan()
        }),
{
    if enabled {
        crate::steps::swap_on_actions()
    } else {
        crate::steps::swap_off_actions()
    }
}

/// The commands that switch on the services of the installed system: the
/// network, and the login screen where its package is among `base_packages`.
pub fn services_actions(base_packages: &[String]) -> (out: Vec<Action>)
    ensures
        action_views(out@) == (if texts(base_packages@).contains("sddm"@) {
            crate::steps::services_with_login_plan()
        } else {
            crate::steps::services_without_login_plan()
        }),
{
    if crate::lists::holds(base_packages, "sddm") {
        crate::steps::services_with_login_actions()
    } else {
        crate::steps::services_without_login_actions()
    }
}

/// The commands that end the installation: buffers are written out and
/// the installed system is unmounted, the package repository that was bound
/// into it first.
pub fn unmount_actions(repo_mounted: bool) -> (out: Vec<Action>)
    ensures
        action_views(out@) == (if repo_mounted {
            crate::steps::unmount_with_repo_plan()
        } else {
            crate::steps::unmount_plan()
        }),
{
    if repo_mounted {
        crate::steps::unmount_with_repo_actions()
    } else {
        crate::steps::unmount_actions()
    }
}

/// The commands that make the installer's package repository known in
/// the installed system: its key is taken from the installed system where
/// `key_in_target` says it is there, and else from the network.
pub fn repo_setup_actions(key_in_target: bool) -> (out: Vec<Action>)
    ensures
        action_views(out@) == (if key_in_target {
            crate::steps::repo_key_local_plan()
        } else {
            crate::steps::repo_key_remote_plan()
        }) + crate::steps::repo_trust_plan(),
{
    let mut out = if key_in_target {
        crate::steps::repo_key_local_actions()
    } else {
        crate::steps::repo_key_remote_actions()
    };
    extend_actions(&mut out, crate::steps::repo_trust_actions());
    out
}

/// What is done about the kernel's command line at the end of the
/// configuration: for an encrypted disk without the theme that asks for the
/// passphrase the quiet boot is taken out, so that the prompt is seen, and
/// that is logged; else the quiet boot is made sure of.
pub fn cmdline_rule(encrypt: bool, luks_installed: bool) -> (r: (Option<String>, crate::grub::Rule))
    ensures
        encrypt && !luks_installed ==> opt_text_of(r.0) == Some(
            "Plymouth LUKS theme missing! Disabling quiet splash to ensure crypt prompt is visible."@,
        ) && r.1@ == (crate::grub::RuleView::Remove { params: seq!["quiet"@, "splash"@] }),
        !(encrypt && !luks_installed) ==> r.0 is None && r.1@ == (crate::grub::RuleView::Ensure {
            params: seq!["quiet"@, "splash"@],
        }),
{
    let params = ["quiet", "splash"];
    assert(str_texts(params@) =~= seq!["quiet"@, "splash"@]);
    if encrypt && !luks_installed {
        (
            Some(
                "Plymouth LUKS theme missing! Disabling quiet splash to ensure crypt prompt is visible.".to_owned(),
            ),
            crate::grub::remove_grub_cmdline_params(&params),
        )
    } else {
        (None, crate::grub::ensure_grub_cmdline_params(&params))
    }
}

/// The text of an optional string.
pub open spec fn opt_text_of(s: Option<String>) -> Option<Seq<char>> {
    crate::model::opt_text(s)
}

/// The index of the first of the paths that exists, where `exists` says
/// of each path in order whether it does.
pub open spec fn first_true(exists: Seq<bool>) -> Option<int>
    decreases exists.len(),
{
    if exists.len() == 0 {
        None
    } else if exists[0] {
        Some(0)
    } else {
        match first_true(exists.skip(1)) {
            Some(i) => Some(i + 1),
            None => None,
        }
    }
}

/// The index of the first of the paths that exists.
pub fn first_existing(exists: &[bool]) -> (r: Option<usize>)
    ensures
        match r {
            Some(i) => first_true(exists@) == Some(i as int) && i < exists@.len(),
            None => first_true(exists@) is None,
        },
{
    let mut k: usize = exists.len();
    let mut found: Option<usize> = None;
    while k > 0
        invariant
            k <= exists.len(),
            match found {
                Some(i) => k <= i < exists.len() && first_true(exists@.skip(k as int)) == Some(
                    i - k,
                ),
                None => first_true(exists@.skip(k as int)) is None,
            },
        decreases k,
    {
        proof {
            let rest = exists@.skip(k - 1);
            assert(rest.skip(1) =~= exists@.skip(k as int));
        }
        k -= 1;
        if exists[k] {
            found = Some(k);
        }
    }
    assert(exists@.skip(0) =~= exists@);
    found
}

/// Where the variant of the boot menu's theme is taken from: its own
/// directory if that exists, and else the directory of the default variant.
pub fn variant_source(theme_src: &str, folder: &str, exists: bool) -> (out: String)
    ensures
        out@ == theme_src@ + "/"@ + (if exists {
            folder@
        } else {
            "1080p"@
        }),
{
    if exists {
        crate::text::glue3(theme_src, "/", folder)
    } else {
        crate::text::glue3(theme_src, "/", "1080p")
    }
}

} // verus!
