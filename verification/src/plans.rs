//! What the larger steps of the installation do, from what the user chose
//! and what was found on the machine before the step began.

use crate::command::{
    capture_result, clone_strings, command_line, plain, strings, CapturedView, CommandView,
    ErrorView, InstallError,
};
use crate::installer::{action_views, extend_actions, Action, ActionView};
use crate::lists::dedup;
use crate::model::opt_text;
use crate::pacman::{
    base_package_list, base_packages, mirrorlist_contents, mirrorlist_text, missing_patterns,
    pacstrap_args, pacstrap_args_list, pacstrap_line, pacstrap_view, run_pacstrap,
    validate_offline_packages, Conf, OFFLINE_CONF, OFFLINE_PACMAN_CONF_PATH,
};
use crate::steps::{keyring_actions, keyring_plan};
use crate::system::{detect_microcode_package, microcode};
use crate::text::{glue, glue4, join, lines, texts};
use vstd::prelude::*;

verus! {

/// What is found out before the base system is installed.
#[derive(Debug, Clone, PartialEq, Eq)]
pub struct BaseFacts {
    /// Whether the installer's medium holds a package repository.
    pub repo_available: bool,
    /// The listing of the processor, if it could be read.
    pub cpuinfo: Option<String>,
    /// The list of mirrors that the environment gives, if any.
    pub mirrorlist: Option<String>,
    /// The mirror that the environment gives, if any.
    pub mirror: Option<String>,
    /// Whether the program `script` can be run.
    pub script_available: bool,
    /// The names of the files of the medium's repository.
    pub repo_files: Vec<String>,
}

/// What `BaseFacts` holds, as plain values.
pub struct BaseFactsView {
    pub repo_available: bool,
    pub cpuinfo: Option<Seq<char>>,
    pub mirrorlist: Option<Seq<char>>,
    pub mirror: Option<Seq<char>>,
    pub script_available: bool,
    pub repo_files: Seq<Seq<char>>,
}

impl View for BaseFacts {
    type V = BaseFactsView;

    open spec fn view(&self) -> BaseFactsView {
        BaseFactsView {
            repo_available: self.repo_available,
            cpuinfo: opt_text(self.cpuinfo),
            mirrorlist: opt_text(self.mirrorlist),
            mirror: opt_text(self.mirror),
            script_available: self.script_available,
            repo_files: texts(self.repo_files@),
        }
    }
}

/// The action that writes the list of mirrors to `path`.
pub open spec fn mirrorlist_plan(path: Seq<char>, f: BaseFactsView) -> Seq<ActionView> {
    seq![
        ActionView::Write {
            path,
            contents: mirrorlist_text(f.mirrorlist, f.mirror),
            what: "write mirrorlist"@,
        },
    ]
}

fn opt_str(s: &Option<String>) -> (r: Option<&str>)
    ensures
        (match r {
            Some(t) => Some(t@),
            None => None,
        }) == opt_text(*s),
{
    match s {
        Some(t) => Some(t.as_str()),
        None => None,
    }
}

fn mirrorlist_actions(path: &str, facts: &BaseFacts) -> (out: Vec<Action>)
    ensures
        action_views(out@) == mirrorlist_plan(path@, facts@),
{
    let mut out: Vec<Action> = Vec::new();
    out.push(
        Action::Write {
            path: path.to_owned(),
            contents: mirrorlist_contents(opt_str(&facts.mirrorlist), opt_str(&facts.mirror)),
            what: "write mirrorlist".to_owned(),
        },
    );
    out
}

/// How the installation of the base system begins: the key ring is
/// started, and where the base system comes from the network the list of
/// mirrors is written.
pub open spec fn base_opening_plan(offline: bool, f: BaseFactsView) -> Seq<ActionView> {
    keyring_plan() + (if offline {
        seq![ActionView::Log("Offline repo detected; using it for base system install."@)]
    } else {
        seq![ActionView::Log("Setting pacman mirror to geo.mirror.pkgbuild.com..."@)]
            + mirrorlist_plan("/etc/pacman.d/mirrorlist"@, f)
    })
}

fn base_opening_actions(offline: bool, facts: &BaseFacts) -> (out: Vec<Action>)
    ensures
        action_views(out@) == base_opening_plan(offline, facts@),
{
    let mut out = keyring_actions();
    if offline {
        out.push(
            Action::Log("Offline repo detected; using it for base system install.".to_owned()),
        );
    } else {
        out.push(Action::Log("Setting pacman mirror to geo.mirror.pkgbuild.com...".to_owned()));
        extend_actions(&mut out, mirrorlist_actions("/etc/pacman.d/mirrorlist", facts));
    }
    out
}

/// How the base system is installed once its packages are known: where it
/// comes from the medium, the settings for that are written and the
/// medium is checked, which ends the step if a package is missing; then the
/// packages are installed, and the list of mirrors is written into the
/// installed system.
pub open spec fn base_body_plan(offline: bool, packages: Seq<Seq<char>>, f: BaseFactsView) -> Seq<
    ActionView,
> {
    let missing = missing_patterns(packages, f.repo_files);
    let args = pacstrap_args_list(offline, packages);
    let install = seq![
        ActionView::Log("Downloading and installing packages..."@),
        ActionView::Log("Downloading and installing packages..."@),
        ActionView::Log("$ pacstrap "@ + join(args, " "@)),
        ActionView::Stream(pacstrap_view(args, f.script_available)),
    ] + mirrorlist_plan("/mnt/etc/pacman.d/mirrorlist"@, f);
    if offline {
        seq![
            ActionView::Write {
                path: OFFLINE_PACMAN_CONF_PATH@,
                contents: OFFLINE_CONF@,
                what: "write offline pacman.conf"@,
            },
            ActionView::CheckOfflineBase,
        ] + (if missing.len() > 0 {
            seq![
                ActionView::Fail(
                    ErrorView::Precondition {
                        what: "Offline repo missing required packages: "@ + join(missing, ", "@),
                    },
                ),
            ]
        } else {
            install
        })
    } else {
        install
    }
}

fn base_body_actions(offline: bool, packages: &Vec<String>, facts: &BaseFacts) -> (out: Vec<Action>)
    ensures
        action_views(out@) == base_body_plan(offline, texts(packages@), facts@),
{
    let mut out: Vec<Action> = Vec::new();
    if offline {
        out.push(
            Action::Write {
                path: OFFLINE_PACMAN_CONF_PATH.to_owned(),
                contents: OFFLINE_CONF.to_owned(),
                what: "write offline pacman.conf".to_owned(),
            },
        );
        out.push(Action::CheckOfflineBase);
        match validate_offline_packages(packages.as_slice(), facts.repo_files.as_slice()) {
            Err(e) => {
                out.push(Action::Fail(e));
                return out;
            },
            Ok(_) => {},
        }
    }
    let args = pacstrap_args(offline, packages);
    let mut install: Vec<Action> = Vec::new();
    install.push(Action::Log("Downloading and installing packages...".to_owned()));
    install.push(Action::Log("Downloading and installing packages...".to_owned()));
    install.push(Action::Log(pacstrap_line(&args)));
    install.push(Action::Stream(run_pacstrap(&args, facts.script_available)));
    extend_actions(&mut install, mirrorlist_actions("/mnt/etc/pacman.d/mirrorlist", facts));
    extend_actions(&mut out, install);
    out
}

/// What the step that installs the base system does. Where nothing but
/// the medium may be used and the medium holds no repository, or where the
/// processor's listing could not be read, the step ends with an error.
pub open spec fn base_install_plan(
    offline_only: bool,
    kernel: Seq<char>,
    headers: Seq<char>,
    drivers: Seq<Seq<char>>,
    f: BaseFactsView,
) -> Seq<ActionView> {
    let offline = f.repo_available || offline_only;
    if offline_only && !f.repo_available {
        seq![
            ActionView::Fail(
                ErrorView::Precondition { what: "Offline repo not found at /opt/nebula-repo"@ },
            ),
        ]
    } else {
        base_opening_plan(offline, f) + (match f.cpuinfo {
            None => seq![ActionView::Fail(ErrorView::File { what: "read cpuinfo"@ })],
            Some(info) => {
                let ucode = microcode(lines(info));
                (match ucode {
                    Some(u) => seq![ActionView::Log("Detected CPU microcode: "@ + u)],
                    None => Seq::empty(),
                }) + base_body_plan(offline, base_packages(kernel, headers, drivers, ucode), f)
            },
        })
    }
}

/// What the step that installs the base system does.
pub fn base_install_actions(
    offline_only: bool,
    kernel: &str,
    headers: &str,
    drivers: &Vec<String>,
    facts: &BaseFacts,
) -> (out: Vec<Action>)
    ensures
        action_views(out@) == base_install_plan(
            offline_only,
            kernel@,
            headers@,
            texts(drivers@),
            facts@,
        ),
{
    match crate::pacman::require_offline_repo(offline_only, facts.repo_available) {
        Err(e) => {
            let mut out: Vec<Action> = Vec::new();
            out.push(Action::Fail(e));
            return out;
        },
        Ok(_) => {},
    }
    let offline = facts.repo_available || offline_only;
    let mut out = base_opening_actions(offline, facts);
    let info = match &facts.cpuinfo {
        Some(info) => info,
        None => {
            out.push(Action::Fail(InstallError::File { what: "read cpuinfo".to_owned() }));
            return out;
        },
    };
    let ucode = detect_microcode_package(info.as_str());
    match ucode {
        Some(u) => {
            out.push(Action::Log(glue("Detected CPU microcode: ", u)));
        },
        None => {},
    }
    let packages = base_package_list(kernel, headers, drivers, ucode);
    let body = base_body_actions(offline, &packages, facts);
    extend_actions(&mut out, body);
    out
}

/// What the step that writes the table of file systems does: the table
/// that the system tool makes out is added to the end of the file.
pub open spec fn fstab_plan() -> Seq<ActionView> {
    seq![
        ActionView::AppendOutput {
            command: crate::command::plain("genfstab"@, seq!["-U"@, "/mnt"@]),
            path: "/mnt/etc/fstab"@,
            open_what: "open fstab"@,
            write_what: "write fstab"@,
        },
    ]
}

/// What the step that writes the table of file systems does.
pub fn fstab_actions() -> (out: Vec<Action>)
    ensures
        action_views(out@) == fstab_plan(),
{
    let mut out: Vec<Action> = Vec::new();
    let command = crate::command::run("genfstab", &["-U", "/mnt"]);
    assert(command@.args =~= seq!["-U"@, "/mnt"@]);
    out.push(
        Action::AppendOutput {
            command,
            path: "/mnt/etc/fstab".to_owned(),
            open_what: "open fstab".to_owned(),
            write_what: "write fstab".to_owned(),
        },
    );
    out
}

/// The log lines `lines`, as actions.
pub open spec fn log_plan(lines: Seq<Seq<char>>) -> Seq<ActionView> {
    Seq::new(lines.len(), |i: int| ActionView::Log(lines[i]))
}

/// The log lines `lines`, as actions.
pub fn log_actions(lines: &Vec<String>) -> (out: Vec<Action>)
    ensures
        action_views(out@) == log_plan(texts(lines@)),
{
    let mut out: Vec<Action> = Vec::new();
    let mut i: usize = 0;
    while i < lines.len()
        invariant
            i <= lines.len(),
            out.len() == i,
            forall|j: int| 0 <= j < i ==> (#[trigger] out@[j])@ == ActionView::Log(lines@[j]@),
        decreases lines.len() - i,
    {
        out.push(Action::Log(lines[i].clone()));
        i += 1;
    }
    out
}

fn log_one(line: String) -> (out: Vec<Action>)
    ensures
        action_views(out@) == seq![ActionView::Log(line@)],
{
    let mut out: Vec<Action> = Vec::new();
    out.push(Action::Log(line));
    out
}

fn nothing() -> (out: Vec<Action>)
    ensures
        action_views(out@) == Seq::<ActionView>::empty(),
{
    let out: Vec<Action> = Vec::new();
    out
}

fn stream(command: crate::command::CommandSpec) -> (out: Vec<Action>)
    ensures
        action_views(out@) == seq![ActionView::Stream(command@)],
{
    let mut out: Vec<Action> = Vec::new();
    out.push(Action::Stream(command));
    out
}

fn write(path: &str, contents: String, what: &str) -> (out: Vec<Action>)
    ensures
        action_views(out@) == seq![
            ActionView::Write { path: path@, contents: contents@, what: what@ },
        ],
{
    let mut out: Vec<Action> = Vec::new();
    out.push(Action::Write { path: path.to_owned(), contents, what: what.to_owned() });
    out
}

fn edit(rule: crate::grub::Rule) -> (out: Vec<Action>)
    ensures
        action_views(out@) == seq![ActionView::EditGrub(rule@)],
{
    let mut out: Vec<Action> = Vec::new();
    out.push(Action::EditGrub(rule));
    out
}

fn fail(e: InstallError) -> (out: Vec<Action>)
    ensures
        action_views(out@) == seq![ActionView::Fail(e@)],
{
    let mut out: Vec<Action> = Vec::new();
    out.push(Action::Fail(e));
    out
}

/// What is found out before the chosen packages are installed.
#[derive(Debug, Clone, Copy, PartialEq, Eq, Structural)]
pub struct PackageFacts {
    /// Whether the installer's medium holds a package repository.
    pub repo_available: bool,
    /// Whether the medium holds the key of the installer's repository.
    pub key_on_medium: bool,
    /// Whether the installed system holds that key already.
    pub key_in_target: bool,
}

/// What the step does about the medium's repository: it is bound into
/// the installed system, the settings for it are written, and its key is
/// taken over.
pub open spec fn medium_plan(offline_only: bool, needs_repo: bool, f: PackageFacts) -> Seq<
    ActionView,
> {
    (if f.repo_available {
        crate::steps::bind_repo_plan() + seq![
            ActionView::Write {
                path: crate::pacman::TARGET_OFFLINE_PACMAN_CONF_PATH@,
                contents: OFFLINE_CONF@,
                what: "write offline pacman.conf"@,
            },
        ] + (if !offline_only {
            seq![
                ActionView::Write {
                    path: crate::pacman::TARGET_HYBRID_PACMAN_CONF_PATH@,
                    contents: crate::pacman::hybrid_conf_text(needs_repo),
                    what: "write hybrid pacman.conf"@,
                },
            ]
        } else {
            Seq::empty()
        })
    } else {
        Seq::empty()
    }) + (if f.repo_available && f.key_on_medium {
        crate::steps::import_key_plan()
    } else {
        Seq::empty()
    })
}

fn medium_actions(offline_only: bool, needs_repo: bool, facts: PackageFacts) -> (out: Vec<Action>)
    ensures
        action_views(out@) == medium_plan(offline_only, needs_repo, facts),
{
    let mut out = nothing();
    if facts.repo_available {
        extend_actions(&mut out, crate::steps::bind_repo_actions());
        extend_actions(
            &mut out,
            write(
                crate::pacman::TARGET_OFFLINE_PACMAN_CONF_PATH,
                OFFLINE_CONF.to_owned(),
                "write offline pacman.conf",
            ),
        );
        if !offline_only {
            extend_actions(
                &mut out,
                write(
                    crate::pacman::TARGET_HYBRID_PACMAN_CONF_PATH,
                    crate::pacman::hybrid_pacman_conf(needs_repo),
                    "write hybrid pacman.conf",
                ),
            );
        }
    }
    if facts.repo_available && facts.key_on_medium {
        extend_actions(&mut out, crate::steps::import_key_actions());
    }
    out
}

/// The settings file that stands for `conf` in the installed system.
pub open spec fn conf_path(conf: Conf) -> Option<Seq<char>> {
    match conf {
        Conf::System => None,
        Conf::Offline => Some("/etc/pacman.offline.conf"@),
        Conf::Hybrid => Some("/etc/pacman.hybrid.conf"@),
    }
}

/// The command that brings the package lists up to date with `conf`.
pub open spec fn sync_view(conf: Conf) -> CommandView {
    crate::pacman::pacman_view(
        seq!["pacman"@, "-Sy"@, "--noconfirm"@],
        conf_path(conf),
        Seq::empty(),
        "Syncing package databases..."@,
    )
}

/// The command that installs `packages` with `conf`.
pub open spec fn install_view(packages: Seq<Seq<char>>, conf: Conf) -> CommandView {
    crate::pacman::pacman_view(
        seq!["pacman"@, "-S"@, "--noconfirm"@, "--needed"@],
        conf_path(conf),
        packages,
        "Installing packages..."@,
    )
}

/// How the packages are installed: the required ones, a failure of which
/// ends the step, and the optional ones, as far as they can be installed;
/// the package lists are brought up to date before each, and at the end for
/// the first boot unless that was done or the network may not be used.
pub open spec fn install_plan(
    offline_only: bool,
    repo_available: bool,
    required: Seq<Seq<char>>,
    optional: Seq<Seq<char>>,
) -> Seq<ActionView> {
    let d = crate::pacman::package_decisions(
        offline_only,
        repo_available,
        false,
        required.len() > 0,
        optional.len() > 0,
        false,
    );
    (match d.required {
        Some(conf) => seq![
            ActionView::Stream(sync_view(conf)),
            ActionView::Stream(install_view(required, conf)),
        ],
        None => Seq::empty(),
    }) + (match d.optional {
        Some(conf) => (if d.sync_before_optional {
            seq![ActionView::Stream(sync_view(conf))]
        } else {
            Seq::empty()
        }) + seq![ActionView::BestEffort { packages: optional, conf }],
        None => Seq::empty(),
    }) + (if d.final_sync {
        seq![
            ActionView::Log("Syncing nebula repo database for first boot..."@),
            ActionView::Tolerated {
                command: sync_view(Conf::System),
                streamed: true,
                prefix: "Warning: failed to sync package databases: "@,
            },
        ]
    } else {
        Seq::empty()
    })
}

fn sync_with(conf: Conf) -> (c: crate::command::CommandSpec)
    ensures
        c@ == sync_view(conf),
{
    crate::pacman::sync_pacman_databases(conf.path())
}

fn install_actions(
    offline_only: bool,
    repo_available: bool,
    required: &Vec<String>,
    optional: &Vec<String>,
) -> (out: Vec<Action>)
    ensures
        action_views(out@) == install_plan(
            offline_only,
            repo_available,
            texts(required@),
            texts(optional@),
        ),
{
    let d = crate::pacman::decide_packages(
        offline_only,
        repo_available,
        false,
        required.len() > 0,
        optional.len() > 0,
        false,
    );
    let mut out = nothing();
    match d.required {
        Some(conf) => {
            extend_actions(&mut out, stream(sync_with(conf)));
            match crate::pacman::install_pacman_packages(required.as_slice(), conf.path()) {
                Some(command) => {
                    extend_actions(&mut out, stream(command));
                },
                None => {},
            }
        },
        None => {},
    }
    let ghost first = action_views(out@);
    proof {
        let want = match d.required {
            Some(conf) => seq![
                ActionView::Stream(sync_view(conf)),
                ActionView::Stream(install_view(texts(required@), conf)),
            ],
            None => Seq::<ActionView>::empty(),
        };
        assert(first =~= want);
    }
    match d.optional {
        Some(conf) => {
            if d.sync_before_optional {
                extend_actions(&mut out, stream(sync_with(conf)));
            }
            let ghost mid = action_views(out@);
            let packages = clone_strings(optional);
            out.push(Action::BestEffort { packages, conf });
            assert(action_views(out@) =~= mid + seq![
                ActionView::BestEffort { packages: texts(optional@), conf },
            ]);
        },
        None => {},
    }
    let ghost second = action_views(out@);
    proof {
        let want = match d.optional {
            Some(conf) => (if d.sync_before_optional {
                seq![ActionView::Stream(sync_view(conf))]
            } else {
                Seq::empty()
            }) + seq![ActionView::BestEffort { packages: texts(optional@), conf }],
            None => Seq::<ActionView>::empty(),
        };
        assert(second =~= first + want);
    }
    if d.final_sync {
        out.push(Action::Log("Syncing nebula repo database for first boot...".to_owned()));
        out.push(
            Action::Tolerated {
                command: sync_with(Conf::System),
                streamed: true,
                prefix: "Warning: failed to sync package databases: ".to_owned(),
            },
        );
    }
    out
}

/// Whether the installer's repository is needed: so where a helper for
/// the user repository is among the optional packages, or a package of the
/// user repository was chosen.
pub open spec fn repo_needed(optional: Seq<Seq<char>>, aur: Seq<Seq<char>>) -> bool {
    optional.contains("yay"@) || optional.contains("yay-bin"@) || aur.len() > 0
}

/// What the step that installs the chosen packages does.
pub open spec fn packages_plan(
    offline_only: bool,
    username: Seq<char>,
    base: Seq<Seq<char>>,
    pacman: Seq<Seq<char>>,
    aur: Seq<Seq<char>>,
    f: PackageFacts,
) -> Seq<ActionView> {
    let required = dedup(base);
    let optional = dedup(pacman + aur);
    let needs_repo = repo_needed(optional, aur);
    let key_now = f.key_in_target || (f.repo_available && f.key_on_medium);
    seq![ActionView::Log("Installing selected apps and packages..."@)] + (if offline_only
        && needs_repo {
        seq![ActionView::Log("Offline-only enabled; skipping nebula repo setup."@)]
    } else {
        Seq::empty()
    }) + medium_plan(offline_only, needs_repo, f) + (if !offline_only || key_now {
        (if key_now {
            crate::steps::repo_key_local_plan()
        } else {
            crate::steps::repo_key_remote_plan()
        }) + crate::steps::repo_trust_plan()
    } else {
        Seq::empty()
    }) + install_plan(offline_only, f.repo_available, required, optional)
        + crate::steps::shell_plan(crate::pacman::zsh_setup_text(username))
}

/// What the step that installs the chosen packages does.
pub fn packages_actions(
    offline_only: bool,
    username: &str,
    base: &Vec<String>,
    pacman: &Vec<String>,
    aur: &Vec<String>,
    facts: PackageFacts,
) -> (out: Vec<Action>)
    ensures
        action_views(out@) == packages_plan(
            offline_only,
            username@,
            texts(base@),
            texts(pacman@),
            texts(aur@),
            facts,
        ),
{
    let required = crate::lists::dedup_packages(clone_strings(base));
    let optional = crate::pacman::optional_packages(pacman, aur);
    let needs_repo = crate::pacman::needs_nebula_repo(optional.as_slice(), aur.as_slice());
    let key_now = facts.key_in_target || (facts.repo_available && facts.key_on_medium);
    let mut out = log_one("Installing selected apps and packages...".to_owned());
    let ghost a = action_views(out@);
    if offline_only && needs_repo {
        out.push(Action::Log("Offline-only enabled; skipping nebula repo setup.".to_owned()));
    }
    let ghost b = action_views(out@);
    assert(b =~= a + (if offline_only && needs_repo {
        seq![ActionView::Log("Offline-only enabled; skipping nebula repo setup."@)]
    } else {
        Seq::empty()
    }));
    extend_actions(&mut out, medium_actions(offline_only, needs_repo, facts));
    let ghost c = action_views(out@);
    if crate::pacman::sets_up_repo(offline_only, key_now) {
        extend_actions(&mut out, crate::installer::repo_setup_actions(key_now));
    } else {
        assert(c + Seq::<ActionView>::empty() =~= c);
    }
    extend_actions(
        &mut out,
        install_actions(offline_only, facts.repo_available, &required, &optional),
    );
    let command = crate::pacman::zsh_setup_command(username);
    extend_actions(&mut out, crate::steps::shell_actions(command.as_str()));
    out
}

/// What a probe of the machine logged and found.
#[derive(Debug, Clone, PartialEq, Eq)]
pub struct Probed {
    /// The lines that the probe logs.
    pub lines: Vec<String>,
    /// What it found, if anything.
    pub found: Option<String>,
}

/// What `Probed` holds, as plain text.
pub struct ProbedView {
    pub lines: Seq<Seq<char>>,
    pub found: Option<Seq<char>>,
}

impl View for Probed {
    type V = ProbedView;

    open spec fn view(&self) -> ProbedView {
        ProbedView { lines: texts(self.lines@), found: opt_text(self.found) }
    }
}

/// What is found out before the installation is finished.
#[derive(Debug, Clone, PartialEq, Eq)]
pub struct FinalFacts {
    /// The script that installs the compositor's default settings, if
    /// there is one.
    pub hypr_script: Option<String>,
    /// What the display tool wrote.
    pub display: Probed,
    /// The refresh rate of each display, written with two decimals.
    pub rates: Vec<String>,
    /// Whether the medium's repository is bound into the installed system.
    pub repo_mounted: bool,
}

/// What `FinalFacts` holds, as plain values.
pub struct FinalFactsView {
    pub hypr_script: Option<Seq<char>>,
    pub display: ProbedView,
    pub rates: Seq<Seq<char>>,
    pub repo_mounted: bool,
}

impl View for FinalFacts {
    type V = FinalFactsView;

    open spec fn view(&self) -> FinalFactsView {
        FinalFactsView {
            hypr_script: opt_text(self.hypr_script),
            display: self.display@,
            rates: texts(self.rates@),
            repo_mounted: self.repo_mounted,
        }
    }
}

/// The displays that the display tool's output lists.
pub open spec fn displays_in(output: Seq<char>) -> Seq<crate::monitors::MonitorView> {
    crate::monitors::scanned(lines(output), None, Seq::empty())
}

/// What is done about the compositor's settings for the displays: they
/// are written from what the display tool wrote, unless it wrote nothing or
/// listed no display, which is logged.
pub open spec fn monitors_plan(
    username: Seq<char>,
    display: ProbedView,
    rates: Seq<Seq<char>>,
) -> Seq<
    ActionView,
> {
    seq![ActionView::Log("Generating Hyprland monitor config..."@)] + log_plan(display.lines) + (
    match display.found {
        None => seq![
            ActionView::Log("Failed to read wlr-randr output; skipping monitor config."@),
        ],
        Some(output) => {
            let monitors = displays_in(output);
            let dir = "/mnt/home/"@ + username + "/.config/hypr"@;
            if monitors.len() == 0 {
                seq![ActionView::Log("No monitor data found; skipping monitor config."@)]
            } else if monitors.len() > u32::MAX {
                seq![ActionView::Fail(ErrorView::Precondition { what: "Too many monitors"@ })]
            } else {
                seq![
                    ActionView::Log(
                        "Writing Hyprland monitor config to "@ + (dir + "/monitors.conf"@),
                    ),
                    ActionView::MakeDir { path: dir, what: "create hypr config dir"@ },
                    ActionView::Write {
                        path: dir + "/monitors.conf"@,
                        contents: crate::monitors::monitor_lines(
                            monitors,
                            rates,
                            monitors.len() as int,
                        ),
                        what: "write hypr monitors config"@,
                    },
                ]
            }
        },
    })
}

fn monitors_actions(username: &str, display: &Probed, rates: &Vec<String>) -> (out: Vec<Action>)
    ensures
        action_views(out@) == monitors_plan(username@, display@, texts(rates@)),
{
    let mut out = log_one("Generating Hyprland monitor config...".to_owned());
    extend_actions(&mut out, log_actions(&display.lines));
    let output = match &display.found {
        Some(output) => output,
        None => {
            extend_actions(
                &mut out,
                log_one("Failed to read wlr-randr output; skipping monitor config.".to_owned()),
            );
            return out;
        },
    };
    let monitors = crate::monitors::parse_wlr_randr(output.as_str());
    if monitors.len() == 0 {
        extend_actions(
            &mut out,
            log_one("No monitor data found; skipping monitor config.".to_owned()),
        );
        return out;
    }
    if monitors.len() > 0xffff_ffff {
        extend_actions(
            &mut out,
            fail(InstallError::Precondition { what: "Too many monitors".to_owned() }),
        );
        return out;
    }
    let dir = crate::text::glue3("/mnt/home/", username, "/.config/hypr");
    let path = glue(dir.as_str(), "/monitors.conf");
    let contents = match crate::monitors::render_hypr_monitors_conf(
        monitors.as_slice(),
        rates.as_slice(),
    ) {
        Some(contents) => contents,
        None => String::new(),
    };
    let mut tail: Vec<Action> = Vec::new();
    tail.push(Action::Log(glue("Writing Hyprland monitor config to ", path.as_str())));
    tail.push(Action::MakeDir { path: dir, what: "create hypr config dir".to_owned() });
    tail.push(Action::Write { path, contents, what: "write hypr monitors config".to_owned() });
    extend_actions(&mut out, tail);
    out
}

/// A command inside the installed system whose failure is only logged.
pub open spec fn tolerated(args: Seq<Seq<char>>, prefix: Seq<char>) -> ActionView {
    ActionView::Tolerated { command: crate::command::in_chroot(args), streamed: false, prefix }
}

/// What the last step does: the services are switched on; where the
/// compositor was chosen, its settings and hooks are installed; the user's
/// files are given to the user and the installer's log is kept, failures of
/// which are only logged; and the installed system is unmounted and, where
/// the disk is encrypted, the volume closed.
pub open spec fn finalize_plan(
    username: Seq<char>,
    base: Seq<Seq<char>>,
    hyprland: bool,
    encrypt: bool,
    f: FinalFactsView,
) -> Seq<ActionView> {
    let home = "/home/"@ + username;
    (if base.contains("sddm"@) {
        crate::steps::services_with_login_plan()
    } else {
        crate::steps::services_without_login_plan()
    }) + (if hyprland {
        (match f.hypr_script {
            Some(script) => crate::steps::hypr_defaults_plan(script, username),
            None => seq![
                ActionView::Log(
                    "nebula-hypr installer script not found; skipping Hyprland config install."@,
                ),
            ],
        }) + monitors_plan(username, f.display, f.rates) + crate::steps::theme_hook_plan(username)
            + seq![
            ActionView::EditHook {
                path: "/mnt/home/"@ + username + "/.config/hypr/hyprland.conf"@,
                target_include: "/mnt/home/"@ + username
                    + "/.local/share/nebula/hypr/nebula-theme.conf"@,
                home_include: "~/.local/share/nebula/hypr/nebula-theme.conf"@,
            },
        ] + crate::steps::theme_hook_owner_plan(username)
    } else {
        Seq::empty()
    }) + seq![
        tolerated(
            seq![
                "chown"@,
                "-R"@,
                username + ":"@ + username,
                home + "/.config"@,
                home + "/.local"@,
            ],
            "Failed to chown home dirs: "@,
        ),
        tolerated(
            seq!["sudo"@, "-u"@, username, "xdg-user-dirs-update"@],
            "xdg-user-dirs-update failed: "@,
        ),
        ActionView::CopyLog,
    ] + (if f.repo_mounted {
        crate::steps::unmount_with_repo_plan()
    } else {
        crate::steps::unmount_plan()
    }) + (if encrypt {
        seq![ActionView::CloseVolume]
    } else {
        Seq::empty()
    })
}

fn compositor_actions(username: &str, facts: &FinalFacts) -> (out: Vec<Action>)
    ensures
        action_views(out@) == (match facts@.hypr_script {
            Some(script) => crate::steps::hypr_defaults_plan(script, username@),
            None => seq![
                ActionView::Log(
                    "nebula-hypr installer script not found; skipping Hyprland config install."@,
                ),
            ],
        }) + monitors_plan(username@, facts@.display, facts@.rates)
            + crate::steps::theme_hook_plan(username@) + seq![
            ActionView::EditHook {
                path: "/mnt/home/"@ + username@ + "/.config/hypr/hyprland.conf"@,
                target_include: "/mnt/home/"@ + username@
                    + "/.local/share/nebula/hypr/nebula-theme.conf"@,
                home_include: "~/.local/share/nebula/hypr/nebula-theme.conf"@,
            },
        ] + crate::steps::theme_hook_owner_plan(username@),
{
    let mut out = match &facts.hypr_script {
        Some(script) => crate::steps::hypr_defaults_actions(script.as_str(), username),
        None => log_one(
            "nebula-hypr installer script not found; skipping Hyprland config install.".to_owned(),
        ),
    };
    extend_actions(&mut out, monitors_actions(username, &facts.display, &facts.rates));
    extend_actions(&mut out, crate::steps::theme_hook_actions(username));
    out.push(
        Action::EditHook {
            path: crate::text::glue3("/mnt/home/", username, "/.config/hypr/hyprland.conf"),
            target_include: crate::text::glue3(
                "/mnt/home/",
                username,
                "/.local/share/nebula/hypr/nebula-theme.conf",
            ),
            home_include: "~/.local/share/nebula/hypr/nebula-theme.conf".to_owned(),
        },
    );
    extend_actions(&mut out, crate::steps::theme_hook_owner_actions(username));
    out
}

fn handover_actions(username: &str) -> (out: Vec<Action>)
    ensures
        action_views(out@) == seq![
            tolerated(
                seq![
                    "chown"@,
                    "-R"@,
                    username@ + ":"@ + username@,
                    ("/home/"@ + username@) + "/.config"@,
                    ("/home/"@ + username@) + "/.local"@,
                ],
                "Failed to chown home dirs: "@,
            ),
            tolerated(
                seq!["sudo"@, "-u"@, username@, "xdg-user-dirs-update"@],
                "xdg-user-dirs-update failed: "@,
            ),
            ActionView::CopyLog,
        ],
{
    let owner = crate::text::glue3(username, ":", username);
    let home = glue("/home/", username);
    let config = glue(home.as_str(), "/.config");
    let local = glue(home.as_str(), "/.local");
    let chown = crate::command::run_chroot(
        &["chown", "-R", owner.as_str(), config.as_str(), local.as_str()],
    );
    let dirs = crate::command::run_chroot(&["sudo", "-u", username, "xdg-user-dirs-update"]);
    proof {
        assert(chown@.args =~= crate::command::in_chroot(
            seq![
                "chown"@,
                "-R"@,
                username@ + ":"@ + username@,
                ("/home/"@ + username@) + "/.config"@,
                ("/home/"@ + username@) + "/.local"@,
            ],
        ).args);
        assert(dirs@.args =~= crate::command::in_chroot(
            seq!["sudo"@, "-u"@, username@, "xdg-user-dirs-update"@],
        ).args);
    }
    let mut out: Vec<Action> = Vec::new();
    out.push(
        Action::Tolerated {
            command: chown,
            streamed: false,
            prefix: "Failed to chown home dirs: ".to_owned(),
        },
    );
    out.push(
        Action::Tolerated {
            command: dirs,
            streamed: false,
            prefix: "xdg-user-dirs-update failed: ".to_owned(),
        },
    );
    out.push(Action::CopyLog);
    out
}

/// What the last step does.
pub fn finalize_actions(
    username: &str,
    base: &Vec<String>,
    hyprland: bool,
    encrypt: bool,
    facts: &FinalFacts,
) -> (out: Vec<Action>)
    ensures
        action_views(out@) == finalize_plan(username@, texts(base@), hyprland, encrypt, facts@),
{
    let mut out = crate::installer::services_actions(base.as_slice());
    let ghost a = action_views(out@);
    if hyprland {
        extend_actions(&mut out, compositor_actions(username, facts));
    } else {
        assert(a + Seq::<ActionView>::empty() =~= a);
    }
    extend_actions(&mut out, handover_actions(username));
    extend_actions(&mut out, crate::installer::unmount_actions(facts.repo_mounted));
    let ghost c = action_views(out@);
    if encrypt {
        out.push(Action::CloseVolume);
        assert(action_views(out@) =~= c + seq![ActionView::CloseVolume]);
    } else {
        assert(c + Seq::<ActionView>::empty() =~= c);
    }
    out
}

/// What a look at the displays logged and found.
#[derive(Debug, Clone, PartialEq, Eq)]
pub struct Detection {
    /// The lines that the look logs.
    pub lines: Vec<String>,
    /// The size of the screen, if one was found.
    pub resolution: Option<(u32, u32)>,
}

/// What `Detection` holds, as plain values.
pub struct DetectionView {
    pub lines: Seq<Seq<char>>,
    pub resolution: Option<(u32, u32)>,
}

impl View for Detection {
    type V = DetectionView;

    open spec fn view(&self) -> DetectionView {
        DetectionView { lines: texts(self.lines@), resolution: self.resolution }
    }
}

/// What is found out before the installed system is configured.
#[derive(Debug, Clone, PartialEq, Eq)]
pub struct SystemFacts {
    /// Whether the installed system knows the chosen time zone.
    pub timezone_exists: bool,
    /// The installer's version.
    pub version: String,
    /// The look at the displays for the size of the boot menu.
    pub gfx: Detection,
    /// Whether the medium holds the plain boot splash theme.
    pub splash_exists: bool,
    /// Whether the medium holds the boot splash theme that asks for the
    /// passphrase.
    pub luks_exists: bool,
    /// The search for the boot menu's theme.
    pub theme: Probed,
    /// The look at the displays for the variant of that theme.
    pub theme_display: Detection,
    /// Whether the theme has the variant for the screen.
    pub variant_exists: bool,
    /// Where the login screen's theme lies, if it is there.
    pub sddm_source: Option<String>,
    /// The look at the displays for the scale of the login screen; what it
    /// finds is the scale, written with two decimals.
    pub sddm: Probed,
    /// How asking for the identifier of the system partition ended, where
    /// it was asked for.
    pub root_uuid: Option<crate::command::Captured>,
}

/// What `SystemFacts` holds, as plain values.
pub struct SystemFactsView {
    pub timezone_exists: bool,
    pub version: Seq<char>,
    pub gfx: DetectionView,
    pub splash_exists: bool,
    pub luks_exists: bool,
    pub theme: ProbedView,
    pub theme_display: DetectionView,
    pub variant_exists: bool,
    pub sddm_source: Option<Seq<char>>,
    pub sddm: ProbedView,
    pub root_uuid: Option<CapturedView>,
}

impl View for SystemFacts {
    type V = SystemFactsView;

    open spec fn view(&self) -> SystemFactsView {
        SystemFactsView {
            timezone_exists: self.timezone_exists,
            version: self.version@,
            gfx: self.gfx@,
            splash_exists: self.splash_exists,
            luks_exists: self.luks_exists,
            theme: self.theme@,
            theme_display: self.theme_display@,
            variant_exists: self.variant_exists,
            sddm_source: opt_text(self.sddm_source),
            sddm: self.sddm@,
            root_uuid: match self.root_uuid {
                Some(c) => Some(c@),
                None => None,
            },
        }
    }
}

/// A size as it is written: width, `x`, height.
pub open spec fn size_text(size: (u32, u32)) -> Seq<char> {
    crate::text::decimal(size.0 as nat) + "x"@ + crate::text::decimal(size.1 as nat)
}

fn size_string(size: (u32, u32)) -> (out: String)
    ensures
        out@ == size_text(size),
{
    let mut v: Vec<char> = Vec::new();
    crate::text::push_decimal(&mut v, size.0 as u64);
    crate::text::append_str(&mut v, "x");
    crate::text::push_decimal(&mut v, size.1 as u64);
    crate::text::from_chars(&v)
}

/// What is done about the size of the boot menu: it is set by the class
/// of the screen that was found, and kept for the kernel.
pub open spec fn gfx_plan(d: DetectionView) -> Seq<ActionView> {
    log_plan(d.lines) + (match d.resolution {
        Some(size) => seq![
            ActionView::Log("Detected monitor resolution for GRUB gfxmode: "@ + size_text(size)),
        ],
        None => Seq::empty(),
    }) + seq![
        ActionView::EditGrub(
            crate::grub::RuleView::Replace {
                prefix: "GRUB_GFXMODE="@,
                line: "GRUB_GFXMODE="@ + crate::display::class_gfxmode(
                    crate::display::class_of(d.resolution),
                ),
            },
        ),
        ActionView::EditGrub(
            crate::grub::RuleView::Replace {
                prefix: "GRUB_GFXPAYLOAD_LINUX="@,
                line: "GRUB_GFXPAYLOAD_LINUX=keep"@,
            },
        ),
    ]
}

fn gfx_actions(d: &Detection) -> (out: Vec<Action>)
    ensures
        action_views(out@) == gfx_plan(d@),
{
    let mut out = log_actions(&d.lines);
    match d.resolution {
        Some(size) => {
            let line = glue(
                "Detected monitor resolution for GRUB gfxmode: ",
                size_string(size).as_str(),
            );
            extend_actions(&mut out, log_one(line));
        },
        None => {},
    }
    let selection = crate::display::grub_theme_for(d.resolution);
    extend_actions(&mut out, edit(crate::grub::set_grub_gfxmode(selection.gfxmode)));
    extend_actions(&mut out, edit(crate::grub::set_grub_gfxpayload()));
    out
}

/// What is done about the boot menu's theme: where it was found, it and
/// its variant for the screen are copied into the installed system, the
/// usual variant where the theme has none for the screen, and the boot
/// loader is told of it; where it was not found, that is logged.
pub open spec fn grub_theme_plan(theme: ProbedView, d: DetectionView, variant_exists: bool) -> Seq<
    ActionView,
> {
    log_plan(theme.lines) + (match theme.found {
        None => seq![
            ActionView::Log("GRUB theme not found at any known path; skipping theme install."@),
        ],
        Some(src) => {
            let folder = crate::display::class_folder(crate::display::class_of(d.resolution));
            log_plan(d.lines) + seq![
                ActionView::Log(
                    match d.resolution {
                        Some(size) => "Detected monitor resolution: "@ + size_text(size)
                            + "; using GRUB theme variant: "@ + folder,
                        None => "Monitor resolution not detected; using default GRUB theme variant: "@
                            + folder,
                    },
                ),
            ] + (if variant_exists {
                Seq::empty()
            } else {
                seq![
                    ActionView::Log(
                        "GRUB theme variant not found at "@ + (src + "/"@ + folder)
                            + "; falling back to 1080p"@,
                    ),
                ]
            }) + seq![
                ActionView::Log(
                    "Installing GRUB theme from "@ + src + " (variant: "@ + folder + ")"@,
                ),
            ] + crate::steps::grub_theme_copy_plan(
                src,
                src + "/"@ + (if variant_exists {
                    folder
                } else {
                    "1080p"@
                }),
            ) + seq![
                ActionView::EditGrub(
                    crate::grub::RuleView::Replace {
                        prefix: "GRUB_THEME="@,
                        line: "GRUB_THEME=\"/boot/grub/themes/nebula-vimix-grub/theme.txt\""@,
                    },
                ),
            ]
        },
    })
}

fn grub_theme_actions(theme: &Probed, d: &Detection, variant_exists: bool) -> (out: Vec<Action>)
    ensures
        action_views(out@) == grub_theme_plan(theme@, d@, variant_exists),
{
    let mut out = log_actions(&theme.lines);
    let src = match &theme.found {
        Some(src) => src.as_str(),
        None => {
            extend_actions(
                &mut out,
                log_one(
                    "GRUB theme not found at any known path; skipping theme install.".to_owned(),
                ),
            );
            return out;
        },
    };
    let selection = crate::display::grub_theme_for(d.resolution);
    let folder = selection.folder;
    let mut rest = log_actions(&d.lines);
    let note = match d.resolution {
        Some(size) => crate::text::glue4(
            "Detected monitor resolution: ",
            size_string(size).as_str(),
            "; using GRUB theme variant: ",
            folder,
        ),
        None => glue("Monitor resolution not detected; using default GRUB theme variant: ", folder),
    };
    extend_actions(&mut rest, log_one(note));
    let wanted = crate::installer::variant_source(src, folder, true);
    if !variant_exists {
        extend_actions(
            &mut rest,
            log_one(
                crate::text::glue3(
                    "GRUB theme variant not found at ",
                    wanted.as_str(),
                    "; falling back to 1080p",
                ),
            ),
        );
    }
    extend_actions(
        &mut rest,
        log_one(
            crate::text::glue5(
                "Installing GRUB theme from ",
                src,
                " (variant: ",
                folder,
                ")",
            ),
        ),
    );
    let variant = crate::installer::variant_source(src, folder, variant_exists);
    extend_actions(&mut rest, crate::steps::grub_theme_copy_actions(src, variant.as_str()));
    extend_actions(&mut rest, edit(crate::grub::set_grub_theme()));
    proof {
        let s = theme@.found->0;
    }
    extend_actions(&mut out, rest);
    out
}

/// What is done about the login screen's theme: where it is there, it is
/// copied into the installed system and the login screen is scaled for the
/// display; where it is not, that is logged.
pub open spec fn sddm_plan(source: Option<Seq<char>>, probe: ProbedView) -> Seq<ActionView> {
    match source {
        None => seq![
            ActionView::Log("SDDM theme not found at any known path; skipping theme install."@),
        ],
        Some(src) => crate::steps::sddm_theme_plan(src) + log_plan(probe.lines) + seq![
            ActionView::Log(
                match probe.found {
                    Some(scale) => "SDDM scale factor detected: "@ + scale,
                    None => "SDDM scale factor not detected; using auto scaling."@,
                },
            ),
            ActionView::WriteFile {
                path: "/mnt/etc/sddm.conf.d/nebula-scale.conf"@,
                contents: crate::display::sddm_scale_text(probe.found),
            },
            ActionView::Log("Installed SDDM theme: nebula-sddm"@),
        ],
    }
}

fn sddm_actions(source: &Option<String>, probe: &Probed) -> (out: Vec<Action>)
    ensures
        action_views(out@) == sddm_plan(opt_text(*source), probe@),
{
    let src = match source {
        Some(src) => src,
        None => {
            return log_one(
                "SDDM theme not found at any known path; skipping theme install.".to_owned(),
            );
        },
    };
    let mut out = crate::steps::sddm_theme_actions(src.as_str());
    extend_actions(&mut out, log_actions(&probe.lines));
    let note = match &probe.found {
        Some(scale) => glue("SDDM scale factor detected: ", scale.as_str()),
        None => "SDDM scale factor not detected; using auto scaling.".to_owned(),
    };
    let mut tail: Vec<Action> = Vec::new();
    tail.push(Action::Log(note));
    tail.push(
        Action::WriteFile {
            path: "/mnt/etc/sddm.conf.d/nebula-scale.conf".to_owned(),
            contents: crate::display::sddm_scale_conf(opt_str(&probe.found)),
        },
    );
    tail.push(Action::Log("Installed SDDM theme: nebula-sddm".to_owned()));
    extend_actions(&mut out, tail);
    out
}

/// The command that asks for the identifier of the partition `root_part`.
pub open spec fn uuid_query(root_part: Seq<char>) -> CommandView {
    plain("blkid"@, seq!["-s"@, "UUID"@, "-o"@, "value"@, root_part])
}

/// The command that asks for the identifier of the partition `root_part`.
pub fn uuid_query_command(root_part: &str) -> (c: crate::command::CommandSpec)
    ensures
        c@ == uuid_query(root_part@),
{
    let args = ["-s", "UUID", "-o", "value", root_part];
    let c = crate::command::run("blkid", &args);
    proof {
        assert(crate::text::str_texts(args@) =~= uuid_query(root_part@).args);
    }
    c
}

/// What is done about the encrypted volume in the installed system: the
/// identifier of the system partition is asked for, which ends the step if
/// it cannot be had, with the error of the call that asked, and entered into
/// the table of encrypted volumes and into the kernel's command line.
/// Nothing is done for a plain disk.
pub open spec fn crypt_plan(encrypt: bool, root_part: Seq<char>, end: Option<CapturedView>) -> Seq<
    ActionView,
> {
    let command = command_line(uuid_query(root_part).program, uuid_query(root_part).args);
    if !encrypt {
        Seq::empty()
    } else {
        seq![ActionView::Log("$ "@ + command)] + (match end {
            Some(e) => match capture_result(command, e) {
                Ok(stdout) => seq![
                    ActionView::WriteFile {
                        path: "/mnt/etc/crypttab"@,
                        contents: crate::system::crypttab_text(crate::text::trim(stdout)),
                    },
                    ActionView::EditGrub(
                        crate::grub::RuleView::Replace {
                            prefix: crate::grub::CMDLINE_KEY@,
                            line: "GRUB_CMDLINE_LINUX=\"cryptdevice=UUID="@ + crate::text::trim(
                                stdout,
                            ) + ":cryptroot root=/dev/mapper/cryptroot quiet splash\""@,
                        },
                    ),
                ],
                Err(error) => seq![ActionView::Fail(error)],
            },
            None => seq![ActionView::Fail(ErrorView::Run { command })],
        })
    }
}

fn crypt_actions(encrypt: bool, root_part: &str, end: &Option<crate::command::Captured>) -> (out:
    Vec<Action>)
    ensures
        action_views(out@) == crypt_plan(
            encrypt,
            root_part@,
            match *end {
                Some(c) => Some(c@),
                None => None,
            },
        ),
{
    if !encrypt {
        return nothing();
    }
    let query = uuid_query_command(root_part);
    let mut out = log_one(glue("$ ", query.command_line().as_str()));
    match end {
        Some(e) => match crate::command::conclude_capture(&query, e.duplicate()) {
            Ok(stdout) => {
                let uuid = crate::text::from_chars(
                    &crate::text::trim_chars(&crate::text::to_chars(stdout.as_str())),
                );
                let mut tail: Vec<Action> = Vec::new();
                tail.push(
                    Action::WriteFile {
                        path: "/mnt/etc/crypttab".to_owned(),
                        contents: crate::system::crypttab_line(uuid.as_str()),
                    },
                );
                tail.push(Action::EditGrub(crate::grub::update_grub_cmdline(uuid.as_str())));
                extend_actions(&mut out, tail);
            },
            Err(error) => {
                extend_actions(&mut out, fail(error));
            },
        },
        None => {
            extend_actions(&mut out, fail(InstallError::Run { command: query.command_line() }));
        },
    }
    out
}

/// What is done about the kernel's command line at the end: the quiet
/// boot is made sure of, or, for an encrypted disk without the theme that
/// asks for the passphrase, taken out, which is logged.
pub open spec fn cmdline_plan(encrypt: bool, luks_installed: bool) -> Seq<ActionView> {
    if encrypt && !luks_installed {
        seq![
            ActionView::Log(
                "Plymouth LUKS theme missing! Disabling quiet splash to ensure crypt prompt is visible."@,
            ),
            ActionView::EditGrub(
                crate::grub::RuleView::Remove { params: seq!["quiet"@, "splash"@] },
            ),
        ]
    } else {
        seq![
            ActionView::EditGrub(
                crate::grub::RuleView::Ensure { params: seq!["quiet"@, "splash"@] },
            ),
        ]
    }
}

fn cmdline_actions(encrypt: bool, luks_installed: bool) -> (out: Vec<Action>)
    ensures
        action_views(out@) == cmdline_plan(encrypt, luks_installed),
{
    let (notice, rule) = crate::installer::cmdline_rule(encrypt, luks_installed);
    let mut out: Vec<Action> = Vec::new();
    match notice {
        Some(line) => {
            out.push(Action::Log(line));
        },
        None => {},
    }
    out.push(Action::EditGrub(rule));
    out
}

/// What the step that configures the installed system does once the time
/// zone is known to be there.
pub open spec fn settings_plan(
    timezone: Seq<char>,
    username: Seq<char>,
    password: Seq<char>,
    encrypt: bool,
    root_part: Seq<char>,
    f: SystemFactsView,
) -> Seq<ActionView> {
    let luks_installed = encrypt && f.luks_exists;
    crate::steps::locale_plan(timezone) + seq![
        ActionView::Write {
            path: "/mnt/etc/os-release"@,
            contents: crate::system::os_release_text(f.version),
            what: "write os-release"@,
        },
        ActionView::EditGrub(
            crate::grub::RuleView::Replace {
                prefix: "GRUB_DISTRIBUTOR="@,
                line: "GRUB_DISTRIBUTOR=\"Nebula\""@,
            },
        ),
    ] + gfx_plan(f.gfx) + crate::steps::user_plan(username, password)
        + crate::installer::plymouth_plan(encrypt, f.splash_exists, f.luks_exists)
        + grub_theme_plan(f.theme, f.theme_display, f.variant_exists) + sddm_plan(
        f.sddm_source,
        f.sddm,
    ) + crate::steps::initramfs_plan(crate::installer::hooks_line_text(encrypt)) + (
    match crate::installer::final_theme(encrypt, f.splash_exists, luks_installed) {
        Some(theme) => crate::steps::set_theme_plan(theme),
        None => Seq::empty(),
    }) + crypt_plan(encrypt, root_part, f.root_uuid) + cmdline_plan(encrypt, luks_installed)
}

fn settings_actions(
    timezone: &str,
    username: &str,
    password: &str,
    encrypt: bool,
    root_part: &str,
    facts: &SystemFacts,
) -> (out: Vec<Action>)
    ensures
        action_views(out@) == settings_plan(
            timezone@,
            username@,
            password@,
            encrypt,
            root_part@,
            facts@,
        ),
{
    let luks_installed = encrypt && facts.luks_exists;
    let mut out = crate::steps::locale_actions(timezone);
    let mut names: Vec<Action> = Vec::new();
    names.push(
        Action::Write {
            path: "/mnt/etc/os-release".to_owned(),
            contents: crate::system::os_release(facts.version.as_str()),
            what: "write os-release".to_owned(),
        },
    );
    names.push(Action::EditGrub(crate::grub::set_grub_distributor()));
    proof {
        assert(action_views(names@) =~= seq![
            ActionView::Write {
                path: "/mnt/etc/os-release"@,
                contents: crate::system::os_release_text(facts@.version),
                what: "write os-release"@,
            },
            ActionView::EditGrub(
                crate::grub::RuleView::Replace {
                    prefix: "GRUB_DISTRIBUTOR="@,
                    line: "GRUB_DISTRIBUTOR=\"Nebula\""@,
                },
            ),
        ]);
    }
    extend_actions(&mut out, names);
    extend_actions(&mut out, gfx_actions(&facts.gfx));
    extend_actions(&mut out, crate::steps::user_actions(username, password));
    extend_actions(
        &mut out,
        crate::installer::plymouth_actions(encrypt, facts.splash_exists, facts.luks_exists),
    );
    extend_actions(
        &mut out,
        grub_theme_actions(&facts.theme, &facts.theme_display, facts.variant_exists),
    );
    extend_actions(&mut out, sddm_actions(&facts.sddm_source, &facts.sddm));
    extend_actions(
        &mut out,
        crate::installer::initramfs_step(encrypt, facts.splash_exists, luks_installed),
    );
    extend_actions(&mut out, crypt_actions(encrypt, root_part, &facts.root_uuid));
    extend_actions(&mut out, cmdline_actions(encrypt, luks_installed));
    out
}

/// What the step that configures the installed system does: the machine
/// is named; the step ends with an error if the installed system does not
/// know the chosen time zone; else clock, language, names, boot menu, user,
/// themes, the initial ram disk and the kernel's command line are set up.
pub open spec fn configure_plan(
    hostname: Seq<char>,
    keymap: Seq<char>,
    timezone: Seq<char>,
    username: Seq<char>,
    password: Seq<char>,
    encrypt: bool,
    root_part: Seq<char>,
    f: SystemFactsView,
) -> Seq<ActionView> {
    crate::steps::identity_plan(hostname, keymap) + (if f.timezone_exists {
        settings_plan(timezone, username, password, encrypt, root_part, f)
    } else {
        seq![
            ActionView::Fail(
                ErrorView::Precondition { what: "Timezone not found: "@ + timezone },
            ),
        ]
    })
}

/// What the step that configures the installed system does.
pub fn configure_actions(
    hostname: &str,
    keymap: &str,
    timezone: &str,
    username: &str,
    password: &str,
    encrypt: bool,
    root_part: &str,
    facts: &SystemFacts,
) -> (out: Vec<Action>)
    ensures
        action_views(out@) == configure_plan(
            hostname@,
            keymap@,
            timezone@,
            username@,
            password@,
            encrypt,
            root_part@,
            facts@,
        ),
{
    let mut out = crate::steps::identity_actions(hostname, keymap);
    if facts.timezone_exists {
        extend_actions(
            &mut out,
            settings_actions(timezone, username, password, encrypt, root_part, facts),
        );
    } else {
        extend_actions(
            &mut out,
            fail(InstallError::Precondition { what: glue("Timezone not found: ", timezone) }),
        );
    }
    out
}

/// What a step needs to be told of the machine before it begins.
#[derive(Debug, Clone, Copy, PartialEq, Eq, Structural)]
pub enum FactKind {
    /// Nothing.
    Nothing,
    /// What the installation of the base system needs.
    Base,
    /// What the configuration of the installed system needs.
    System,
    /// What the installation of the chosen packages needs.
    Packages,
    /// What the last step needs.
    Final,
}

/// What a step is told of the machine before it begins.
#[derive(Debug, Clone, PartialEq, Eq)]
pub enum StepFacts {
    Nothing,
    Base(BaseFacts),
    System(SystemFacts),
    Packages(PackageFacts),
    Final(FinalFacts),
}

/// What the step with the given index needs to be told.
pub open spec fn kind_needed(index: int) -> FactKind {
    if index == 5 {
        FactKind::Base
    } else if index == 7 {
        FactKind::System
    } else if index == 8 {
        FactKind::Packages
    } else if index == 10 {
        FactKind::Final
    } else {
        FactKind::Nothing
    }
}

/// What the step with the given index needs to be told.
pub fn facts_needed(index: usize) -> (k: FactKind)
    ensures
        k == kind_needed(index as int),
{
    if index == 5 {
        FactKind::Base
    } else if index == 7 {
        FactKind::System
    } else if index == 8 {
        FactKind::Packages
    } else if index == 10 {
        FactKind::Final
    } else {
        FactKind::Nothing
    }
}

/// The plan of a step that was not told what it needs: it fails.
pub open spec fn untold_plan() -> Seq<ActionView> {
    seq![ActionView::Fail(ErrorView::Precondition { what: "Step facts missing"@ })]
}

fn untold() -> (out: Vec<Action>)
    ensures
        action_views(out@) == untold_plan(),
{
    fail(InstallError::Precondition { what: "Step facts missing".to_owned() })
}

/// What the step with the given index does, for the choices `c` and what
/// the step was told of the machine: the eleven steps in their order,
/// from the partitioning of the disk to the unmounting of the installed
/// system. A step that needs to be told something and was told something
/// else fails; an index beyond the last step stands for no actions.
pub open spec fn step_plan(index: int, c: crate::installer::InstallConfig, f: StepFacts) -> Seq<
    ActionView,
> {
    let l = crate::installer::layout_of(c.disk@, c.encrypt_disk);
    if index == 0 {
        crate::steps::partition_plan(l)
    } else if index == 1 {
        crate::steps::encrypt_plan(l, c.luks_password@)
    } else if index == 2 {
        crate::steps::format_plan(l)
    } else if index == 3 {
        crate::steps::mount_plan(l)
    } else if index == 4 {
        if c.swap_enabled {
            crate::steps::swap_on_plan()
        } else {
            crate::steps::swap_off_plan()
        }
    } else if index == 5 {
        match f {
            StepFacts::Base(b) => base_install_plan(
                c.offline_only,
                c.kernel_package@,
                c.kernel_headers@,
                texts(c.driver_packages@),
                b@,
            ),
            _ => untold_plan(),
        }
    } else if index == 6 {
        fstab_plan()
    } else if index == 7 {
        match f {
            StepFacts::System(s) => configure_plan(
                c.hostname@,
                c.keymap@,
                c.timezone@,
                c.username@,
                c.user_password@,
                c.encrypt_disk,
                l.root_part,
                s@,
            ),
            _ => untold_plan(),
        }
    } else if index == 8 {
        match f {
            StepFacts::Packages(p) => packages_plan(
                c.offline_only,
                c.username@,
                texts(c.base_packages@),
                texts(c.extra_pacman_packages@),
                texts(c.extra_aur_packages@),
                p,
            ),
            _ => untold_plan(),
        }
    } else if index == 9 {
        crate::steps::bootloader_plan()
    } else if index == 10 {
        match f {
            StepFacts::Final(t) => finalize_plan(
                c.username@,
                texts(c.base_packages@),
                c.hyprland_selected,
                c.encrypt_disk,
                t@,
            ),
            _ => untold_plan(),
        }
    } else {
        Seq::empty()
    }
}

/// What the step with the given index does.
pub fn step_actions(
    index: usize,
    config: &crate::installer::InstallConfig,
    facts: &StepFacts,
) -> (out:
    Vec<Action>)
    ensures
        action_views(out@) == step_plan(index as int, *config, *facts),
{
    let l = crate::installer::layout(config);
    if index == 0 {
        crate::steps::partition_actions(&l)
    } else if index == 1 {
        crate::steps::encrypt_actions(&l, config.luks_password.as_str())
    } else if index == 2 {
        crate::steps::format_actions(&l)
    } else if index == 3 {
        crate::steps::mount_actions(&l)
    } else if index == 4 {
        crate::installer::swap_actions(config.swap_enabled)
    } else if index == 5 {
        match facts {
            StepFacts::Base(b) => base_install_actions(
                config.offline_only,
                config.kernel_package.as_str(),
                config.kernel_headers.as_str(),
                &config.driver_packages,
                b,
            ),
            _ => untold(),
        }
    } else if index == 6 {
        fstab_actions()
    } else if index == 7 {
        match facts {
            StepFacts::System(s) => configure_actions(
                config.hostname.as_str(),
                config.keymap.as_str(),
                config.timezone.as_str(),
                config.username.as_str(),
                config.user_password.as_str(),
                config.encrypt_disk,
                l.root_part.as_str(),
                s,
            ),
            _ => untold(),
        }
    } else if index == 8 {
        match facts {
            StepFacts::Packages(p) => packages_actions(
                config.offline_only,
                config.username.as_str(),
                &config.base_packages,
                &config.extra_pacman_packages,
                &config.extra_aur_packages,
                *p,
            ),
            _ => untold(),
        }
    } else if index == 9 {
        crate::steps::bootloader_actions()
    } else if index == 10 {
        match facts {
            StepFacts::Final(t) => finalize_actions(
                config.username.as_str(),
                &config.base_packages,
                config.hyprland_selected,
                config.encrypt_disk,
                t,
            ),
            _ => untold(),
        }
    } else {
        nothing()
    }
}

/// The directory that holds the theme of the boot menu.
pub const GRUB_THEME_DIR: &'static str = "nebula-vimix-grub";

/// The mounts of the installer's medium under which the theme is searched,
/// the first before the second, where it lies at none of the known places.
pub const THEME_SEARCH_ROOTS: [&'static str; 2] = ["/run/archiso/bootmnt", "/run/archiso/airootfs"];

/// How many directories deep the theme is searched.
pub const THEME_SEARCH_DEPTH: usize = 5;

/// The places at which the theme of the boot menu is looked for, in this
/// order.
pub open spec fn theme_places() -> Seq<Seq<char>> {
    seq![
        "/usr/share/grub/themes/nebula-vimix-grub"@,
        "/boot/grub/themes/nebula-vimix-grub"@,
        "/run/archiso/bootmnt/boot/grub/themes/nebula-vimix-grub"@,
        "/run/archiso/bootmnt/grub/themes/nebula-vimix-grub"@,
        "/run/archiso/bootmnt/EFI/BOOT/grub/themes/nebula-vimix-grub"@,
        "/run/archiso/airootfs/usr/share/grub/themes/nebula-vimix-grub"@,
        "/run/archiso/bootmnt/airootfs/usr/share/grub/themes/nebula-vimix-grub"@,
    ]
}

/// The places at which the theme of the boot menu is looked for, in this
/// order.
pub fn grub_theme_places() -> (out: Vec<String>)
    ensures
        texts(out@) == theme_places(),
{
    let out = strings(
        &[
            "/usr/share/grub/themes/nebula-vimix-grub",
            "/boot/grub/themes/nebula-vimix-grub",
            "/run/archiso/bootmnt/boot/grub/themes/nebula-vimix-grub",
            "/run/archiso/bootmnt/grub/themes/nebula-vimix-grub",
            "/run/archiso/bootmnt/EFI/BOOT/grub/themes/nebula-vimix-grub",
            "/run/archiso/airootfs/usr/share/grub/themes/nebula-vimix-grub",
            "/run/archiso/bootmnt/airootfs/usr/share/grub/themes/nebula-vimix-grub",
        ],
    );
    assert(texts(out@) =~= theme_places());
    out
}

/// The line that reports whether the theme lies at `place`.
pub open spec fn place_line(place: Seq<char>, exists: bool) -> Seq<char> {
    "Checking GRUB theme path "@ + place + ": "@ + if exists {
        "found"@
    } else {
        "missing"@
    }
}

/// What looking at the places from the `i`th on gives, where `exists` says
/// of each place whether the theme lies there: each place is reported, up to
/// the first at which it lies, which is found. A place of which `exists`
/// says nothing counts as missing.
pub open spec fn looked_from(places: Seq<Seq<char>>, exists: Seq<bool>, i: int) -> ProbedView
    decreases places.len() - i,
{
    if i < 0 || i >= places.len() {
        ProbedView { lines: Seq::empty(), found: None }
    } else if i < exists.len() && exists[i] {
        ProbedView { lines: seq![place_line(places[i], true)], found: Some(places[i]) }
    } else {
        let rest = looked_from(places, exists, i + 1);
        ProbedView { lines: seq![place_line(places[i], false)] + rest.lines, found: rest.found }
    }
}

/// Reports the places at which the theme was looked for, and the first at
/// which it lies.
pub fn look_for_theme(places: &Vec<String>, exists: &[bool]) -> (out: Probed)
    ensures
        out@ == looked_from(texts(places@), exists@, 0),
{
    let mut lines: Vec<String> = Vec::new();
    let mut i: usize = 0;
    while i < places.len()
        invariant
            i <= places.len(),
            looked_from(texts(places@), exists@, 0).lines == texts(lines@) + looked_from(
                texts(places@),
                exists@,
                i as int,
            ).lines,
            looked_from(texts(places@), exists@, 0).found == looked_from(
                texts(places@),
                exists@,
                i as int,
            ).found,
        decreases places.len() - i,
    {
        let ghost before = texts(lines@);
        let there = i < exists.len() && exists[i];
        let line = glue4(
            "Checking GRUB theme path ",
            places[i].as_str(),
            ": ",
            if there {
                "found"
            } else {
                "missing"
            },
        );
        lines.push(line);
        proof {
            assert(texts(lines@) =~= before + seq![place_line(places@[i as int]@, there)]);
            let rest = looked_from(texts(places@), exists@, i + 1);
            assert(before + (seq![place_line(places@[i as int]@, there)] + rest.lines) =~= (before
                + seq![place_line(places@[i as int]@, there)]) + rest.lines);
        }
        if there {
            return Probed { lines, found: Some(places[i].clone()) };
        }
        i += 1;
    }
    proof {
        assert(texts(lines@) + Seq::<Seq<char>>::empty() =~= texts(lines@));
    }
    Probed { lines, found: None }
}

/// What is known of the theme after the search under the medium's mounts.
/// Where the theme was found at one of the known places, the search adds
/// nothing. Else the theme is what the search under the first mount found,
/// or, if that found nothing, what the search under the second found; a
/// line reports which, or that there is none.
pub open spec fn searched(
    probed: ProbedView,
    first: Option<Seq<char>>,
    second: Option<Seq<char>>,
) -> ProbedView {
    if probed.found is Some {
        probed
    } else {
        match (first, second) {
            (Some(p), _) => ProbedView {
                lines: probed.lines.push("Found GRUB theme via search: "@ + p),
                found: Some(p),
            },
            (None, Some(p)) => ProbedView {
                lines: probed.lines.push("Found GRUB theme via airootfs search: "@ + p),
                found: Some(p),
            },
            (None, None) => ProbedView {
                lines: probed.lines.push("No GRUB theme found under archiso mounts."@),
                found: None,
            },
        }
    }
}

/// Takes in what the search under the medium's two mounts found.
pub fn after_theme_search(probed: Probed, first: Option<String>, second: Option<String>) -> (out:
    Probed)
    ensures
        out@ == searched(probed@, opt_text(first), opt_text(second)),
{
    if probed.found.is_some() {
        return probed;
    }
    let mut lines = probed.lines;
    let ghost before = texts(lines@);
    match first {
        Some(p) => {
            lines.push(glue("Found GRUB theme via search: ", p.as_str()));
            assert(texts(lines@) =~= before.push("Found GRUB theme via search: "@ + p@));
            Probed { lines, found: Some(p) }
        },
        None => match second {
            Some(p) => {
                lines.push(glue("Found GRUB theme via airootfs search: ", p.as_str()));
                assert(texts(lines@) =~= before.push(
                    "Found GRUB theme via airootfs search: "@ + p@,
                ));
                Probed { lines, found: Some(p) }
            },
            None => {
                lines.push("No GRUB theme found under archiso mounts.".to_owned());
                assert(texts(lines@) =~= before.push(
                    "No GRUB theme found under archiso mounts."@,
                ));
                Probed { lines, found: None }
            },
        },
    }
}

/// The places at which the theme of the login screen is looked for, in
/// this order.
pub open spec fn sddm_places() -> Seq<Seq<char>> {
    seq![
        "/usr/share/sddm/themes/nebula-sddm"@,
        "/run/archiso/bootmnt/airootfs/usr/share/sddm/themes/nebula-sddm"@,
        "/run/archiso/bootmnt/usr/share/sddm/themes/nebula-sddm"@,
    ]
}

/// The places at which the theme of the login screen is looked for, in
/// this order.
pub fn sddm_theme_places() -> (out: Vec<String>)
    ensures
        texts(out@) == sddm_places(),
{
    let out = strings(
        &[
            "/usr/share/sddm/themes/nebula-sddm",
            "/run/archiso/bootmnt/airootfs/usr/share/sddm/themes/nebula-sddm",
            "/run/archiso/bootmnt/usr/share/sddm/themes/nebula-sddm",
        ],
    );
    assert(texts(out@) =~= sddm_places());
    out
}

/// The places at which the script that installs the compositor's default
/// settings is looked for, in this order.
pub open spec fn script_places() -> Seq<Seq<char>> {
    seq![
        "/mnt/usr/share/nebula-hypr/run.sh"@,
        "/usr/share/nebula-hypr/run.sh"@,
        "/run/archiso/bootmnt/airootfs/usr/share/nebula-hypr/run.sh"@,
        "/run/archiso/bootmnt/usr/share/nebula-hypr/run.sh"@,
    ]
}

/// The places at which the script that installs the compositor's default
/// settings is looked for, in this order.
pub fn hypr_script_places() -> (out: Vec<String>)
    ensures
        texts(out@) == script_places(),
{
    let out = strings(
        &[
            "/mnt/usr/share/nebula-hypr/run.sh",
            "/usr/share/nebula-hypr/run.sh",
            "/run/archiso/bootmnt/airootfs/usr/share/nebula-hypr/run.sh",
            "/run/archiso/bootmnt/usr/share/nebula-hypr/run.sh",
        ],
    );
    assert(texts(out@) =~= script_places());
    out
}

/// What is done about the hook in the compositor's settings at `path`,
/// where `existing` is what the file holds, if it is there. Without the file
/// nothing is written, which is logged. With it the file is written anew
/// with the hook, unless it holds the hook already; that it cannot be
/// written ends the step.
pub open spec fn hook_plan(
    existing: Option<Seq<char>>,
    path: Seq<char>,
    target_include: Seq<char>,
    home_include: Seq<char>,
) -> Seq<ActionView> {
    match existing {
        None => seq![ActionView::Log("Hyprland defaults not found; skipping theme hook."@)],
        Some(text) => if crate::system::hooked(text, target_include, home_include) == text {
            Seq::empty()
        } else {
            seq![
                ActionView::Write {
                    path,
                    contents: crate::system::hooked(text, target_include, home_include),
                    what: "append hypr theme include"@,
                },
            ]
        },
    }
}

/// What is done about the hook in the compositor's settings at `path`,
/// where `existing` is what the file holds, if it is there.
pub fn hook_actions(
    existing: Option<&str>,
    path: &str,
    target_include: &str,
    home_include: &str,
) -> (out: Vec<Action>)
    ensures
        action_views(out@) == hook_plan(
            match existing {
                Some(text) => Some(text@),
                None => None,
            },
            path@,
            target_include@,
            home_include@,
        ),
{
    match existing {
        None => log_one("Hyprland defaults not found; skipping theme hook.".to_owned()),
        Some(text) => {
            let updated = crate::system::hook_hyprland_conf(text, target_include, home_include);
            if crate::text::str_eq(updated.as_str(), text) {
                nothing()
            } else {
                write(path, updated, "append hypr theme include")
            }
        },
    }
}

/// Where the list of the optional packages that could not be installed is
/// written.
pub const FAILED_PACKAGES_PATH: &'static str = "/mnt/var/log/nebula-failed-packages.txt";

/// What is done with the optional packages `failed` that could not be
/// installed. Where there are none, nothing. Else a line says so in the log,
/// the list is written into the installed system, and the installer's own
/// log file takes a note. None of this ends the step: that the list cannot
/// be written is logged.
pub open spec fn report_plan(failed: Seq<Seq<char>>) -> Seq<ActionView> {
    if failed.len() == 0 {
        Seq::empty()
    } else {
        seq![
            ActionView::Log(
                "Some optional packages failed to install. See /var/log/nebula-failed-packages.txt"@,
            ),
            ActionView::Record {
                path: FAILED_PACKAGES_PATH@,
                contents: crate::pacman::failed_log_text(failed),
                complaint: "Warning: failed to write /var/log/nebula-failed-packages.txt"@,
            },
            ActionView::Note("Optional packages failed. See /var/log/nebula-failed-packages.txt"@),
        ]
    }
}

/// What is done with the optional packages `failed` that could not be
/// installed.
pub fn report_actions(failed: &[String]) -> (out: Vec<Action>)
    ensures
        action_views(out@) == report_plan(texts(failed@)),
{
    let mut out: Vec<Action> = Vec::new();
    match crate::pacman::failed_packages_log(failed) {
        None => {},
        Some(contents) => {
            out.push(
                Action::Log(
                    "Some optional packages failed to install. See /var/log/nebula-failed-packages.txt".to_owned(),
                ),
            );
            out.push(
                Action::Record {
                    path: FAILED_PACKAGES_PATH.to_owned(),
                    contents,
                    complaint: "Warning: failed to write /var/log/nebula-failed-packages.txt".to_owned(),
                },
            );
            out.push(
                Action::Note(
                    "Optional packages failed. See /var/log/nebula-failed-packages.txt".to_owned(),
                ),
            );
        },
    }
    assert(action_views(out@) =~= report_plan(texts(failed@)));
    out
}

} // verus!
