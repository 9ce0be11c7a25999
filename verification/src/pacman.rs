//! The package manager: its settings files, the commands that install
//! packages, and the packages that the base system is made of.

use crate::command::{clone_strings, strings, CommandSpec, CommandView, InstallError};
use crate::lists::{dedup, dedup_packages, extend_unique, extend_unique_owned, holds};
use crate::model::opt_text;
use crate::text::{
    append, append_str, ends_with, from_chars, glue, glue3, has_prefix, has_suffix, join,
    join_strings, starts_with, str_eq, str_texts, strip_suffixes, strip_suffixes_chars, texts,
    to_chars, trim, trim_chars,
};
use vstd::prelude::*;

verus! {

/// The settings file that the base system is installed with when it comes
/// from the installer's own medium.
pub const OFFLINE_PACMAN_CONF_PATH: &'static str = "/tmp/nebula-pacman.offline.conf";

/// Where the settings for the medium's repository lie in the installed system.
pub const TARGET_OFFLINE_PACMAN_CONF_PATH: &'static str = "/mnt/etc/pacman.offline.conf";

/// Where the settings for the medium's repository and the network lie in
/// the installed system.
pub const TARGET_HYBRID_PACMAN_CONF_PATH: &'static str = "/mnt/etc/pacman.hybrid.conf";

/// The key of the installer's package repository, on the medium.
pub const NEBULA_REPO_KEY_PATH: &'static str = "/usr/share/nebula/nebula-repo.gpg";

/// The mirror that is used where nothing else is set.
pub const DEFAULT_MIRRORLIST: &'static str =
    "Server = https://mirror.nebulalinux.com/stable/$repo/os/$arch\n";

/// The settings for installing from the medium's repository alone.
pub const OFFLINE_CONF: &'static str =
    "[options]\nHoldPkg     = pacman glibc\nArchitecture = auto\nParallelDownloads = 5\nSigLevel = Required DatabaseOptional\nLocalFileSigLevel = Optional\n\n[nebula-offline]\nSigLevel = Optional TrustAll\nServer = file:///opt/nebula-repo\n";

/// The part of the settings that names the installer's repository on the network.
pub const NEBULA_REPO_SECTION: &'static str =
    "[nebula]\nSigLevel = Required DatabaseOptional\nServer = https://pkgs.nebulalinux.com/stable/$arch\n\n";

/// The part of the settings that names the distribution's repositories.
pub const DISTRIBUTION_SECTIONS: &'static str =
    "[core]\nInclude = /etc/pacman.d/mirrorlist\n\n[extra]\nInclude = /etc/pacman.d/mirrorlist\n\n[multilib]\nInclude = /etc/pacman.d/mirrorlist\n";

/// The list of mirrors: the list that the environment gives, trimmed and
/// ended with a line feed; or one server line for the mirror that the
/// environment gives, slashes at its end dropped; or the default. A setting
/// of whitespace gives an empty list.
pub open spec fn mirrorlist_text(mirrorlist: Option<Seq<char>>, mirror: Option<Seq<char>>) -> Seq<
    char,
> {
    match mirrorlist {
        Some(list) => if trim(list).len() == 0 {
            Seq::empty()
        } else {
            trim(list) + "\n"@
        },
        None => match mirror {
            Some(m) => if trim(m).len() == 0 {
                Seq::empty()
            } else {
                "Server = "@ + strip_suffixes(trim(m), '/') + "/$repo/os/$arch\n"@
            },
            None => DEFAULT_MIRRORLIST@,
        },
    }
}

/// The list of mirrors to write, from the two settings of the environment.
pub fn mirrorlist_contents(mirrorlist: Option<&str>, mirror: Option<&str>) -> (out: String)
    ensures
        out@ == mirrorlist_text(
            match mirrorlist {
                Some(s) => Some(s@),
                None => None,
            },
            match mirror {
                Some(s) => Some(s@),
                None => None,
            },
        ),
{
    match mirrorlist {
        Some(list) => {
            let mut trimmed = trim_chars(&to_chars(list));
            if trimmed.len() == 0 {
                String::new()
            } else {
                append_str(&mut trimmed, "\n");
                from_chars(&trimmed)
            }
        },
        None => match mirror {
            Some(m) => {
                let trimmed = trim_chars(&to_chars(m));
                if trimmed.len() == 0 {
                    String::new()
                } else {
                    let base = strip_suffixes_chars(&trimmed, '/');
                    let mut out = to_chars("Server = ");
                    append(&mut out, &base);
                    append_str(&mut out, "/$repo/os/$arch\n");
                    from_chars(&out)
                }
            },
            None => DEFAULT_MIRRORLIST.to_owned(),
        },
    }
}

/// The settings for installing from the medium's repository first and the
/// network second.
pub open spec fn hybrid_conf_text(include_nebula_repo: bool) -> Seq<char> {
    OFFLINE_CONF@ + "\n"@ + (if include_nebula_repo {
        NEBULA_REPO_SECTION@
    } else {
        Seq::empty()
    }) + DISTRIBUTION_SECTIONS@
}

/// The settings for installing from the medium's repository first and the
/// network second, with the installer's repository on the network if asked.
pub fn hybrid_pacman_conf(include_nebula_repo: bool) -> (out: String)
    ensures
        out@ == hybrid_conf_text(include_nebula_repo),
{
    let mut out = to_chars(OFFLINE_CONF);
    append_str(&mut out, "\n");
    if include_nebula_repo {
        append_str(&mut out, NEBULA_REPO_SECTION);
    }
    append_str(&mut out, DISTRIBUTION_SECTIONS);
    from_chars(&out)
}

/// Whether a file of the repository holds the package `pkg`: its name is
/// the package's name, a hyphen, anything, and the ending of package files.
pub open spec fn is_package_file(file: Seq<char>, pkg: Seq<char>) -> bool {
    starts_with(file, pkg + "-"@) && ends_with(file, ".pkg.tar.zst"@)
}

/// Whether some file of the repository holds the package `pkg`.
pub open spec fn in_repo(files: Seq<Seq<char>>, pkg: Seq<char>) -> bool {
    exists|i: int| 0 <= i < files.len() && is_package_file(#[trigger] files[i], pkg)
}

/// The packages that the repository lacks, each written as the pattern of
/// its file. The package `base` is a group and is not looked for.
pub open spec fn missing_patterns(packages: Seq<Seq<char>>, files: Seq<Seq<char>>) -> Seq<
    Seq<char>,
>
    decreases packages.len(),
{
    if packages.len() == 0 {
        Seq::empty()
    } else {
        let pkg = packages.last();
        missing_patterns(packages.drop_last(), files) + (if pkg != "base"@ && !in_repo(
            files,
            pkg,
        ) {
            seq!["/opt/nebula-repo/"@ + pkg + "-*.pkg.tar.zst"@]
        } else {
            Seq::empty()
        })
    }
}

fn repo_has(files: &[String], pkg: &str) -> (r: bool)
    ensures
        r == in_repo(texts(files@), pkg@),
{
    let prefix = glue(pkg, "-");
    let mut i: usize = 0;
    while i < files.len()
        invariant
            i <= files.len(),
            prefix@ == pkg@ + "-"@,
            forall|j: int| 0 <= j < i ==> !is_package_file(#[trigger] texts(files@)[j], pkg@),
        decreases files.len() - i,
    {
        let file = to_chars(files[i].as_str());
        assert(texts(files@)[i as int] == file@);
        if has_prefix(&file, prefix.as_str()) && has_suffix(&file, ".pkg.tar.zst") {
            return true;
        }
        i += 1;
    }
    false
}

/// Checks that the medium's repository, whose files are `files`, holds
/// every one of `packages`. The error lists what is missing.
pub fn validate_offline_packages(packages: &[String], files: &[String]) -> (r: Result<
    (),
    InstallError,
>)
    ensures
        match r {
            Ok(_) => missing_patterns(texts(packages@), texts(files@)).len() == 0,
            Err(e) => missing_patterns(texts(packages@), texts(files@)).len() > 0
                && e is Precondition && e->Precondition_what@
                == "Offline repo missing required packages: "@ + join(
                missing_patterns(texts(packages@), texts(files@)),
                ", "@,
            ),
        },
{
    let mut missing: Vec<String> = Vec::new();
    let mut i: usize = 0;
    while i < packages.len()
        invariant
            i <= packages.len(),
            texts(missing@) == missing_patterns(texts(packages@).take(i as int), texts(files@)),
        decreases packages.len() - i,
    {
        proof {
            let next = texts(packages@).take(i + 1);
            assert(next.drop_last() =~= texts(packages@).take(i as int));
        }
        let pkg = packages[i].as_str();
        if !str_eq(pkg, "base") && !repo_has(files, pkg) {
            missing.push(glue3("/opt/nebula-repo/", pkg, "-*.pkg.tar.zst"));
        }
        i += 1;
    }
    assert(texts(packages@).take(packages.len() as int) =~= texts(packages@));
    if missing.len() == 0 {
        return Ok(());
    }
    let mut what = to_chars("Offline repo missing required packages: ");
    let list = join_strings(&missing, ", ");
    append(&mut what, &list);
    Err(InstallError::Precondition { what: from_chars(&what) })
}

/// Checks what the package manager answered when asked for the package
/// `base` in the medium's repository: the repository must have synced, and
/// the query must have succeeded and written something.
pub fn validate_offline_base_package(
    synced: bool,
    found: bool,
    stdout: &str,
    stderr: &str,
) -> (r: Result<(), InstallError>)
    ensures
        r is Ok <==> synced && found && trim(stdout@).len() > 0,
        r is Err ==> r->Err_0 is Precondition && r->Err_0->Precondition_what@ == (if !synced {
            "Offline repo sync failed"@
        } else if !found {
            "Offline repo missing base package: "@ + trim(stderr@)
        } else {
            "Offline repo missing base package"@
        }),
{
    if !synced {
        return Err(InstallError::Precondition { what: "Offline repo sync failed".to_owned() });
    }
    if !found {
        let mut what = to_chars("Offline repo missing base package: ");
        append(&mut what, &trim_chars(&to_chars(stderr)));
        return Err(InstallError::Precondition { what: from_chars(&what) });
    }
    if trim_chars(&to_chars(stdout)).len() == 0 {
        return Err(
            InstallError::Precondition { what: "Offline repo missing base package".to_owned() },
        );
    }
    Ok(())
}

/// Checks that the medium's repository is there where the installation may
/// use nothing else.
pub fn require_offline_repo(offline_only: bool, repo_available: bool) -> (r: Result<
    (),
    InstallError,
>)
    ensures
        r is Err <==> offline_only && !repo_available,
        r is Err ==> r->Err_0 is Precondition && r->Err_0->Precondition_what@
            == "Offline repo not found at /opt/nebula-repo"@,
{
    if offline_only && !repo_available {
        Err(
            InstallError::Precondition {
                what: "Offline repo not found at /opt/nebula-repo".to_owned(),
            },
        )
    } else {
        Ok(())
    }
}

/// The packages that every base system is made of.
pub open spec fn base_system() -> Seq<Seq<char>> {
    seq![
        "base"@,
        "linux-firmware"@,
        "btrfs-progs"@,
        "grub"@,
        "efibootmgr"@,
        "networkmanager"@,
        "plymouth"@,
        "sudo"@,
        "vim"@,
        "zram-generator"@,
    ]
}

/// Whether the drivers are built against the kernel, so that its headers
/// are needed.
pub open spec fn needs_headers(drivers: Seq<Seq<char>>) -> bool {
    drivers.contains("nvidia-dkms"@) || drivers.contains("nvidia-open-dkms"@)
}

/// The packages of the base system: the fixed ones, the kernel, the
/// drivers that are not among them yet, the kernel's headers where the
/// drivers need them, and the processor's microcode where it is known.
pub open spec fn base_packages(
    kernel: Seq<char>,
    headers: Seq<char>,
    drivers: Seq<Seq<char>>,
    microcode: Option<Seq<char>>,
) -> Seq<Seq<char>> {
    extend_unique(base_system().push(kernel), drivers) + (if needs_headers(drivers) {
        seq![headers]
    } else {
        Seq::empty()
    }) + (match microcode {
        Some(m) => seq![m],
        None => Seq::empty(),
    })
}

/// The packages of the base system.
pub fn base_package_list(
    kernel: &str,
    headers: &str,
    drivers: &Vec<String>,
    microcode: Option<&str>,
) -> (out: Vec<String>)
    ensures
        texts(out@) == base_packages(
            kernel@,
            headers@,
            texts(drivers@),
            match microcode {
                Some(m) => Some(m@),
                None => None,
            },
        ),
{
    let names = [
        "base",
        "linux-firmware",
        "btrfs-progs",
        "grub",
        "efibootmgr",
        "networkmanager",
        "plymouth",
        "sudo",
        "vim",
        "zram-generator",
    ];
    let mut out = strings(&names);
    out.push(kernel.to_owned());
    assert(texts(out@) =~= base_system().push(kernel@));
    extend_unique_owned(&mut out, clone_strings(drivers));
    if holds(drivers.as_slice(), "nvidia-dkms") || holds(drivers.as_slice(), "nvidia-open-dkms") {
        out.push(headers.to_owned());
    }
    match microcode {
        Some(m) => {
            out.push(m.to_owned());
        },
        None => {},
    }
    out
}

/// The arguments for the program that installs the base system: the
/// settings file where the medium's repository is used, the target, and the
/// packages.
pub open spec fn pacstrap_args_list(offline: bool, packages: Seq<Seq<char>>) -> Seq<Seq<char>> {
    (if offline {
        seq!["-C"@, OFFLINE_PACMAN_CONF_PATH@]
    } else {
        Seq::empty()
    }) + seq!["/mnt"@] + packages
}

/// The arguments for the program that installs the base system.
pub fn pacstrap_args(offline: bool, packages: &Vec<String>) -> (out: Vec<String>)
    ensures
        texts(out@) == pacstrap_args_list(offline, texts(packages@)),
{
    let mut out: Vec<String> = Vec::new();
    if offline {
        out.push("-C".to_owned());
        out.push(OFFLINE_PACMAN_CONF_PATH.to_owned());
    }
    out.push("/mnt".to_owned());
    let ghost head = texts(out@);
    let mut i: usize = 0;
    while i < packages.len()
        invariant
            i <= packages.len(),
            out.len() == head.len() + i,
            texts(out@) =~= head + texts(packages@).take(i as int),
        decreases packages.len() - i,
    {
        let ghost before = texts(out@);
        out.push(packages[i].clone());
        proof {
            assert(texts(out@) =~= before.push(packages@[i as int]@));
        }
        i += 1;
    }
    out
}

/// The message that is logged while the base system is being installed.
pub const PACSTRAP_HEARTBEAT: &'static str = "Still downloading packages...";

/// The command that installs the base system. Where the program `script`
/// is at hand the installation runs under it, so that its output comes line
/// by line; else it runs directly, with the same two settings in its
/// environment.
pub open spec fn pacstrap_view(args: Seq<Seq<char>>, use_script: bool) -> CommandView {
    if use_script {
        CommandView {
            program: "script"@,
            args: seq![
                "-qec"@,
                "SYSTEMD_OFFLINE=1 PACMAN_COLOR=never pacstrap "@ + join(args, " "@),
                "/dev/null"@,
            ],
            input: None,
            envs: Seq::empty(),
            heartbeat: Some(PACSTRAP_HEARTBEAT@),
        }
    } else {
        CommandView {
            program: "pacstrap"@,
            args,
            input: None,
            envs: seq![("SYSTEMD_OFFLINE"@, "1"@), ("PACMAN_COLOR"@, "never"@)],
            heartbeat: Some(PACSTRAP_HEARTBEAT@),
        }
    }
}

/// The line under which the installation of the base system is logged.
pub fn pacstrap_line(args: &Vec<String>) -> (out: String)
    ensures
        out@ == "$ pacstrap "@ + join(texts(args@), " "@),
{
    let mut out = to_chars("$ pacstrap ");
    let joined = join_strings(args, " ");
    append(&mut out, &joined);
    from_chars(&out)
}

/// The command that installs the base system with the arguments `args`.
pub fn run_pacstrap(args: &Vec<String>, use_script: bool) -> (c: CommandSpec)
    ensures
        c@ == pacstrap_view(texts(args@), use_script),
{
    if use_script {
        let mut line = to_chars("SYSTEMD_OFFLINE=1 PACMAN_COLOR=never pacstrap ");
        let joined = join_strings(args, " ");
        append(&mut line, &joined);
        let mut script_args: Vec<String> = Vec::new();
        script_args.push("-qec".to_owned());
        script_args.push(from_chars(&line));
        script_args.push("/dev/null".to_owned());
        let c = CommandSpec::new("script", script_args).with_heartbeat(PACSTRAP_HEARTBEAT);
        assert(c@.args =~= pacstrap_view(texts(args@), use_script).args);
        assert(c@.envs =~= Seq::empty());
        c
    } else {
        let c = CommandSpec::new("pacstrap", clone_strings(args)).with_heartbeat(
            PACSTRAP_HEARTBEAT,
        ).with_env("SYSTEMD_OFFLINE", "1").with_env("PACMAN_COLOR", "never");
        proof {
            let want = pacstrap_view(texts(args@), use_script);
            assert(c@.envs =~= want.envs);
        }
        c
    }
}

/// A command of the package manager in the installed system: `head`, the
/// settings file if one is given, and `packages`; its output is taken as it
/// comes, without colours, and `heartbeat` is logged while it runs.
pub open spec fn pacman_view(
    head: Seq<Seq<char>>,
    conf: Option<Seq<char>>,
    packages: Seq<Seq<char>>,
    heartbeat: Seq<char>,
) -> CommandView {
    CommandView {
        program: crate::command::CHROOT_PROGRAM@,
        args: seq![crate::command::TARGET_ROOT@] + (head + (match conf {
            Some(c) => seq!["--config"@, c],
            None => Seq::empty(),
        }) + packages),
        input: None,
        envs: seq![("PACMAN_COLOR"@, "never"@)],
        heartbeat: Some(heartbeat),
    }
}

fn pacman_command(head: &[&str], conf: Option<&str>, packages: &[String], heartbeat: &str) -> (c:
    CommandSpec)
    ensures
        c@ == pacman_view(
            str_texts(head@),
            match conf {
                Some(p) => Some(p@),
                None => None,
            },
            texts(packages@),
            heartbeat@,
        ),
{
    let mut args = strings(head);
    assert(texts(args@) =~= str_texts(head@));
    let ghost a = texts(args@);
    match conf {
        Some(path) => {
            args.push("--config".to_owned());
            args.push(path.to_owned());
            assert(texts(args@) =~= a + seq!["--config"@, path@]);
        },
        None => {},
    }
    let ghost b = texts(args@);
    let mut i: usize = 0;
    while i < packages.len()
        invariant
            i <= packages.len(),
            args.len() == b.len() + i,
            texts(args@) =~= b + texts(packages@).take(i as int),
        decreases packages.len() - i,
    {
        let ghost before = texts(args@);
        args.push(packages[i].clone());
        proof {
            assert(texts(args@) =~= before.push(packages@[i as int]@));
        }
        i += 1;
    }
    assert(texts(packages@).take(packages.len() as int) =~= texts(packages@));
    let c = CommandSpec::chroot(&args).with_heartbeat(heartbeat).with_env("PACMAN_COLOR", "never");
    proof {
        assert(c@.envs =~= seq![("PACMAN_COLOR"@, "never"@)]);
    }
    c
}

/// The command that installs `packages` in the installed system, with the
/// settings file `pacman_conf` if one is given; none where there is nothing
/// to install.
pub fn install_pacman_packages(packages: &[String], pacman_conf: Option<&str>) -> (r: Option<
    CommandSpec,
>)
    ensures
        r is None <==> packages@.len() == 0,
        r is Some ==> r->0@ == pacman_view(
            seq!["pacman"@, "-S"@, "--noconfirm"@, "--needed"@],
            match pacman_conf {
                Some(p) => Some(p@),
                None => None,
            },
            texts(packages@),
            "Installing packages..."@,
        ),
{
    if packages.len() == 0 {
        return None;
    }
    let head = ["pacman", "-S", "--noconfirm", "--needed"];
    assert(str_texts(head@) =~= seq!["pacman"@, "-S"@, "--noconfirm"@, "--needed"@]);
    Some(pacman_command(&head, pacman_conf, packages, "Installing packages..."))
}

/// The command that brings the package lists of the installed system up to date.
pub fn sync_pacman_databases(pacman_conf: Option<&str>) -> (c: CommandSpec)
    ensures
        c@ == pacman_view(
            seq!["pacman"@, "-Sy"@, "--noconfirm"@],
            match pacman_conf {
                Some(p) => Some(p@),
                None => None,
            },
            Seq::empty(),
            "Syncing package databases..."@,
        ),
{
    let head = ["pacman", "-Sy", "--noconfirm"];
    assert(str_texts(head@) =~= seq!["pacman"@, "-Sy"@, "--noconfirm"@]);
    let none: Vec<String> = Vec::new();
    pacman_command(&head, pacman_conf, none.as_slice(), "Syncing package databases...")
}

/// What is written to the file that lists the optional packages that
/// could not be installed.
pub open spec fn failed_log_text(packages: Seq<Seq<char>>) -> Seq<char>
    decreases packages.len(),
{
    if packages.len() == 0 {
        "Failed optional packages:\n"@
    } else {
        failed_log_text(packages.drop_last()) + packages.last() + "\n"@
    }
}

/// What is written to the file that lists the optional packages that
/// could not be installed; nothing is written where every package was
/// installed.
pub fn failed_packages_log(packages: &[String]) -> (r: Option<String>)
    ensures
        opt_text(r) == (if packages@.len() == 0 {
            None
        } else {
            Some(failed_log_text(texts(packages@)))
        }),
{
    if packages.len() == 0 {
        return None;
    }
    let mut out = to_chars("Failed optional packages:\n");
    let mut i: usize = 0;
    while i < packages.len()
        invariant
            i <= packages.len(),
            out@ == failed_log_text(texts(packages@).take(i as int)),
        decreases packages.len() - i,
    {
        proof {
            let next = texts(packages@).take(i + 1);
            assert(next.drop_last() =~= texts(packages@).take(i as int));
        }
        append_str(&mut out, packages[i].as_str());
        append_str(&mut out, "\n");
        i += 1;
    }
    assert(texts(packages@).take(packages.len() as int) =~= texts(packages@));
    Some(from_chars(&out))
}

/// Which settings the package manager uses.
#[derive(Clone, Copy, Debug, PartialEq, Eq, Structural)]
pub enum Conf {
    /// Its own, which name the network.
    System,
    /// Those for the medium's repository alone.
    Offline,
    /// Those for the medium's repository first and the network second.
    Hybrid,
}

impl Conf {
    /// The path of the settings file in the installed system, if it is
    /// not the package manager's own.
    pub fn path(self) -> (r: Option<&'static str>)
        ensures
            match self {
                Conf::System => r is None,
                Conf::Offline => r is Some && r->0@ == "/etc/pacman.offline.conf"@,
                Conf::Hybrid => r is Some && r->0@ == "/etc/pacman.hybrid.conf"@,
            },
    {
        match self {
            Conf::System => None,
            Conf::Offline => Some("/etc/pacman.offline.conf"),
            Conf::Hybrid => Some("/etc/pacman.hybrid.conf"),
        }
    }
}

/// The settings with which the required packages are installed: those of
/// the medium's repository wherever it is at hand or nothing else may be used.
pub fn required_conf(repo_available: bool, offline_only: bool) -> (c: Conf)
    ensures
        c == (if repo_available || offline_only {
            Conf::Offline
        } else {
            Conf::System
        }),
{
    if repo_available || offline_only {
        Conf::Offline
    } else {
        Conf::System
    }
}

/// The settings with which the optional packages are installed: the
/// medium's repository alone where nothing else may be used, the medium
/// first and then the network where the medium is at hand, and else the network.
pub fn optional_conf(repo_available: bool, offline_only: bool) -> (c: Conf)
    ensures
        c == (if offline_only {
            Conf::Offline
        } else if repo_available {
            Conf::Hybrid
        } else {
            Conf::System
        }),
{
    if offline_only {
        Conf::Offline
    } else if repo_available {
        Conf::Hybrid
    } else {
        Conf::System
    }
}

/// Whether the optional packages need the installer's repository on the
/// network: so where a helper for the user repository is among them, or a
/// package of the user repository was chosen.
pub fn needs_nebula_repo(optional: &[String], aur: &[String]) -> (r: bool)
    ensures
        r == (texts(optional@).contains("yay"@) || texts(optional@).contains("yay-bin"@)
            || aur@.len() > 0),
{
    holds(optional, "yay") || holds(optional, "yay-bin") || aur.len() > 0
}

/// The optional packages of an installation: those of the distribution,
/// then those of the user repository, none of them twice.
pub fn optional_packages(pacman: &Vec<String>, aur: &Vec<String>) -> (out: Vec<String>)
    ensures
        texts(out@) == dedup(texts(pacman@) + texts(aur@)),
{
    let mut all = clone_strings(pacman);
    let mut i: usize = 0;
    while i < aur.len()
        invariant
            i <= aur.len(),
            all.len() == pacman.len() + i,
            texts(all@) =~= texts(pacman@) + texts(aur@).take(i as int),
        decreases aur.len() - i,
    {
        let ghost before = texts(all@);
        all.push(aur[i].clone());
        proof {
            assert(texts(all@) =~= before.push(aur@[i as int]@));
        }
        i += 1;
    }
    assert(texts(aur@).take(aur.len() as int) =~= texts(aur@));
    dedup_packages(all)
}

/// The shell command that gives the user the default settings of the
/// shell, where the user has none.
pub open spec fn zsh_setup_text(username: Seq<char>) -> Seq<char> {
    "if [ -f /etc/skel/.zshrc ] && [ ! -f /home/"@ + username
            + "/.zshrc ]; then cp /etc/skel/.zshrc /home/"@ + username + "/.zshrc; chown "@
            + username + ":"@ + username + " /home/"@ + username
            + "/.zshrc; fi; if [ -d /etc/skel/.config/oh-my-zsh/custom/plugins ]; then mkdir -p /home/"@
            + username
            + "/.config/oh-my-zsh/custom; cp -a -n /etc/skel/.config/oh-my-zsh/custom/plugins /home/"@
            + username + "/.config/oh-my-zsh/custom/; chown -R "@ + username + ":"@ + username
            + " /home/"@ + username + "/.config/oh-my-zsh/custom; fi"@
}

/// The shell command that gives the user the default settings of the
/// shell, where the user has none.
pub fn zsh_setup_command(username: &str) -> (out: String)
    ensures
        out@ == zsh_setup_text(username@),
{
    let mut out = to_chars("if [ -f /etc/skel/.zshrc ] && [ ! -f /home/");
    append_str(&mut out, username);
    append_str(&mut out, "/.zshrc ]; then cp /etc/skel/.zshrc /home/");
    append_str(&mut out, username);
    append_str(&mut out, "/.zshrc; chown ");
    append_str(&mut out, username);
    append_str(&mut out, ":");
    append_str(&mut out, username);
    append_str(&mut out, " /home/");
    append_str(&mut out, username);
    append_str(
        &mut out,
        "/.zshrc; fi; if [ -d /etc/skel/.config/oh-my-zsh/custom/plugins ]; then mkdir -p /home/",
    );
    append_str(&mut out, username);
    append_str(
        &mut out,
        "/.config/oh-my-zsh/custom; cp -a -n /etc/skel/.config/oh-my-zsh/custom/plugins /home/",
    );
    append_str(&mut out, username);
    append_str(&mut out, "/.config/oh-my-zsh/custom/; chown -R ");
    append_str(&mut out, username);
    append_str(&mut out, ":");
    append_str(&mut out, username);
    append_str(&mut out, " /home/");
    append_str(&mut out, username);
    append_str(&mut out, "/.config/oh-my-zsh/custom; fi");
    from_chars(&out)
}

/// What the step that installs the chosen packages does about the
/// repositories and the package lists.
#[derive(Clone, Copy, Debug, PartialEq, Eq, Structural)]
pub struct PackageDecisions {
    /// Whether it is logged that the installer's repository is left out.
    pub note_repo_skipped: bool,
    /// Whether the medium's repository is bound into the installed system
    /// and its settings are written there.
    pub bind_repo: bool,
    /// Whether the settings for the medium first and the network second
    /// are written too.
    pub write_hybrid: bool,
    /// Whether the installer's repository on the network is named in them.
    pub hybrid_names_repo: bool,
    /// Whether the key of the repository is taken from the medium.
    pub import_key: bool,
    /// The settings for the required packages, if there are any.
    pub required: Option<Conf>,
    /// The settings for the optional packages, if there are any.
    pub optional: Option<Conf>,
    /// Whether the package lists are brought up to date before the
    /// optional packages.
    pub sync_before_optional: bool,
    /// Whether the package lists of the network are brought up to date at
    /// the end, for the first boot; a failure of that is only logged.
    pub final_sync: bool,
}

/// What the step that installs the chosen packages does: the medium's
/// repository is used wherever it is at hand; the required packages come
/// from it then, the optional ones from it and the network; and the package
/// lists of the network are synced at the end unless an installation synced
/// them or the network may not be used.
pub open spec fn package_decisions(
    offline_only: bool,
    repo_available: bool,
    key_on_medium: bool,
    has_required: bool,
    has_optional: bool,
    needs_repo: bool,
) -> PackageDecisions {
    let required = if has_required {
        Some(
            if repo_available || offline_only {
                Conf::Offline
            } else {
                Conf::System
            },
        )
    } else {
        None
    };
    let optional = if has_optional {
        Some(
            if offline_only {
                Conf::Offline
            } else if repo_available {
                Conf::Hybrid
            } else {
                Conf::System
            },
        )
    } else {
        None
    };
    PackageDecisions {
        note_repo_skipped: offline_only && needs_repo,
        bind_repo: repo_available,
        write_hybrid: repo_available && !offline_only,
        hybrid_names_repo: needs_repo,
        import_key: repo_available && key_on_medium,
        required,
        optional,
        sync_before_optional: has_optional && !offline_only,
        final_sync: !offline_only && required != Some(Conf::System) && optional != Some(
            Conf::System,
        ),
    }
}

/// What the step that installs the chosen packages does about the
/// repositories and the package lists.
pub fn decide_packages(
    offline_only: bool,
    repo_available: bool,
    key_on_medium: bool,
    has_required: bool,
    has_optional: bool,
    needs_repo: bool,
) -> (d: PackageDecisions)
    ensures
        d == package_decisions(
            offline_only,
            repo_available,
            key_on_medium,
            has_required,
            has_optional,
            needs_repo,
        ),
{
    let required = if has_required {
        Some(required_conf(repo_available, offline_only))
    } else {
        None
    };
    let optional = if has_optional {
        Some(optional_conf(repo_available, offline_only))
    } else {
        None
    };
    let required_synced = match required {
        Some(Conf::System) => true,
        _ => false,
    };
    let optional_synced = match optional {
        Some(Conf::System) => true,
        _ => false,
    };
    PackageDecisions {
        note_repo_skipped: offline_only && needs_repo,
        bind_repo: repo_available,
        write_hybrid: repo_available && !offline_only,
        hybrid_names_repo: needs_repo,
        import_key: repo_available && key_on_medium,
        required,
        optional,
        sync_before_optional: has_optional && !offline_only,
        final_sync: !offline_only && !required_synced && !optional_synced,
    }
}

/// Whether the installer's repository is set up in the installed system:
/// unless the network may not be used and the repository's key is not there.
pub fn sets_up_repo(offline_only: bool, key_in_target: bool) -> (r: bool)
    ensures
        r == (!offline_only || key_in_target),
{
    !offline_only || key_in_target
}

} // verus!
