//! The questions that the installer asks before it starts: the order of its
//! screens, what the summary at their side shows, and what counts as a valid answer.

use crate::disks::DiskInfo;
use crate::drivers::{nvidia_variant_label, variant_label, NvidiaVariant};
use crate::model::opt_text;
use crate::text::{
    contains, contains_str, from_chars, is_digit, lower, lower_chars, same_str, str_eq, texts,
    to_chars,
};
use vstd::prelude::*;

verus! {

/// One line of the review before the installation starts.
#[derive(Debug, Clone, PartialEq, Eq)]
pub struct ReviewItem {
    pub label: String,
    pub value: String,
}

/// How many entries the summary has, not counting the drivers.
pub const SUMMARY_STEP_COUNT: usize = 8;

/// What the summary at the side of the screens shows.
#[derive(Debug, Clone, PartialEq, Eq)]
pub struct InstallSummary {
    /// The index of the entry that is being asked for.
    pub current_index: usize,
    pub network: Option<String>,
    pub drivers: Option<String>,
    pub disk: Option<String>,
    pub keymap: Option<String>,
    pub timezone: Option<String>,
    pub hostname: Option<String>,
    pub username: Option<String>,
    pub encryption: Option<String>,
    pub zram_swap: Option<String>,
    /// Whether the summary has an entry for the drivers.
    pub include_drivers: bool,
}

/// What the user does on the review screen.
pub enum ReviewAction {
    Confirm,
    Back,
    Edit,
    Quit,
}

/// What the user does on the screen of the NVIDIA drivers.
pub enum NvidiaAction {
    Select(NvidiaVariant),
    Back,
    Skip,
    Quit,
}

/// What the user does on a screen that offers a list.
pub enum SelectionAction<T> {
    Submit(T),
    Back,
    Quit,
}

/// What the user does on a screen that asks for text.
pub enum InputAction {
    Submit(String),
    Back,
    Quit,
}

/// What the user does on a screen that asks yes or no.
pub enum ConfirmAction {
    Yes,
    No,
    Back,
    Quit,
}

/// What the user does on the screen of the wireless networks.
pub enum WifiAction {
    Submit(usize),
    Rescan,
    Refresh,
    Continue,
    Quit,
}

/// What the user does on the screen that asks for a network.
pub enum NetworkAction {
    Retry,
    Quit,
}

/// The screens before the installation, in the order in which they ask.
#[derive(Clone, Copy, Debug, PartialEq, Eq, Structural)]
pub enum SetupStep {
    Network,
    Disk,
    ConfirmDisk,
    Keymap,
    Timezone,
    Hostname,
    Username,
    UserPassword,
    EncryptDisk,
    LuksPassword,
    Drivers,
    Swap,
    Applications,
    Review,
}

/// The index of the summary entry that belongs to a screen, in a summary
/// without an entry for the drivers.
pub open spec fn plain_index(step: SetupStep) -> int {
    match step {
        SetupStep::Network => 0,
        SetupStep::Drivers => 1,
        SetupStep::Disk | SetupStep::ConfirmDisk => 1,
        SetupStep::Keymap => 2,
        SetupStep::Timezone => 3,
        SetupStep::Hostname => 4,
        SetupStep::Username | SetupStep::UserPassword => 5,
        SetupStep::EncryptDisk | SetupStep::LuksPassword => 6,
        SetupStep::Swap => 7,
        SetupStep::Applications | SetupStep::Review => SUMMARY_STEP_COUNT as int,
    }
}

/// The index of the summary entry that belongs to a screen. With an entry
/// for the drivers, which comes second, the entries after the network lie
/// one further down; the last two screens lie behind every entry.
pub open spec fn current_index(step: SetupStep, include_drivers: bool) -> int {
    if include_drivers && step != SetupStep::Network && step != SetupStep::Drivers {
        plain_index(step) + 1
    } else {
        plain_index(step)
    }
}

/// The index of the summary entry that belongs to a screen.
pub fn summary_current_index(step: SetupStep, include_drivers: bool) -> (r: usize)
    ensures
        r == current_index(step, include_drivers),
{
    let shift: usize = if include_drivers {
        1
    } else {
        0
    };
    match step {
        SetupStep::Network => 0,
        SetupStep::Drivers => 1,
        SetupStep::Disk | SetupStep::ConfirmDisk => 1 + shift,
        SetupStep::Keymap => 2 + shift,
        SetupStep::Timezone => 3 + shift,
        SetupStep::Hostname => 4 + shift,
        SetupStep::Username | SetupStep::UserPassword => 5 + shift,
        SetupStep::EncryptDisk | SetupStep::LuksPassword => 6 + shift,
        SetupStep::Swap => 7 + shift,
        SetupStep::Applications | SetupStep::Review => SUMMARY_STEP_COUNT + shift,
    }
}

/// What the summary says of the drivers: the driver chosen, or that the
/// choice was skipped; nothing in a summary without that entry.
pub open spec fn drivers_entry(include_drivers: bool, variant: Option<NvidiaVariant>) -> Option<
    Seq<char>,
> {
    if include_drivers {
        Some(
            match variant {
                Some(v) => variant_label(v),
                None => "Skipped"@,
            },
        )
    } else {
        None
    }
}

/// What the summary says of the user: the name, once a password is set too.
pub open spec fn username_entry(username: Seq<char>, user_password: Seq<char>) -> Option<
    Seq<char>,
> {
    if user_password.len() == 0 || username.len() == 0 {
        None
    } else {
        Some(username)
    }
}

/// What the summary says of the encryption: `no`, or, once a passphrase is
/// set, the encrypted file system.
pub open spec fn encryption_entry(encrypt_disk: bool, luks_password: Seq<char>) -> Option<
    Seq<char>,
> {
    if !encrypt_disk {
        Some("no"@)
    } else if luks_password.len() == 0 {
        None
    } else {
        Some("Btrfs (LUKS encrypted)"@)
    }
}

fn owned_opt(s: Option<&str>) -> (r: Option<String>)
    ensures
        opt_text(r) == (match s {
            Some(t) => Some(t@),
            None => None,
        }),
{
    match s {
        Some(t) => Some(t.to_owned()),
        None => None,
    }
}

/// The summary for the screen `step`, from the answers given so far.
pub fn build_install_summary(
    step: SetupStep,
    include_drivers: bool,
    network: Option<&str>,
    selected_disk: Option<&DiskInfo>,
    keymap: &str,
    timezone: &str,
    hostname: &str,
    username: &str,
    user_password: &str,
    luks_password: &str,
    encrypt_disk: bool,
    swap_enabled: bool,
    nvidia_variant: Option<NvidiaVariant>,
) -> (s: InstallSummary)
    ensures
        s.current_index == current_index(step, include_drivers),
        s.include_drivers == include_drivers,
        opt_text(s.network) == (match network {
            Some(t) => Some(t@),
            None => None,
        }),
        opt_text(s.drivers) == drivers_entry(include_drivers, nvidia_variant),
        opt_text(s.disk) == (match selected_disk {
            Some(d) => Some(d@.label()),
            None => None,
        }),
        opt_text(s.keymap) == Some(keymap@),
        opt_text(s.timezone) == Some(timezone@),
        opt_text(s.hostname) == Some(hostname@),
        opt_text(s.username) == username_entry(username@, user_password@),
        opt_text(s.encryption) == encryption_entry(encrypt_disk, luks_password@),
        opt_text(s.zram_swap) == Some(
            if swap_enabled {
                "yes"@
            } else {
                "no"@
            },
        ),
{
    let drivers = if include_drivers {
        Some(
            match nvidia_variant {
                Some(v) => nvidia_variant_label(v).to_owned(),
                None => "Skipped".to_owned(),
            },
        )
    } else {
        None
    };
    let disk = match selected_disk {
        Some(d) => Some(d.label()),
        None => None,
    };
    let user = if user_password.is_empty() || username.is_empty() {
        None
    } else {
        Some(username.to_owned())
    };
    let encryption = if !encrypt_disk {
        Some("no".to_owned())
    } else if luks_password.is_empty() {
        None
    } else {
        Some("Btrfs (LUKS encrypted)".to_owned())
    };
    let swap = if swap_enabled {
        "yes".to_owned()
    } else {
        "no".to_owned()
    };
    InstallSummary {
        current_index: summary_current_index(step, include_drivers),
        network: owned_opt(network),
        drivers,
        disk,
        keymap: Some(keymap.to_owned()),
        timezone: Some(timezone.to_owned()),
        hostname: Some(hostname.to_owned()),
        username: user,
        encryption,
        zram_swap: Some(swap),
        include_drivers,
    }
}

/// How an entry of the summary stands.
#[derive(Clone, Copy, Debug, PartialEq, Eq, Structural)]
pub enum SummaryStatus {
    Pending,
    Current,
    Done,
}

/// How the entry `idx` of a summary with `entries` entries stands when
/// `current` is being asked for: entries before it are done, and so is every
/// entry once the asking has gone past the last.
pub fn summary_status(idx: usize, current: usize, entries: usize) -> (r: SummaryStatus)
    ensures
        r == (if current >= entries || idx < current {
            SummaryStatus::Done
        } else if idx == current {
            SummaryStatus::Current
        } else {
            SummaryStatus::Pending
        }),
{
    if current >= entries || idx < current {
        SummaryStatus::Done
    } else if idx == current {
        SummaryStatus::Current
    } else {
        SummaryStatus::Pending
    }
}

/// A lower-case ASCII letter.
pub open spec fn is_lower(c: char) -> bool {
    'a' <= c <= 'z'
}

/// A character that a user name may hold after its first.
pub open spec fn is_name_char(c: char) -> bool {
    is_lower(c) || is_digit(c) || c == '_' || c == '-'
}

/// A valid user name: not `root`, a lower-case letter first, then
/// lower-case letters, digits, `_` and `-`.
pub open spec fn username_ok(value: Seq<char>) -> bool {
    &&& value.len() > 0
    &&& value != "root"@
    &&& is_lower(value[0])
    &&& forall|i: int| 1 <= i < value.len() ==> is_name_char(#[trigger] value[i])
}

/// Whether `value` is a valid user name.
pub fn valid_username(value: &str) -> (r: bool)
    ensures
        r == username_ok(value@),
{
    let v = to_chars(value);
    if v.len() == 0 || same_str(&v, "root") {
        return false;
    }
    if !('a' <= v[0] && v[0] <= 'z') {
        return false;
    }
    let mut i: usize = 1;
    while i < v.len()
        invariant
            1 <= i <= v.len(),
            v@ == value@,
            value@ != "root"@,
            is_lower(v@[0]),
            forall|j: int| 1 <= j < i ==> is_name_char(#[trigger] v@[j]),
        decreases v.len() - i,
    {
        let c = v[i];
        if !(('a' <= c && c <= 'z') || ('0' <= c && c <= '9') || c == '_' || c == '-') {
            return false;
        }
        i += 1;
    }
    true
}

/// A character that a host name may hold.
pub open spec fn is_host_char(c: char) -> bool {
    ('a' <= c <= 'z') || ('A' <= c <= 'Z') || is_digit(c) || c == '-'
}

/// A valid host name: one to 63 ASCII letters, digits and hyphens.
pub open spec fn hostname_ok(value: Seq<char>) -> bool {
    &&& 0 < value.len() <= 63
    &&& forall|i: int| 0 <= i < value.len() ==> is_host_char(#[trigger] value[i])
}

/// Whether `value` is a valid host name.
pub fn valid_hostname(value: &str) -> (r: bool)
    ensures
        r == hostname_ok(value@),
{
    let v = to_chars(value);
    if v.len() == 0 || v.len() > 63 {
        return false;
    }
    let mut i: usize = 0;
    while i < v.len()
        invariant
            i <= v.len(),
            v@ == value@,
            0 < v.len() <= 63,
            forall|j: int| 0 <= j < i ==> is_host_char(#[trigger] v@[j]),
        decreases v.len() - i,
    {
        let c = v[i];
        if !(('a' <= c && c <= 'z') || ('A' <= c && c <= 'Z') || ('0' <= c && c <= '9') || c
            == '-') {
            return false;
        }
        i += 1;
    }
    true
}

/// Whether a message of the network manager speaks of a wrong password:
/// it holds one of a few words, in either case of its ASCII letters.
pub open spec fn auth_error(message: Seq<char>) -> bool {
    let msg = lower(message);
    contains(msg, "password"@) || contains(msg, "secrets"@) || contains(msg, "auth"@) || contains(
        msg,
        "authentication"@,
    ) || contains(msg, "access denied"@)
}

/// Whether a message of the network manager speaks of a wrong password.
pub fn is_wifi_auth_error(message: &str) -> (r: bool)
    ensures
        r == auth_error(message@),
{
    let msg = lower_chars(&to_chars(message));
    contains_str(&msg, "password") || contains_str(&msg, "secrets") || contains_str(&msg, "auth")
        || contains_str(&msg, "authentication") || contains_str(&msg, "access denied")
}

/// `flags` cut or filled with unset flags to the length `len`.
pub open spec fn normalized_flags(flags: Seq<bool>, len: nat) -> Seq<bool> {
    Seq::new(
        len,
        |i: int|
            if i < flags.len() {
                flags[i]
            } else {
                false
            },
    )
}

/// Cuts `flags`, or fills it with unset flags, to the length `len`.
pub fn normalize_flags(flags: &mut Vec<bool>, len: usize)
    ensures
        final(flags)@ == normalized_flags(old(flags)@, len as nat),
{
    flags.truncate(len);
    while flags.len() < len
        invariant
            flags.len() <= len,
            old(flags)@.len() <= flags.len() || flags.len() == len,
            flags@ =~= normalized_flags(old(flags)@, flags.len() as nat),
        decreases len - flags.len(),
    {
        flags.push(false);
    }
}

/// The indices of the first `n` items that hold `needle`, case of ASCII
/// letters aside.
pub open spec fn matching(items: Seq<Seq<char>>, needle: Seq<char>, n: int) -> Seq<usize>
    decreases n,
{
    if n <= 0 {
        Seq::empty()
    } else {
        matching(items, needle, n - 1) + (if contains(lower(items[n - 1]), lower(needle)) {
            seq![(n - 1) as usize]
        } else {
            Seq::empty()
        })
    }
}

/// The indices of the items that a search for `query` shows: every index
/// for an empty query, and else those of the items that hold the query, case
/// of ASCII letters aside.
pub fn filter_items(items: &[String], query: &str) -> (out: Vec<usize>)
    ensures
        out@ == (if query@.len() == 0 {
            Seq::new(items@.len(), |i: int| i as usize)
        } else {
            matching(texts(items@), query@, items@.len() as int)
        }),
{
    let mut out: Vec<usize> = Vec::new();
    if query.is_empty() {
        let mut i: usize = 0;
        while i < items.len()
            invariant
                i <= items.len(),
                out@ =~= Seq::new(i as nat, |k: int| k as usize),
            decreases items.len() - i,
        {
            out.push(i);
            i += 1;
        }
        return out;
    }
    let needle = from_chars(&lower_chars(&to_chars(query)));
    let mut i: usize = 0;
    while i < items.len()
        invariant
            i <= items.len(),
            needle@ == lower(query@),
            out@ == matching(texts(items@), query@, i as int),
        decreases items.len() - i,
    {
        let item = lower_chars(&to_chars(items[i].as_str()));
        if contains_str(&item, needle.as_str()) {
            out.push(i);
        }
        i += 1;
    }
    out
}

/// How many key bindings the help box lists.
pub const KEYBIND_COUNT: u16 = 2;

/// The height of the help box: its lines, its border and its padding.
pub fn keybinds_height() -> (h: u16)
    ensures
        h == KEYBIND_COUNT + 3,
{
    KEYBIND_COUNT + 3
}

/// The icon that the review shows before an entry.
pub open spec fn icon_of(label: Seq<char>) -> Seq<char> {
    if label == "Network"@ {
        "\u{f1eb} "@
    } else if label == "Disk"@ {
        "\u{f0a0} "@
    } else if label == "Filesystem"@ {
        "\u{f023} "@
    } else if label == "GPU"@ {
        "\u{f1c0} "@
    } else if label == "Swap"@ {
        "\u{f126} "@
    } else if label == "Hostname"@ {
        "\u{f109} "@
    } else if label == "Username"@ {
        "\u{f007} "@
    } else if label == "Keyboard"@ {
        "\u{f11c} "@
    } else if label == "Timezone"@ {
        "\u{f0ac} "@
    } else if label == "Compositor"@ {
        "\u{f2d0} "@
    } else if label == "Browsers"@ {
        "\u{f0ac} "@
    } else if label == "Editors"@ {
        "\u{f121} "@
    } else if label == "Terminals"@ {
        "\u{f120} "@
    } else {
        "\u{f109} "@
    }
}

/// The icon that the review shows before the entry `label`.
pub fn review_icon(label: &str) -> (r: &'static str)
    ensures
        r@ == icon_of(label@),
{
    if str_eq(label, "Network") {
        "\u{f1eb} "
    } else if str_eq(label, "Disk") {
        "\u{f0a0} "
    } else if str_eq(label, "Filesystem") {
        "\u{f023} "
    } else if str_eq(label, "GPU") {
        "\u{f1c0} "
    } else if str_eq(label, "Swap") {
        "\u{f126} "
    } else if str_eq(label, "Hostname") {
        "\u{f109} "
    } else if str_eq(label, "Username") {
        "\u{f007} "
    } else if str_eq(label, "Keyboard") {
        "\u{f11c} "
    } else if str_eq(label, "Timezone") {
        "\u{f0ac} "
    } else if str_eq(label, "Compositor") {
        "\u{f2d0} "
    } else if str_eq(label, "Browsers") {
        "\u{f0ac} "
    } else if str_eq(label, "Editors") {
        "\u{f121} "
    } else if str_eq(label, "Terminals") {
        "\u{f120} "
    } else {
        "\u{f109} "
    }
}

/// How the user leaves a screen.
#[derive(Clone, Copy, Debug, PartialEq, Eq, Structural)]
pub enum Move {
    /// With an answer that is taken, or with `Yes`.
    Forward,
    /// With `No`, on a screen that asks yes or no.
    Decline,
    /// Back to the screen before.
    Back,
    /// Back to the first screen, from the review.
    Edit,
}

/// Where a screen leads, or that the installation begins.
#[derive(Clone, Copy, Debug, PartialEq, Eq, Structural)]
pub enum Leads {
    /// To this screen.
    To(SetupStep),
    /// To the installation.
    Install,
}

/// Where the user gets from `step` by `how`. `nvidia` says whether the
/// machine has NVIDIA hardware, for which the drivers are asked; `encrypt`
/// says whether the disk is to be encrypted, as far as that is answered.
///
/// The screens follow each other in the order network, drivers, disk and
/// its confirmation, keyboard, time zone, host name, user and password,
/// encryption and passphrase, swap, applications, review. Declining the
/// erasure of the disk leads back to the disks, declining the encryption
/// past the passphrase; going back skips the screens that were not asked.
pub open spec fn leads_to(step: SetupStep, how: Move, nvidia: bool, encrypt: bool) -> Leads {
    let after_network = if nvidia {
        SetupStep::Drivers
    } else {
        SetupStep::Disk
    };
    match how {
        Move::Edit => Leads::To(SetupStep::Network),
        Move::Back => Leads::To(
            match step {
                SetupStep::Network => SetupStep::Network,
                SetupStep::Drivers => SetupStep::Network,
                SetupStep::Disk => if nvidia {
                    SetupStep::Drivers
                } else {
                    SetupStep::Network
                },
                SetupStep::ConfirmDisk => SetupStep::Disk,
                SetupStep::Keymap => SetupStep::ConfirmDisk,
                SetupStep::Timezone => SetupStep::Keymap,
                SetupStep::Hostname => SetupStep::Timezone,
                SetupStep::Username => SetupStep::Hostname,
                SetupStep::UserPassword => SetupStep::Username,
                SetupStep::EncryptDisk => SetupStep::UserPassword,
                SetupStep::LuksPassword => SetupStep::EncryptDisk,
                SetupStep::Swap => if encrypt {
                    SetupStep::LuksPassword
                } else {
                    SetupStep::EncryptDisk
                },
                SetupStep::Applications => SetupStep::Swap,
                SetupStep::Review => SetupStep::Applications,
            },
        ),
        Move::Decline => Leads::To(
            match step {
                SetupStep::ConfirmDisk => SetupStep::Disk,
                SetupStep::EncryptDisk => SetupStep::Swap,
                SetupStep::Swap => SetupStep::Applications,
                SetupStep::Drivers => SetupStep::Disk,
                _ => step,
            },
        ),
        Move::Forward => match step {
            SetupStep::Network => Leads::To(after_network),
            SetupStep::Drivers => Leads::To(SetupStep::Disk),
            SetupStep::Disk => Leads::To(SetupStep::ConfirmDisk),
            SetupStep::ConfirmDisk => Leads::To(SetupStep::Keymap),
            SetupStep::Keymap => Leads::To(SetupStep::Timezone),
            SetupStep::Timezone => Leads::To(SetupStep::Hostname),
            SetupStep::Hostname => Leads::To(SetupStep::Username),
            SetupStep::Username => Leads::To(SetupStep::UserPassword),
            SetupStep::UserPassword => Leads::To(SetupStep::EncryptDisk),
            SetupStep::EncryptDisk => Leads::To(SetupStep::LuksPassword),
            SetupStep::LuksPassword => Leads::To(SetupStep::Swap),
            SetupStep::Swap => Leads::To(SetupStep::Applications),
            SetupStep::Applications => Leads::To(SetupStep::Review),
            SetupStep::Review => Leads::Install,
        },
    }
}

/// Where the user gets from `step` by `how`.
pub fn next_screen(step: SetupStep, how: Move, nvidia: bool, encrypt: bool) -> (r: Leads)
    ensures
        r == leads_to(step, how, nvidia, encrypt),
{
    match how {
        Move::Edit => Leads::To(SetupStep::Network),
        Move::Back => Leads::To(
            match step {
                SetupStep::Network => SetupStep::Network,
                SetupStep::Drivers => SetupStep::Network,
                SetupStep::Disk => if nvidia {
                    SetupStep::Drivers
                } else {
                    SetupStep::Network
                },
                SetupStep::ConfirmDisk => SetupStep::Disk,
                SetupStep::Keymap => SetupStep::ConfirmDisk,
                SetupStep::Timezone => SetupStep::Keymap,
                SetupStep::Hostname => SetupStep::Timezone,
                SetupStep::Username => SetupStep::Hostname,
                SetupStep::UserPassword => SetupStep::Username,
                SetupStep::EncryptDisk => SetupStep::UserPassword,
                SetupStep::LuksPassword => SetupStep::EncryptDisk,
                SetupStep::Swap => if encrypt {
                    SetupStep::LuksPassword
                } else {
                    SetupStep::EncryptDisk
                },
                SetupStep::Applications => SetupStep::Swap,
                SetupStep::Review => SetupStep::Applications,
            },
        ),
        Move::Decline => Leads::To(
            match step {
                SetupStep::ConfirmDisk => SetupStep::Disk,
                SetupStep::EncryptDisk => SetupStep::Swap,
                SetupStep::Swap => SetupStep::Applications,
                SetupStep::Drivers => SetupStep::Disk,
                _ => step,
            },
        ),
        Move::Forward => match step {
            SetupStep::Network => Leads::To(
                if nvidia {
                    SetupStep::Drivers
                } else {
                    SetupStep::Disk
                },
            ),
            SetupStep::Drivers => Leads::To(SetupStep::Disk),
            SetupStep::Disk => Leads::To(SetupStep::ConfirmDisk),
            SetupStep::ConfirmDisk => Leads::To(SetupStep::Keymap),
            SetupStep::Keymap => Leads::To(SetupStep::Timezone),
            SetupStep::Timezone => Leads::To(SetupStep::Hostname),
            SetupStep::Hostname => Leads::To(SetupStep::Username),
            SetupStep::Username => Leads::To(SetupStep::UserPassword),
            SetupStep::UserPassword => Leads::To(SetupStep::EncryptDisk),
            SetupStep::EncryptDisk => Leads::To(SetupStep::LuksPassword),
            SetupStep::LuksPassword => Leads::To(SetupStep::Swap),
            SetupStep::Swap => Leads::To(SetupStep::Applications),
            SetupStep::Applications => Leads::To(SetupStep::Review),
            SetupStep::Review => Leads::Install,
        },
    }
}

/// The host name that an input stands for: the input, trimmed, if it is a
/// valid host name; `nebula` for an empty input; none for anything else.
pub open spec fn hostname_of(input: Seq<char>) -> Option<Seq<char>> {
    let value = crate::text::trim(input);
    if value.len() == 0 {
        Some("nebula"@)
    } else if hostname_ok(value) {
        Some(value)
    } else {
        None
    }
}

/// The host name that an input stands for.
pub fn hostname_from_input(input: &str) -> (r: Option<String>)
    ensures
        opt_text(r) == hostname_of(input@),
{
    let value = from_chars(&crate::text::trim_chars(&to_chars(input)));
    if value.as_str().is_empty() {
        Some("nebula".to_owned())
    } else if valid_hostname(value.as_str()) {
        Some(value)
    } else {
        None
    }
}

/// The user name that an input stands for: the input, trimmed, if it is
/// a valid user name.
pub fn username_from_input(input: &str) -> (r: Option<String>)
    ensures
        opt_text(r) == (if username_ok(crate::text::trim(input@)) {
            Some(crate::text::trim(input@))
        } else {
            None
        }),
{
    let value = from_chars(&crate::text::trim_chars(&to_chars(input)));
    if valid_username(value.as_str()) {
        Some(value)
    } else {
        None
    }
}

} // verus!
