use nebula_installer::disks::DiskInfo;
use nebula_installer::drivers::NvidiaVariant;
use nebula_installer::summary::{
    build_install_summary, filter_items, hostname_from_input, is_wifi_auth_error,
    keybinds_height, next_screen, normalize_flags, review_icon, summary_current_index,
    summary_status, username_from_input, valid_hostname, valid_username, Leads, Move,
    SetupStep, SummaryStatus, SUMMARY_STEP_COUNT,
};

#[test]
fn summary_indices() {
    let steps = [
        (SetupStep::Network, 0, 0),
        (SetupStep::Drivers, 1, 1),
        (SetupStep::Disk, 1, 2),
        (SetupStep::ConfirmDisk, 1, 2),
        (SetupStep::Keymap, 2, 3),
        (SetupStep::Timezone, 3, 4),
        (SetupStep::Hostname, 4, 5),
        (SetupStep::Username, 5, 6),
        (SetupStep::UserPassword, 5, 6),
        (SetupStep::EncryptDisk, 6, 7),
        (SetupStep::LuksPassword, 6, 7),
        (SetupStep::Swap, 7, 8),
        (SetupStep::Applications, 8, 9),
        (SetupStep::Review, 8, 9),
    ];
    for (step, without, with) in steps {
        assert_eq!(summary_current_index(step, false), without, "{:?}", step);
        assert_eq!(summary_current_index(step, true), with, "{:?}", step);
    }
    assert_eq!(SUMMARY_STEP_COUNT, 8);
}

#[test]
fn summaries_are_built() {
    let disk = DiskInfo { name: "sda".into(), size: "10G".into(), model: "QEMU".into() };
    let s = build_install_summary(
        SetupStep::Keymap,
        true,
        Some("Wired"),
        Some(&disk),
        "us",
        "UTC",
        "nebula",
        "kevin",
        "secret",
        "passphrase",
        true,
        false,
        Some(NvidiaVariant::Open),
    );
    assert_eq!(s.current_index, 3);
    assert!(s.include_drivers);
    assert_eq!(s.network.as_deref(), Some("Wired"));
    assert_eq!(s.drivers.as_deref(), Some("open"));
    assert_eq!(s.disk.as_deref(), Some("sda (10G) QEMU"));
    assert_eq!(s.keymap.as_deref(), Some("us"));
    assert_eq!(s.timezone.as_deref(), Some("UTC"));
    assert_eq!(s.hostname.as_deref(), Some("nebula"));
    assert_eq!(s.username.as_deref(), Some("kevin"));
    assert_eq!(s.encryption.as_deref(), Some("Btrfs (LUKS encrypted)"));
    assert_eq!(s.zram_swap.as_deref(), Some("no"));

    let t = build_install_summary(
        SetupStep::Network,
        false,
        None,
        None,
        "",
        "",
        "",
        "kevin",
        "",
        "",
        true,
        true,
        Some(NvidiaVariant::Open),
    );
    assert_eq!(t.current_index, 0);
    assert_eq!(t.network, None);
    assert_eq!(t.drivers, None);
    assert_eq!(t.disk, None);
    assert_eq!(t.keymap.as_deref(), Some(""));
    assert_eq!(t.username, None);
    assert_eq!(t.encryption, None);
    assert_eq!(t.zram_swap.as_deref(), Some("yes"));

    let u = build_install_summary(
        SetupStep::Review, true, None, None, "", "", "", "", "pw", "pw", false, true, None,
    );
    assert_eq!(u.current_index, 9);
    assert_eq!(u.drivers.as_deref(), Some("Skipped"));
    assert_eq!(u.username, None);
    assert_eq!(u.encryption.as_deref(), Some("no"));
}

#[test]
fn entry_statuses() {
    assert_eq!(summary_status(0, 2, 8), SummaryStatus::Done);
    assert_eq!(summary_status(2, 2, 8), SummaryStatus::Current);
    assert_eq!(summary_status(3, 2, 8), SummaryStatus::Pending);
    assert_eq!(summary_status(7, 8, 8), SummaryStatus::Done);
    assert_eq!(summary_status(7, 9, 8), SummaryStatus::Done);
}

#[test]
fn user_names() {
    for good in ["kevin", "k", "k9", "k_-", "a-b_c1"] {
        assert!(valid_username(good), "{}", good);
    }
    for bad in ["", "root", "Kevin", "9k", "_k", "-k", "k.", "k K", "k\u{e9}", "kevin "] {
        assert!(!valid_username(bad), "{:?}", bad);
    }
    assert!(valid_username("roots"));
    assert!(valid_username("roo"));
}

#[test]
fn host_names() {
    let longest = "a".repeat(63);
    let too_long = "a".repeat(64);
    for good in ["nebula", "My-Host-01", "-", "7", longest.as_str()] {
        assert!(valid_hostname(good), "{}", good);
    }
    for bad in ["", "my_host", "my host", "h\u{f6}st", "a.b", too_long.as_str()] {
        assert!(!valid_hostname(bad), "{:?}", bad);
    }
}

#[test]
fn wrong_passwords() {
    for message in [
        "Error: Secrets were required, but not provided",
        "802-11-wireless-security.psk: property is invalid (PASSWORD)",
        "Access Denied",
        "not authorized",
        "AUTHENTICATION failed",
    ] {
        assert!(is_wifi_auth_error(message), "{}", message);
        assert_eq!(
            is_wifi_auth_error(message),
            {
                let m = message.to_lowercase();
                m.contains("password") || m.contains("secrets") || m.contains("auth")
                    || m.contains("authentication") || m.contains("access denied")
            }
        );
    }
    for message in ["", "No network with SSID 'x' found", "accessdenied", "Timeout"] {
        assert!(!is_wifi_auth_error(message), "{}", message);
    }
    // letters beyond ASCII do not make a word of the list
    for message in [
        "AUTHENT\u{130}CATION",
        "ACCESS DEN\u{130}ED",
        "PA\u{17f}SWORD",
        "\u{212a}EY SECRET\u{17f}",
        "ACCE\u{1e9e} DENIED",
        "\u{c4}UTH",
    ] {
        let m = message.to_lowercase();
        let want = m.contains("password") || m.contains("secrets") || m.contains("auth")
            || m.contains("authentication") || m.contains("access denied");
        assert_eq!(is_wifi_auth_error(message), want, "{}", message);
    }
}

#[test]
fn flags_are_fitted() {
    let mut flags = vec![true, false, true];
    normalize_flags(&mut flags, 5);
    assert_eq!(flags, vec![true, false, true, false, false]);
    normalize_flags(&mut flags, 2);
    assert_eq!(flags, vec![true, false]);
    normalize_flags(&mut flags, 2);
    assert_eq!(flags, vec![true, false]);
    normalize_flags(&mut flags, 0);
    assert!(flags.is_empty());
}

#[test]
fn searching_a_list() {
    let items: Vec<String> =
        ["Europe/Berlin", "Europe/Paris", "America/New_York", "UTC"].iter().map(|s| s.to_string()).collect();
    assert_eq!(filter_items(&items, ""), vec![0, 1, 2, 3]);
    assert_eq!(filter_items(&items, "europe"), vec![0, 1]);
    assert_eq!(filter_items(&items, "RI"), vec![1, 2]);
    assert_eq!(filter_items(&items, "utc"), vec![3]);
    assert_eq!(filter_items(&items, "mars"), Vec::<usize>::new());
    assert_eq!(filter_items(&[], "x"), Vec::<usize>::new());
    assert_eq!(filter_items(&[], ""), Vec::<usize>::new());
}

#[test]
fn icons_and_heights() {
    assert_eq!(keybinds_height(), 5);
    assert_eq!(review_icon("Network"), "\u{f1eb} ");
    assert_eq!(review_icon("Disk"), "\u{f0a0} ");
    assert_eq!(review_icon("Filesystem"), "\u{f023} ");
    assert_eq!(review_icon("GPU"), "\u{f1c0} ");
    assert_eq!(review_icon("Swap"), "\u{f126} ");
    assert_eq!(review_icon("Hostname"), "\u{f109} ");
    assert_eq!(review_icon("Username"), "\u{f007} ");
    assert_eq!(review_icon("Keyboard"), "\u{f11c} ");
    assert_eq!(review_icon("Timezone"), "\u{f0ac} ");
    assert_eq!(review_icon("Compositor"), "\u{f2d0} ");
    assert_eq!(review_icon("Browsers"), "\u{f0ac} ");
    assert_eq!(review_icon("Editors"), "\u{f121} ");
    assert_eq!(review_icon("Terminals"), "\u{f120} ");
    assert_eq!(review_icon("anything else"), "\u{f109} ");
}

#[test]
fn screens_follow_each_other() {
    let order = [
        SetupStep::Network,
        SetupStep::Drivers,
        SetupStep::Disk,
        SetupStep::ConfirmDisk,
        SetupStep::Keymap,
        SetupStep::Timezone,
        SetupStep::Hostname,
        SetupStep::Username,
        SetupStep::UserPassword,
        SetupStep::EncryptDisk,
        SetupStep::LuksPassword,
        SetupStep::Swap,
        SetupStep::Applications,
        SetupStep::Review,
    ];
    for i in 0..order.len() - 1 {
        assert_eq!(next_screen(order[i], Move::Forward, true, true), Leads::To(order[i + 1]));
        assert_eq!(next_screen(order[i + 1], Move::Back, true, true), Leads::To(order[i]));
    }
    assert_eq!(next_screen(SetupStep::Review, Move::Forward, true, true), Leads::Install);
    assert_eq!(next_screen(SetupStep::Network, Move::Back, true, true), Leads::To(SetupStep::Network));
}

#[test]
fn screens_that_were_not_asked_are_passed_over() {
    assert_eq!(
        next_screen(SetupStep::Network, Move::Forward, false, true),
        Leads::To(SetupStep::Disk)
    );
    assert_eq!(next_screen(SetupStep::Disk, Move::Back, false, true), Leads::To(SetupStep::Network));
    assert_eq!(
        next_screen(SetupStep::Swap, Move::Back, true, false),
        Leads::To(SetupStep::EncryptDisk)
    );
    assert_eq!(
        next_screen(SetupStep::EncryptDisk, Move::Decline, true, false),
        Leads::To(SetupStep::Swap)
    );
    assert_eq!(
        next_screen(SetupStep::ConfirmDisk, Move::Decline, true, true),
        Leads::To(SetupStep::Disk)
    );
    assert_eq!(
        next_screen(SetupStep::Swap, Move::Decline, true, true),
        Leads::To(SetupStep::Applications)
    );
    assert_eq!(
        next_screen(SetupStep::Drivers, Move::Decline, true, true),
        Leads::To(SetupStep::Disk)
    );
    assert_eq!(next_screen(SetupStep::Review, Move::Edit, true, true), Leads::To(SetupStep::Network));
}

#[test]
fn names_are_taken_from_the_input() {
    assert_eq!(hostname_from_input("  "), Some("nebula".to_string()));
    assert_eq!(hostname_from_input(" my-host \n"), Some("my-host".to_string()));
    assert_eq!(hostname_from_input("-ok"), Some("-ok".to_string()));
    assert_eq!(hostname_from_input("bad_name"), None);
    assert_eq!(hostname_from_input("has space"), None);
    assert_eq!(username_from_input(" kevin "), Some("kevin".to_string()));
    assert_eq!(username_from_input(""), None);
    assert_eq!(username_from_input("Kevin"), None);
}
