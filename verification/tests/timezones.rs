use nebula_installer::keymaps::{find_keymap_index, parse_keymaps};
use nebula_installer::timezones::{
    find_timezone_index, is_utc_variant, json_string_field, local_zone, normalize_timezone,
    parse_zone_table, zone_of_path,
};

fn names(items: &[&str]) -> Vec<String> {
    items.iter().map(|s| s.to_string()).collect()
}

#[test]
fn finding() {
    let zones = names(&["Africa/Cairo", "Europe/Berlin", "UTC", "Europe/Berlin"]);
    assert_eq!(find_timezone_index(&zones, "Europe/Berlin"), Some(1));
    assert_eq!(find_timezone_index(&zones, "UTC"), Some(2));
    assert_eq!(find_timezone_index(&zones, "europe/berlin"), None);
    assert_eq!(find_timezone_index(&[], "UTC"), None);
    let maps = names(&["de", "us"]);
    assert_eq!(find_keymap_index(&maps, "us"), Some(1));
    assert_eq!(find_keymap_index(&maps, "fr"), None);
}

#[test]
fn universal_time_has_four_names() {
    for name in ["UTC", "Etc/UTC", "Etc/GMT", "GMT"] {
        assert!(is_utc_variant(name));
    }
    for name in ["utc", "Etc/GMT+1", "", "Europe/London"] {
        assert!(!is_utc_variant(name));
    }
}

#[test]
fn normalizing() {
    let zones = names(&["Europe/Berlin", "Etc/UTC", "GMT"]);
    assert_eq!(normalize_timezone(&zones, "Europe/Berlin"), Some("Europe/Berlin".to_string()));
    assert_eq!(normalize_timezone(&zones, "GMT"), Some("GMT".to_string()));
    assert_eq!(normalize_timezone(&zones, "UTC"), Some("Etc/UTC".to_string()));
    assert_eq!(normalize_timezone(&zones, "Mars/Base"), Some("Etc/UTC".to_string()));
    assert_eq!(normalize_timezone(&names(&["GMT"]), "UTC"), Some("GMT".to_string()));
    assert_eq!(normalize_timezone(&names(&["GMT"]), "Mars/Base"), None);
    assert_eq!(normalize_timezone(&names(&["UTC", "Etc/UTC"]), "Mars/Base"), Some("Etc/UTC".to_string()));
    assert_eq!(normalize_timezone(&[], "UTC"), None);
}

#[test]
fn json_fields() {
    let body = "{\"ip\": \"1.2.3.4\", \"timezone\": \"Europe/Berlin\", \"utc_offset\": \"+0100\"}";
    assert_eq!(json_string_field(body, "timezone"), Some("Europe/Berlin".to_string()));
    assert_eq!(json_string_field(body, "ip"), Some("1.2.3.4".to_string()));
    assert_eq!(json_string_field(body, "city"), None);
    assert_eq!(json_string_field("{\"timezone\":\"\"}", "timezone"), Some(String::new()));
    assert_eq!(json_string_field("{\"timezone\" :   \"A/B\"}", "timezone"), Some("A/B".to_string()));
    assert_eq!(json_string_field("{\"timezone\": null, \"x\": \"y\"}", "timezone"), Some("x".to_string()));
    assert_eq!(json_string_field("{\"timezone\": \"cut", "timezone"), None);
    assert_eq!(json_string_field("{\"timezone\"", "timezone"), None);
    assert_eq!(json_string_field("{\"timezone\": 5}", "timezone"), None);
    assert_eq!(json_string_field("", "timezone"), None);
}

#[test]
fn zone_tables() {
    let table = "# comment\n\
                 DE\t+5230+01322\tEurope/Berlin\tmost of Germany\n\
                 \n\
                 EG\t+3003+03115\tAfrica/Cairo\n\
                 DE\t+5230+01322\tEurope/Berlin\n\
                 XX\tbroken\n";
    assert_eq!(parse_zone_table(table), names(&["Africa/Cairo", "Europe/Berlin", "UTC"]));
    assert_eq!(parse_zone_table(""), names(&["UTC"]));
    assert_eq!(
        parse_zone_table("ZZ\t0\tZulu\nAA\t0\tEtc/UTC\n"),
        names(&["Etc/UTC", "Zulu"])
    );
    assert_eq!(parse_zone_table("ZZ\t0\tZulu\n"), names(&["UTC", "Zulu"]));
    assert_eq!(parse_zone_table("AA\t0\tAmerica/X\n"), names(&["America/X", "UTC"]));
}

#[test]
fn keymap_lists() {
    assert_eq!(parse_keymaps("us\nde\n\n  fr \nde\n"), names(&["de", "fr", "us"]));
    assert_eq!(parse_keymaps(""), names(&["us"]));
    assert_eq!(parse_keymaps(" \n\n"), names(&["us"]));
}

#[test]
fn zones_in_paths() {
    assert_eq!(zone_of_path("/usr/share/zoneinfo/Europe/Berlin"), Some("Europe/Berlin".to_string()));
    assert_eq!(zone_of_path("/usr/share/zoneinfo/"), Some(String::new()));
    assert_eq!(
        zone_of_path("/run/host/usr/share/zoneinfo/America/New_York"),
        Some("America/New_York".to_string())
    );
    assert_eq!(
        zone_of_path("/a/usr/share/zoneinfo/X/usr/share/zoneinfo/Y"),
        Some("X".to_string())
    );
    assert_eq!(zone_of_path("/etc/localtime"), None);
    assert_eq!(zone_of_path(""), None);
}

#[test]
fn the_machines_own_zone() {
    let zones = names(&["Europe/Berlin", "UTC"]);
    assert_eq!(local_zone(&zones, "Europe/Berlin"), Some("Europe/Berlin".to_string()));
    assert_eq!(local_zone(&zones, "UTC"), None);
    assert_eq!(local_zone(&zones, "Etc/UTC"), None);
    assert_eq!(local_zone(&zones, "Mars/Base"), None);
    assert_eq!(local_zone(&names(&["Europe/Berlin"]), "Mars/Base"), None);
}
