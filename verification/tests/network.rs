use nebula_installer::network::{
    active_connection_label, connect_wifi_profile, connectivity_status, disconnect_wifi_device,
    forget_wifi_connection, has_connected_device, has_wifi_device, is_network_ready,
    is_wifi_connected, list_wifi_networks, nmcli_failure, nmcli_status_failure, rank_networks,
    wifi_device_name, wifi_device_state, Connectivity, NmcliCall, WifiNetwork,
};

fn net(ssid: &str, signal: u8, security: &str, in_use: bool) -> WifiNetwork {
    WifiNetwork { ssid: ssid.to_string(), signal, security: security.to_string(), in_use }
}

fn call(args: &[&str], fatal: bool) -> NmcliCall {
    NmcliCall { args: args.iter().map(|a| a.to_string()).collect(), fatal }
}

#[test]
fn open_networks() {
    assert!(net("a", 1, "", false).is_open());
    assert!(net("a", 1, "  ", false).is_open());
    assert!(net("a", 1, "--", false).is_open());
    assert!(net("a", 1, " -- ", false).is_open());
    assert!(!net("a", 1, "WPA2", false).is_open());
    assert!(!net("a", 1, "---", false).is_open());
}

#[test]
fn connectivity_words() {
    assert_eq!(connectivity_status("full\n"), Connectivity::Full);
    assert_eq!(connectivity_status("limited"), Connectivity::Limited);
    assert_eq!(connectivity_status(" portal "), Connectivity::Portal);
    assert_eq!(connectivity_status("none\n"), Connectivity::Disconnected);
    assert_eq!(connectivity_status("unknown\n"), Connectivity::Unknown);
    assert_eq!(connectivity_status(""), Connectivity::Unknown);
    assert_eq!(connectivity_status("FULL"), Connectivity::Unknown);
}

#[test]
fn readiness() {
    let connected = "eth0:ethernet:connected\nwlan0:wifi:disconnected\n";
    let idle = "eth0:ethernet:unavailable\nlo:loopback:connected (externally)\n";
    assert!(is_network_ready(Connectivity::Full, ""));
    assert!(is_network_ready(Connectivity::Limited, idle));
    assert!(!is_network_ready(Connectivity::Portal, connected));
    assert!(!is_network_ready(Connectivity::Disconnected, connected));
    assert!(is_network_ready(Connectivity::Unknown, connected));
    assert!(!is_network_ready(Connectivity::Unknown, idle));
    assert!(!is_network_ready(Connectivity::Unknown, ""));
    assert!(has_connected_device(connected));
    assert!(!has_connected_device("eth0:ethernet: connected\n"));
    assert!(!has_connected_device("connected\n"));
}

#[test]
fn connection_labels() {
    assert_eq!(
        active_connection_label("wifi:disconnected:\nethernet:connected:Wired connection 1\n"),
        Some("Wired".to_string())
    );
    assert_eq!(
        active_connection_label("wifi:connected: HomeNet \nethernet:connected:eth\n"),
        Some("HomeNet".to_string())
    );
    assert_eq!(
        active_connection_label("loopback:connected:lo\n"),
        Some("lo".to_string())
    );
    assert_eq!(
        active_connection_label("wifi:connected:\nbridge:connected:br0\n"),
        Some("br0".to_string())
    );
    assert_eq!(active_connection_label("wifi:connecting:Home\n"), None);
    assert_eq!(active_connection_label("ethernet:connected\n"), Some("Wired".to_string()));
    assert_eq!(active_connection_label(""), None);
}

#[test]
fn wireless_devices() {
    assert!(has_wifi_device("ethernet\n wifi \nloopback\n"));
    assert!(!has_wifi_device("ethernet\nwifi-p2p\n"));
    assert!(!has_wifi_device(""));
    assert_eq!(wifi_device_name("eth0:ethernet\n wlan0 : wifi \nwlan1:wifi\n"), Some("wlan0".to_string()));
    assert_eq!(wifi_device_name(":wifi\nwlp2s0:wifi\n"), Some("wlp2s0".to_string()));
    assert_eq!(wifi_device_name("eth0:ethernet\n"), None);
    assert_eq!(
        disconnect_wifi_device("eth0:ethernet\nwlan0:wifi\n"),
        Some(call(&["dev", "disconnect", "wlan0"], false))
    );
    assert_eq!(disconnect_wifi_device("eth0:ethernet\n"), None);
}

#[test]
fn wireless_state() {
    let status = "eth0:unavailable\nwlan0:connected\nwlan1:disconnected\n";
    assert!(is_wifi_connected(Some("wlan0"), status));
    assert!(!is_wifi_connected(Some("wlan1"), status));
    assert!(!is_wifi_connected(Some("wlan2"), status));
    assert!(!is_wifi_connected(None, status));
    assert!(is_wifi_connected(Some("wlan0"), " wlan0 : connected \n"));
    assert_eq!(wifi_device_state(Some("wlan1"), status), Some("disconnected".to_string()));
    assert_eq!(wifi_device_state(Some("wlan0"), "wlan0:\nwlan0:connecting (configuring)\n"),
        Some("connecting (configuring)".to_string()));
    assert_eq!(wifi_device_state(Some("wlan9"), status), None);
    assert_eq!(wifi_device_state(None, status), None);
}

#[test]
fn networks_are_ranked() {
    let output = " :Cafe:40:--\n*:Home:82:WPA2\n::90:WPA2\n :Alpha:82:WPA1 WPA2\n :Weak:x:\n :Short\n";
    assert_eq!(
        list_wifi_networks(output),
        vec![
            net("Alpha", 82, "WPA1 WPA2", false),
            net("Home", 82, "WPA2", true),
            net("Cafe", 40, "--", false),
            net("Short", 0, "", false),
            net("Weak", 0, "", false),
        ]
    );
    assert!(list_wifi_networks("").is_empty());
    assert_eq!(list_wifi_networks(" :Loud:300:\n"), vec![net("Loud", 0, "", false)]);
    assert_eq!(list_wifi_networks(" :Max:255:\n"), vec![net("Max", 255, "", false)]);
}

#[test]
fn ranking_keeps_the_order_of_equals() {
    let list = vec![
        net("same", 50, "first", false),
        net("other", 70, "", false),
        net("same", 50, "second", false),
        net("same", 50, "third", true),
    ];
    let mut want = list.clone();
    want.sort_by(|a, b| b.signal.cmp(&a.signal).then_with(|| a.ssid.cmp(&b.ssid)));
    assert_eq!(rank_networks(&list), want);
    assert_eq!(rank_networks(&list)[1].security, "first");
    assert_eq!(rank_networks(&list)[3].security, "third");
}

#[test]
fn connecting() {
    assert_eq!(
        connect_wifi_profile("Home", Some("hunter2"), Some("wlan0"), Some("nebula-Home")),
        vec![
            call(&["connection", "delete", "id", "nebula-Home"], false),
            call(
                &["connection", "add", "type", "wifi", "con-name", "nebula-Home", "ssid", "Home", "ifname", "wlan0"],
                true
            ),
            call(
                &["connection", "modify", "nebula-Home", "wifi-sec.key-mgmt", "wpa-psk", "wifi-sec.psk", "hunter2"],
                true
            ),
            call(&["connection", "up", "id", "nebula-Home"], true),
        ]
    );
    assert_eq!(
        connect_wifi_profile("Cafe", None, None, None),
        vec![
            call(&["connection", "delete", "id", "Cafe"], false),
            call(&["connection", "add", "type", "wifi", "con-name", "Cafe", "ssid", "Cafe"], true),
            call(&["connection", "up", "id", "Cafe"], true),
        ]
    );
    assert_eq!(
        connect_wifi_profile("Cafe", Some("  "), Some(" "), None),
        connect_wifi_profile("Cafe", None, None, None)
    );
}

#[test]
fn forgetting() {
    assert_eq!(
        forget_wifi_connection("Home", "Home:802-11-wireless\nnebula-Home:wifi\nWired:ethernet\n Cafe : wifi \n:wifi\n"),
        vec![
            call(&["connection", "delete", "id", "nebula-Home"], false),
            call(&["connection", "delete", "id", "Cafe"], false),
        ]
    );
    assert!(forget_wifi_connection("Home", "").is_empty());
}

#[test]
fn failure_messages() {
    assert_eq!(nmcli_failure("out\n", " err \n"), "nmcli failed: err");
    assert_eq!(nmcli_failure(" out\n", "  \n"), "nmcli failed: out");
    assert_eq!(nmcli_status_failure("out", "Error: Secrets were required"), "Error: Secrets were required");
    assert_eq!(nmcli_status_failure("", ""), "");
}
