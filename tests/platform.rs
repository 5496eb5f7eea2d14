use portal_kombat::platform::{
    interface_rows, LinuxNetworkManager, MacOSNetworkManager, WindowsNetworkManager,
};

fn table(rows: &[&[&str]]) -> Vec<Vec<String>> {
    rows.iter().map(|r| r.iter().map(|w| w.to_string()).collect()).collect()
}

#[test]
fn linux_rows_of_wifi_and_ethernet() {
    let out = "DEVICE  TYPE      STATE         CONNECTION\n\
               wlan0   wifi      connected     Home\n\
               eth0    ethernet  unavailable   --\n\
               lo      loopback  unmanaged     --\n";
    let nm = LinuxNetworkManager::new();
    let rows = nm.parse_interfaces(out).unwrap();
    assert_eq!(
        rows,
        vec![
            ("wlan0".to_string(), "connected".to_string()),
            ("eth0".to_string(), "unavailable".to_string())
        ]
    );
    assert!(nm.adapter_on(out));
}

#[test]
fn linux_state_is_read_in_lower_case() {
    let nm = LinuxNetworkManager::new();
    assert!(nm.adapter_on("DEVICE TYPE STATE\nwlan0 wifi CONNECTED\n"));
    assert!(!nm.adapter_on("DEVICE TYPE STATE\nwlan0 wifi unavailable\n"));
}

#[test]
fn linux_without_rows_is_off() {
    let nm = LinuxNetworkManager::new();
    assert_eq!(nm.parse_interfaces("DEVICE TYPE STATE CONNECTION\nlo loopback unmanaged --\n"), None);
    assert_eq!(nm.parse_interfaces(""), None);
    assert_eq!(nm.parse_interfaces("wlan0 wifi connected x\n"), None);
    assert!(!nm.adapter_on(""));
    assert_eq!(nm.parse_interfaces("H\n\nwlan0 wifi\n"), None);
}

#[test]
fn windows_rows_of_four_columns() {
    let out = "\nAdmin State    State          Type             Interface Name\n\
               -------------------------------------------------------------------------\n\
               Enabled        Connected      Dedicated        Wi-Fi\n\
               Enabled        Disconnected   Dedicated        Ethernet 2\n";
    let nm = WindowsNetworkManager::new();
    let rows = nm.parse_interfaces(out).unwrap();
    assert_eq!(rows, vec![("Wi-Fi".to_string(), "Connected".to_string())]);
    assert!(nm.adapter_on(out));
    assert!(!nm.adapter_on("a\nb\n"));
}

#[test]
fn macos_wifi_device_is_found_and_trimmed() {
    let out = "\nHardware Port: Ethernet\nDevice: en0\nEthernet Address: aa\n\n\
               Hardware Port: Wi-Fi\nDevice:   en1  \nEthernet Address: bb\n";
    let nm = MacOSNetworkManager::new();
    assert_eq!(nm.wifi_device(out).as_deref(), Some("en1"));
    assert_eq!(nm.wifi_device("Hardware Port: AirPort\nx\nDevice: en2\n").as_deref(), Some("en2"));
    assert_eq!(nm.wifi_device("Hardware Port: Wi-Fi\na\nb\nc\nDevice: en3\n"), None);
    assert_eq!(nm.wifi_device("Device: en0\n"), None);
}

#[test]
fn macos_power_reads_on() {
    let nm = MacOSNetworkManager::new();
    assert!(nm.power_on("Wi-Fi Power (en0): On\n"));
    assert!(!nm.power_on("Wi-Fi Power (en0): Off\n"));
}

#[test]
fn interface_rows_from_words() {
    let t = table(&[&["wlan0", "wifi", "connected", "Home"], &["eth0", "ethernet"], &["x"], &[]]);
    assert_eq!(interface_rows(&t, false), Some(vec![("wlan0".to_string(), "connected".to_string())]));
    let t = table(&[&["Enabled", "Connected", "Dedicated", "Wi-Fi"], &["a", "b", "c", "d", "e"]]);
    assert_eq!(interface_rows(&t, true), Some(vec![("Wi-Fi".to_string(), "Connected".to_string())]));
    assert_eq!(interface_rows(&table(&[]), true), None);
}

#[test]
fn wifi_device_from_lines() {
    let nm = MacOSNetworkManager::new();
    let lines: Vec<String> = ["Hardware Port: Wi-Fi", "Device: en1", "Ethernet Address: bb"]
        .iter()
        .map(|l| l.to_string())
        .collect();
    assert_eq!(nm.wifi_device_in_lines(&lines).as_deref(), Some("en1"));
    assert_eq!(nm.wifi_device_in_lines(&Vec::new()), None);
}

#[test]
fn lines_split_like_str_lines() {
    for s in ["", "a", "a\n", "a\r\nb", "a\n\nb\n", "\n", "a\r", "a\rb\n", "x\r\n\r\ny"] {
        let expected: Vec<String> = s.lines().map(|l| l.to_string()).collect();
        assert_eq!(portal_kombat::text::split_lines(s), expected, "{:?}", s);
    }
    assert_eq!(portal_kombat::text::split_lines("one\r\ntwo\n"), vec!["one".to_string(), "two".to_string()]);
}
