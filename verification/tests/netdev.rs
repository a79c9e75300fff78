use sysdev::netdev::{select_network_devices, NetworkDevice};

fn names(devs: &[NetworkDevice]) -> Vec<String> {
    devs.iter().map(|d| d.name().clone()).collect()
}

#[test]
fn excludes_loopback() {
    let devs = select_network_devices(vec![
        Some("eth0".to_owned()),
        Some("lo".to_owned()),
        Some("wlan0".to_owned()),
    ]);
    assert_eq!(names(&devs), vec!["eth0".to_owned(), "wlan0".to_owned()]);
}

#[test]
fn excludes_loopback_alone() {
    let devs = select_network_devices(vec![Some("lo".to_owned())]);
    assert!(devs.is_empty());
}

#[test]
fn skips_unreadable_entry_keeps_the_rest() {
    let devs = select_network_devices(vec![
        None,
        Some("eth0".to_owned()),
        Some("wlan0".to_owned()),
    ]);
    assert_eq!(names(&devs), vec!["eth0".to_owned(), "wlan0".to_owned()]);
}

#[test]
fn keeps_directory_order() {
    let devs = select_network_devices(vec![
        Some("wlan0".to_owned()),
        Some("eth1".to_owned()),
        Some("eth0".to_owned()),
    ]);
    assert_eq!(
        names(&devs),
        vec!["wlan0".to_owned(), "eth1".to_owned(), "eth0".to_owned()]
    );
}

#[test]
fn empty_listing_selects_nothing() {
    let devs = select_network_devices(vec![]);
    assert!(devs.is_empty());
}

#[test]
fn keeps_names_that_merely_contain_lo() {
    let devs = select_network_devices(vec![
        Some("lo0".to_owned()),
        Some("lo".to_owned()),
        Some("velo".to_owned()),
    ]);
    assert_eq!(names(&devs), vec!["lo0".to_owned(), "velo".to_owned()]);
}

#[test]
fn device_address_path_uses_name() {
    let devs = select_network_devices(vec![Some("eth0".to_owned())]);
    assert_eq!(devs[0].address_path("/sys"), "/sys/class/net/eth0/address");
}
