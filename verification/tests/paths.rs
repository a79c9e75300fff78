use sysdev::paths::{class_net_dir, device_address_path, sysfs_root};

#[test]
fn default_root_is_sys() {
    assert_eq!(sysfs_root(None), "/sys");
}

#[test]
fn override_replaces_root() {
    assert_eq!(sysfs_root(Some("/mnt/fake-sys".to_owned())), "/mnt/fake-sys");
}

#[test]
fn empty_override_is_honored() {
    assert_eq!(sysfs_root(Some(String::new())), "");
}

#[test]
fn class_net_dir_under_default_root() {
    assert_eq!(class_net_dir(&sysfs_root(None)), "/sys/class/net");
}

#[test]
fn override_changes_enumerated_directory() {
    let root = sysfs_root(Some("/tmp/sysfs".to_owned()));
    assert_eq!(class_net_dir(&root), "/tmp/sysfs/class/net");
}

#[test]
fn address_path_for_device() {
    assert_eq!(
        device_address_path("/sys", "eth0"),
        "/sys/class/net/eth0/address"
    );
}
