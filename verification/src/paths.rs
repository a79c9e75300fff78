//! Resolution of the sysfs root and of the paths read beneath it.
//!
//! The sysfs root defaults to `/sys` and can be overridden by an
//! environment variable; the surrounding glue reads that variable and
//! hands its value in, so that resolution itself is a pure decision.
//! An override is honored whenever the variable is set, even to the empty
//! string. The paths consumed below the root are
//! `<root>/class/net` (the network-device class directory) and
//! `<root>/class/net/<device>/address` (one device's MAC attribute file).

use vstd::prelude::*;

verus! {

/// The network-device class directory beneath a sysfs root.
pub open spec fn class_net_dir_spec(root: Seq<char>) -> Seq<char> {
    root + "/class/net"@
}

/// The MAC address attribute file of one named device beneath a sysfs
/// root.
pub open spec fn device_address_path_spec(root: Seq<char>, name: Seq<char>) -> Seq<char> {
    root + "/class/net/"@ + name + "/address"@
}

/// Resolves the sysfs root: the override when one is set (even an empty
/// one), and the fixed default `/sys` otherwise. Always succeeds; whether
/// the path exists is the readers' concern.
pub fn sysfs_root(env_override: Option<String>) -> (root: String)
    ensures
        env_override matches Some(p) ==> root@ == p@,
        env_override is None ==> root@ == "/sys"@,
{
    match env_override {
        Some(p) => p,
        None => "/sys".to_owned(),
    }
}

/// The directory that a network-device enumeration lists, for the given
/// sysfs root.
pub fn class_net_dir(root: &str) -> (dir: String)
    ensures
        dir@ == class_net_dir_spec(root@),
{
    let mut dir = root.to_owned();
    dir.append("/class/net");
    dir
}

/// The path of the `address` attribute file for the device with the given
/// name, under the given sysfs root.
pub fn device_address_path(root: &str, name: &str) -> (path: String)
    ensures
        path@ == device_address_path_spec(root@, name@),
{
    let mut path = root.to_owned();
    path.append("/class/net/");
    path.append(name);
    path.append("/address");
    proof {
        assert(path@ =~= device_address_path_spec(root@, name@));
    }
    path
}

} // verus!
