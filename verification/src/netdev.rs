//! Selection of reportable network devices from a directory listing.
//!
//! The surrounding glue lists the network-device class directory and hands
//! in one entry per directory item: the device name where the entry could
//! be read, and `None` where it could not (an unreadable entry or an
//! undeterminable name). Selection keeps the readable names in directory
//! order, skips the unreadable entries, and unconditionally excludes the
//! loopback device `lo`, which has no hardware address to report. One bad
//! entry never aborts the whole enumeration.

use vstd::prelude::*;
use crate::paths::{device_address_path, device_address_path_spec};

verus! {

/// One reportable network device, carrying the name of its entry in the
/// network-device class directory.
#[derive(Debug, Clone)]
pub struct NetworkDevice {
    pub name: String,
}

/// The names a selection keeps, in order: the readable entries, minus the
/// loopback device.
pub open spec fn selected_names(entries: Seq<Option<Seq<char>>>) -> Seq<Seq<char>>
    decreases entries.len(),
{
    if entries.len() == 0 {
        Seq::empty()
    } else {
        let rest = selected_names(entries.drop_last());
        match entries.last() {
            Some(name) => if name == "lo"@ {
                rest
            } else {
                rest.push(name)
            },
            None => rest,
        }
    }
}

impl NetworkDevice {
    /// The device's name.
    pub fn name(&self) -> (r: &String)
        ensures
            r@ == self.name@,
    {
        &self.name
    }

    /// The path of this device's MAC address attribute file under the
    /// given sysfs root.
    pub fn address_path(&self, root: &str) -> (path: String)
        ensures
            path@ == device_address_path_spec(root@, self.name@),
    {
        device_address_path(root, self.name.as_str())
    }
}

/// Selects the reportable devices from a directory listing: every readable
/// entry, in directory order, except the loopback device `lo`; unreadable
/// entries (`None`) are skipped without aborting the enumeration.
pub fn select_network_devices(entries: Vec<Option<String>>) -> (devs: Vec<NetworkDevice>)
    ensures
        devs@.map_values(|d: NetworkDevice| d.name@) == selected_names(entries.deep_view()),
        forall|i: int| 0 <= i < devs@.len() ==> (#[trigger] devs@[i]).name@ != "lo"@,
{
    let lo: String = "lo".to_owned();
    let mut devs: Vec<NetworkDevice> = Vec::new();
    let mut i: usize = 0;
    while i < entries.len()
        invariant
            i <= entries@.len(),
            lo@ == "lo"@,
            devs@.map_values(|d: NetworkDevice| d.name@) == selected_names(
                entries.deep_view().subrange(0, i as int),
            ),
            forall|j: int| 0 <= j < devs@.len() ==> (#[trigger] devs@[j]).name@ != "lo"@,
        decreases entries@.len() - i,
    {
        let ghost prefix = entries.deep_view().subrange(0, i as int);
        let ghost next = entries.deep_view().subrange(0, i + 1);
        proof {
            assert(next.drop_last() =~= prefix);
            assert(next.last() == entries.deep_view()[i as int]);
        }
        match &entries[i] {
            Some(name) => {
                if !name.eq(&lo) {
                    let dev = NetworkDevice { name: name.clone() };
                    devs.push(dev);
                    proof {
                        assert(devs@.map_values(|d: NetworkDevice| d.name@) =~= selected_names(
                            prefix,
                        ).push(name@));
                    }
                }
            },
            None => {},
        }
        i = i + 1;
    }
    proof {
        assert(entries.deep_view().subrange(0, entries@.len() as int) =~= entries.deep_view());
    }
    devs
}

} // verus!
