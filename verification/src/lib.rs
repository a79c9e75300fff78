//! Hardware-introspection helpers for Linux hosts: parsing network device
//! MAC addresses out of sysfs attribute files, selecting the reportable
//! network devices from a directory listing, resolving the sysfs root, and
//! interpreting the raw results of block-device geometry queries.
//!
//! All filesystem, environment and device-control access happens in the
//! surrounding glue; this crate holds the logic on plain values, with
//! verified contracts.

pub mod address;
pub mod blockdev;
pub mod mac;
pub mod netdev;
pub mod paths;
