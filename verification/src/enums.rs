//! Enums: the version of an IP address as a two-variant enum, and a
//! routing decision made by matching on it.

use vstd::prelude::*;

verus! {

/// The two versions an IP address can have.
#[derive(Debug, Clone, Copy, PartialEq, Eq, Structural)]
pub enum IpAddrKind {
    V4,
    V6,
}

/// The message that routing on an address version produces: one fixed
/// line per variant.
pub fn route_based_on_ip_version(ip_version: IpAddrKind) -> (message: &'static str)
    ensures
        ip_version is V4 ==> message@ == "IP version 4 used"@,
        ip_version is V6 ==> message@ == "IP version 6 used"@,
{
    match ip_version {
        IpAddrKind::V4 => "IP version 4 used",
        IpAddrKind::V6 => "IP version 6 used",
    }
}

} // verus!
