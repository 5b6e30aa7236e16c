//! The protocol constants of the kernel's network device interface — ioctl
//! request numbers, interface flag bits and the interface name limit — and
//! the checks every device operation runs first: the name-length check and
//! the capability probe.  The ioctl calls themselves are issued outside this
//! crate against these constants.

use vstd::prelude::*;
use vstd::string::StringSliceAdditionalSpecFns;

verus! {

/// The kernel's interface name buffer size, terminating NUL included.
pub const IFNAMSIZ: usize = 16;

/// Attach a TAP interface to the tun control device.
pub const TUNSETIFF: u64 = 0x400454ca;

/// Make (1) or unmake (0) a tun/tap device persistent.
pub const TUNSETPERSIST: u64 = 0x400454cb;

/// Set the owning user of a tun/tap device.
pub const TUNSETOWNER: u64 = 0x400454cc;

/// Read an interface's flag word.
pub const SIOCGIFFLAGS: u64 = 0x8913;

/// Write an interface's flag word.
pub const SIOCSIFFLAGS: u64 = 0x8914;

/// Set an interface's address.
pub const SIOCSIFADDR: u64 = 0x8916;

/// Query an interface's index by name.
pub const SIOCGIFINDEX: u64 = 0x8933;

/// Create a bridge device.
pub const SIOCBRADDBR: u64 = 0x89a0;

/// Delete a bridge device.
pub const SIOCBRDELBR: u64 = 0x89a1;

/// Attach an interface, by index, to a bridge.
pub const SIOCBRADDIF: u64 = 0x89a2;

/// The TAP mode bit of the tun/tap attach request.
pub const IFF_TAP: i16 = 0x0002;

/// The interface-up flag bit.
pub const IFF_UP: i16 = 0x0001;

/// The broadcast-capable flag bit.
pub const IFF_BROADCAST: i16 = 0x0002;

/// The operationally-running flag bit.
pub const IFF_RUNNING: i16 = 0x0040;

/// The multicast-capable flag bit.
pub const IFF_MULTICAST: i16 = 0x1000;

/// What the interface request construction can reject.
#[derive(Debug, PartialEq, Eq, Structural)]
pub enum CommonError {
    /// The interface name does not fit the kernel's name buffer.
    NameToLong,
}

/// Checks that an interface name fits the kernel's name buffer with its
/// terminating NUL, before any request is built from it.
pub fn check_interface_name(name: &str) -> (r: Result<(), CommonError>)
    ensures
        r is Ok <==> name.spec_bytes().len() < IFNAMSIZ,
        r is Err ==> r->Err_0 == CommonError::NameToLong,
{
    let bytes = name.as_bytes();
    if bytes.len() <= IFNAMSIZ - 1 {
        Ok(())
    } else {
        Err(CommonError::NameToLong)
    }
}

/// Relies on `caps::has_cap` of the caps crate, asked whether the current
/// process's effective set holds CAP_NET_ADMIN.  The outcome depends on the
/// process, so nothing is assumed of it.
#[verifier::external_body]
pub fn has_net_admin_capability() -> Result<bool, caps::errors::CapsError> {
    caps::has_cap(None, caps::CapSet::Effective, caps::Capability::CAP_NET_ADMIN)
}

#[verifier::external_type_specification]
#[verifier::external_body]
pub struct ExCapsError(caps::errors::CapsError);

} // verus!
