//! The TAP device's verified logic: its error vocabulary, the mode and
//! persistence words of the tun/tap attach protocol, and the capability
//! gating.  Opening the tun control device and issuing the ioctl calls
//! happen outside this crate.

use vstd::prelude::*;
use vstd::string::StringExecFns;
use crate::network::common::CommonError;
use crate::network::common::IFF_TAP;
use crate::network::common::has_net_admin_capability;

verus! {

/// The persistence argument that keeps a TAP device alive after its
/// creating descriptor closes, so other processes can reference it by name.
pub const TUN_PERSIST_ON: u64 = 1;

/// The persistence argument that lets the kernel reclaim the device once it
/// is unreferenced.
pub const TUN_PERSIST_OFF: u64 = 0;

/// Why a TAP operation failed.  Failures of the host interface carry the
/// text of the underlying error and, where useful, what was being done.
#[derive(Debug)]
pub enum UserTapError {
    /// Probing the process's capabilities failed.
    Caps,
    /// The process lacks the named capability.
    MissingCap(String),
    /// The tun control device does not exist.
    DeviceDoesNotExist,
    /// The tun control device cannot be written to.
    DeviceNotAccessible,
    /// An input/output failure, with its text and what was being done.
    IO(String, String),
    /// Interfacing with the kernel's name conventions failed.
    FFI(String),
    /// The attach ioctl failed.
    CouldNotCreateTap(String),
    /// The interface request could not be built.
    CommonError(CommonError),
    /// Querying the device's interface index failed.
    CouldNotGetIndex(String, String),
}

/// The mode word of the attach request: a TAP interface.
pub fn tap_mode_flags() -> (r: i16)
    ensures
        r == IFF_TAP,
{
    IFF_TAP
}

/// Turns the capability probe's outcome into the TAP error vocabulary:
/// only a probe that affirmed CAP_NET_ADMIN passes.
pub fn classify_caps(probe: Result<bool, caps::errors::CapsError>) -> (r: Result<(), UserTapError>)
    ensures
        (probe matches Ok(true)) <==> r is Ok,
        (probe matches Ok(false)) ==> (r matches Err(UserTapError::MissingCap(s)) && s@
            == "CAP_NET_ADMIN"@),
        probe is Err ==> (r matches Err(UserTapError::Caps)),
{
    match probe {
        Ok(true) => Ok(()),
        Ok(false) => Err(UserTapError::MissingCap("CAP_NET_ADMIN".to_owned())),
        Err(_) => Err(UserTapError::Caps),
    }
}

/// Fails fast unless the process holds CAP_NET_ADMIN: the capability probe
/// runs and its outcome is classified.  What the probe reports depends on
/// the process, so only the shape of the outcome is promised.
pub fn check_caps() -> (r: Result<(), UserTapError>)
    ensures
        r is Err ==> (r->Err_0 is MissingCap || r->Err_0 is Caps),
{
    classify_caps(has_net_admin_capability())
}

} // verus!
