//! The bridge device's verified logic: its error vocabulary, the flag-word
//! arithmetic of bringing an interface up and down, and the capability
//! gating.  The sockets and ioctl calls that apply these words to the host
//! are driven outside this crate.

use vstd::prelude::*;
use vstd::string::StringExecFns;
use crate::network::common::CommonError;
use crate::network::common::IFF_BROADCAST;
use crate::network::common::IFF_MULTICAST;
use crate::network::common::IFF_RUNNING;
use crate::network::common::IFF_UP;
use crate::network::common::has_net_admin_capability;
use crate::network::usertap::UserTapError;

verus! {

/// Why a bridge operation failed.  Failures of the host interface carry the
/// text of the underlying error and what was being done.
#[derive(Debug)]
pub enum UserBridgeError {
    /// Probing the process's capabilities failed.
    Caps,
    /// The process lacks the named capability.
    MissingCap(String),
    /// The tun control device does not exist.
    DeviceDoesNotExist,
    /// The tun control device cannot be written to.
    DeviceNotAccessible,
    /// An input/output failure, with its text and what was being done.
    IO(String, String),
    /// Interfacing with the kernel's name conventions failed.
    FFI(String),
    /// Creating the bridge failed.
    CouldNotCreateBridge(String, String),
    /// Attaching the TAP device failed.
    CouldNotAttachTap(String, String),
    /// A TAP operation under the bridge failed.
    UserTap(UserTapError, String),
    /// The interface request could not be built.
    CommonError(CommonError),
    /// Opening a socket failed.
    Socket(String, String),
    /// An ioctl call failed.
    Ioctl(String, String),
}

/// The flag word that brings the bridge up: up, broadcast, running and
/// multicast.
pub fn bridge_up_flags() -> (r: i16)
    ensures
        r == (IFF_UP | IFF_BROADCAST | IFF_RUNNING | IFF_MULTICAST),
{
    IFF_UP | IFF_BROADCAST | IFF_RUNNING | IFF_MULTICAST
}

/// A flag word with the up bit cleared, as written when taking the bridge
/// down.
pub fn clear_up_flag(flags: i16) -> (r: i16)
    ensures
        r == flags & !IFF_UP,
{
    flags & !IFF_UP
}

/// Whether a flag word says the interface is up.
pub fn is_up_flags(flags: i16) -> (r: bool)
    ensures
        r <==> flags & IFF_UP == IFF_UP,
{
    flags & IFF_UP == IFF_UP
}

/// Turns the capability probe's outcome into the bridge's error vocabulary:
/// only a probe that affirmed CAP_NET_ADMIN passes.
pub fn classify_caps(probe: Result<bool, caps::errors::CapsError>) -> (r: Result<
    (),
    UserBridgeError,
>)
    ensures
        (probe matches Ok(true)) <==> r is Ok,
        (probe matches Ok(false)) ==> (r matches Err(UserBridgeError::MissingCap(s)) && s@
            == "CAP_NET_ADMIN"@),
        probe is Err ==> (r matches Err(UserBridgeError::Caps)),
{
    match probe {
        Ok(true) => Ok(()),
        Ok(false) => Err(UserBridgeError::MissingCap("CAP_NET_ADMIN".to_owned())),
        Err(_) => Err(UserBridgeError::Caps),
    }
}

/// Fails fast unless the process holds CAP_NET_ADMIN: the capability probe
/// runs and its outcome is classified.  What the probe reports depends on
/// the process, so only the shape of the outcome is promised.
pub fn check_caps() -> (r: Result<(), UserBridgeError>)
    ensures
        r is Err ==> (r->Err_0 is MissingCap || r->Err_0 is Caps),
{
    classify_caps(has_net_admin_capability())
}

} // verus!
