//! Provisioning and supervision of short-lived virtual machines on a Linux
//! host.
//!
//! The crate holds the verified core: an IP address allocator over a bounded
//! range, the model of the host's bridge and TAP devices with the exact
//! protocol constants of the kernel interface, the hypervisor command-line
//! composer, the supervisor's decision logic (pidfile parsing, the
//! graceful-then-forced stop protocol), and the serial console line chunker.
//! Everything that touches the outside world (ioctl calls, process spawning,
//! sockets, the interactive front end) lives outside this crate and hands the
//! library plain values.

pub mod addr;
pub mod network;
pub mod qemu;
pub mod serial;
pub mod nes;
pub mod templates;
pub mod flatcar;
pub mod nanos;
pub mod shell;
