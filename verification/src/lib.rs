//! Safe, verified core of a binding layer around a native raw-networking
//! library.
//!
//! The native library owns the actual packet I/O, checksum computation and
//! hex formatting; it is driven through a thin foreign-function shell that
//! cannot be verified. Everything that shell has to decide — whether an
//! interface name may cross the boundary, how a raw return code is turned
//! into a count or an error, when the underlying close call runs, which
//! buffers the hex-dump routines accept — lives here, with contracts.

pub mod error;
pub mod hexdump;
pub mod socket;

