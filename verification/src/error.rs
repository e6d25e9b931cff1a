//! The errors that connection, adapter, device and widget operations
//! report. All failures are returned values; nothing in this crate
//! panics or aborts.

use vstd::prelude::*;

verus! {

/// Why a connection, adapter, device or widget operation failed.
#[derive(Clone, Copy, Debug, PartialEq, Eq, Structural)]
pub enum Error {
    /// A backend's connection constructor failed. The dispatcher surfaces
    /// this only when both the default and the alternate backend fail.
    ConnectionFailed,
    /// A device-creation call received a connection and an adapter from
    /// mismatched backends. Detected before any backend code runs.
    IncompatibleAdapter,
    /// The supplied window resolved to the null native window handle.
    IncompatibleNativeWidget,
}

} // verus!
