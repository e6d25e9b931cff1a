//! A host window, reduced to what the backends read from it: the raw
//! native window-handle value. The windowing library that produced the
//! window stays outside this crate; whoever owns the real window extracts
//! its handle and wraps it here.

use vstd::prelude::*;

verus! {

/// A platform window as the backends see it: the raw native
/// window-handle value (on Windows, the `HWND` as an integer).
///
/// The null handle is representable here on purpose — a window is only
/// validated when a drawable widget is made from it.
#[derive(Clone, Copy, Debug, PartialEq, Eq, Structural)]
pub struct Window {
    raw_handle: usize,
}

impl Window {
    /// The raw native window-handle value this window carries.
    pub closed spec fn spec_raw_handle(&self) -> usize {
        self.raw_handle
    }

    /// Wraps a raw native window-handle value.
    pub fn from_raw_handle(raw_handle: usize) -> (w: Window)
        ensures
            w.spec_raw_handle() == raw_handle,
    {
        Window { raw_handle }
    }

    /// Returns the raw native window-handle value.
    pub fn raw_handle(&self) -> (h: usize)
        ensures
            h == self.spec_raw_handle(),
    {
        self.raw_handle
    }
}

} // verus!
