//! The interface every backend connection implements. The dispatcher in
//! [`crate::multi`] routes each operation through this interface to
//! whichever backend is live.

use vstd::prelude::*;

use crate::error::Error;
use crate::window::Window;

verus! {

/// The operations a backend connection offers.
///
/// No contract is imposed at the interface: what a given backend returns
/// is stated on that backend's own methods, and a backend's constructor
/// may genuinely fail. Generic code therefore treats every result here as
/// the backend's to decide, and states what it does with each possible
/// outcome.
pub trait ConnectionInterface: Sized {
    /// The backend's adapter descriptor type.
    type Adapter;

    /// The backend's opened, thread-confined device handle type.
    type Device;

    /// The backend's drawable-widget type.
    type NativeWidget;

    /// Connects to the default display.
    fn new() -> Result<Self, Error>;

    /// Returns the "best" adapter on this system.
    fn create_adapter(&self) -> Result<Self::Adapter, Error>;

    /// Returns the "best" adapter on this system, preferring
    /// high-performance hardware adapters.
    fn create_hardware_adapter(&self) -> Result<Self::Adapter, Error>;

    /// Returns the "best" adapter on this system, preferring low-power
    /// hardware adapters.
    fn create_low_power_adapter(&self) -> Result<Self::Adapter, Error>;

    /// Returns the "best" adapter on this system, preferring software
    /// adapters.
    fn create_software_adapter(&self) -> Result<Self::Adapter, Error>;

    /// Opens the hardware device corresponding to the given adapter.
    fn create_device(&self, adapter: &Self::Adapter) -> Result<Self::Device, Error>;

    /// Opens the connection corresponding to the given window.
    fn from_winit_window(window: &Window) -> Result<Self, Error>;

    /// Creates a native widget type from the given window. The widget can
    /// later be used to create surfaces that render to the window.
    fn create_native_widget_from_winit_window(
        &self,
        window: &Window,
    ) -> Result<Self::NativeWidget, Error>;
}

} // verus!
