//! A backend over ANGLE and Direct3D: a connection to the window server
//! for that stack.
//!
//! It might seem like the connection should wrap an `EGLDisplay`, but in
//! the ANGLE implementation `EGLDisplay` is not thread-safe, while these
//! connections must be. So the backend uses the DXGI/Direct3D concept of
//! a connection instead; that concept is implicit in the Win32 API, and
//! the connection value is a no-op.

use vstd::prelude::*;

use crate::connection::ConnectionInterface;
use crate::error::Error;
use crate::window::Window;

verus! {

/// The PCI vendor id of Intel, whose integrated GPUs the hardware policy
/// avoids and the low-power policy prefers.
pub const INTEL_PCI_ID: u32 = 0x8086;

/// The Direct3D driver type requested during adapter enumeration.
#[derive(Clone, Copy, Debug, PartialEq, Eq, Structural)]
pub enum D3dDriverType {
    /// Let the OS pick the driver.
    Unknown,
    /// The WARP software rasterizer.
    Warp,
}

/// A policy biasing adapter enumeration toward or away from one GPU
/// vendor, identified by its PCI vendor id.
#[derive(Clone, Copy, Debug, PartialEq, Eq, Structural)]
pub enum VendorPreference {
    /// No bias: take whatever the enumeration yields first.
    NoPreference,
    /// Bias toward the given vendor.
    Prefer(u32),
    /// Bias away from the given vendor.
    Avoid(u32),
}

/// A candidate GPU driver plus the vendor preference used to select it:
/// a cheap, copyable descriptor that holds no native resource and may be
/// created and discarded freely.
#[derive(Clone, Copy, Debug, PartialEq, Eq, Structural)]
pub struct Adapter {
    /// The Direct3D driver type to request.
    pub driver_type: D3dDriverType,
    /// The vendor bias to apply while enumerating.
    pub vendor_preference: VendorPreference,
}

impl Adapter {
    /// Builds the descriptor for the given driver type and vendor
    /// preference. A descriptor is plain data, so this always succeeds.
    pub fn new(
        driver_type: D3dDriverType,
        vendor_preference: VendorPreference,
    ) -> (r: Result<Adapter, Error>)
        ensures
            r == Ok::<Adapter, Error>(Adapter { driver_type, vendor_preference }),
    {
        Ok(Adapter { driver_type, vendor_preference })
    }
}

/// An opened device handle for this backend, confined to the thread that
/// created it.
///
/// The phantom `Rc` marker keeps the type from being sent or shared
/// across threads: the creating thread is the sole permitted user of the
/// handle, and of anything later derived from it.
#[derive(Debug)]
pub struct Device {
    adapter: Adapter,
    thread_confinement: core::marker::PhantomData<std::rc::Rc<()>>,
}

impl Device {
    /// The adapter descriptor this device was opened for.
    pub closed spec fn spec_adapter(&self) -> Adapter {
        self.adapter
    }

    /// Opens a device for the given adapter descriptor.
    pub fn new(adapter: &Adapter) -> (r: Result<Device, Error>)
        ensures
            r matches Ok(device) && device.spec_adapter() == *adapter,
    {
        Ok(Device { adapter: *adapter, thread_confinement: core::marker::PhantomData })
    }

    /// Returns the adapter descriptor this device was opened for.
    pub fn adapter(&self) -> (a: Adapter)
        ensures
            a == self.spec_adapter(),
    {
        self.adapter
    }
}

/// An opaque drawable target: a validated, never-null native window
/// handle, consumed by later surface creation to bind rendering output
/// to a window.
#[derive(Clone, Copy, Debug)]
pub struct NativeWidget {
    window_handle: usize,
}

impl NativeWidget {
    /// The wrapped native window-handle value.
    pub closed spec fn spec_window_handle(&self) -> usize {
        self.window_handle
    }

    /// A widget is well formed when its handle is not the null value.
    /// Validation happens at construction, never at use.
    pub open spec fn wf(&self) -> bool {
        self.spec_window_handle() != 0
    }

    /// Returns the wrapped native window-handle value.
    pub fn window_handle(&self) -> (h: usize)
        ensures
            h == self.spec_window_handle(),
    {
        self.window_handle
    }
}

/// A no-op connection: the native connection concept is implicit in the
/// Win32 API, so this value carries no state and is a pure capability
/// token, safe to clone and share.
#[derive(Clone, Copy, Debug, PartialEq, Eq, Structural)]
pub struct Connection;

impl Connection {
    /// The request `create_hardware_adapter` makes: let the OS pick the
    /// driver, biased away from the integrated Intel GPU so that a
    /// discrete GPU wins when one is present.
    pub open spec fn hardware_adapter_request() -> Adapter {
        Adapter {
            driver_type: D3dDriverType::Unknown,
            vendor_preference: VendorPreference::Avoid(INTEL_PCI_ID),
        }
    }

    /// The request `create_low_power_adapter` makes: let the OS pick the
    /// driver, biased toward the integrated Intel GPU for power
    /// efficiency.
    pub open spec fn low_power_adapter_request() -> Adapter {
        Adapter {
            driver_type: D3dDriverType::Unknown,
            vendor_preference: VendorPreference::Prefer(INTEL_PCI_ID),
        }
    }

    /// The request `create_software_adapter` makes: the WARP software
    /// rasterizer, with no vendor bias.
    pub open spec fn software_adapter_request() -> Adapter {
        Adapter {
            driver_type: D3dDriverType::Warp,
            vendor_preference: VendorPreference::NoPreference,
        }
    }

    /// Connects to the default display. The connection is stateless, so
    /// this always succeeds.
    pub fn new() -> (r: Result<Connection, Error>)
        ensures
            r == Ok::<Connection, Error>(Connection),
    {
        Ok(Connection)
    }

    /// Returns the "best" adapter on this system, preferring
    /// high-performance hardware adapters.
    ///
    /// This is an alias for `Connection::create_hardware_adapter()`.
    pub fn create_adapter(&self) -> (r: Result<Adapter, Error>)
        ensures
            r == Ok::<Adapter, Error>(Self::hardware_adapter_request()),
    {
        self.create_hardware_adapter()
    }

    /// Returns the "best" adapter on this system, preferring
    /// high-performance hardware adapters.
    pub fn create_hardware_adapter(&self) -> (r: Result<Adapter, Error>)
        ensures
            r == Ok::<Adapter, Error>(Self::hardware_adapter_request()),
    {
        Adapter::new(D3dDriverType::Unknown, VendorPreference::Avoid(INTEL_PCI_ID))
    }

    /// Returns the "best" adapter on this system, preferring low-power
    /// hardware adapters.
    pub fn create_low_power_adapter(&self) -> (r: Result<Adapter, Error>)
        ensures
            r == Ok::<Adapter, Error>(Self::low_power_adapter_request()),
    {
        Adapter::new(D3dDriverType::Unknown, VendorPreference::Prefer(INTEL_PCI_ID))
    }

    /// Returns the "best" adapter on this system, preferring software
    /// adapters.
    pub fn create_software_adapter(&self) -> (r: Result<Adapter, Error>)
        ensures
            r == Ok::<Adapter, Error>(Self::software_adapter_request()),
    {
        Adapter::new(D3dDriverType::Warp, VendorPreference::NoPreference)
    }

    /// Opens the hardware device corresponding to the given adapter.
    ///
    /// Device handles are local to a single thread.
    pub fn create_device(&self, adapter: &Adapter) -> (r: Result<Device, Error>)
        ensures
            r matches Ok(device) && device.spec_adapter() == *adapter,
    {
        Device::new(adapter)
    }

    /// Opens the display connection corresponding to the given window.
    /// The connection is stateless, so the window is ignored and this is
    /// equivalent to `new`.
    pub fn from_winit_window(_window: &Window) -> (r: Result<Connection, Error>)
        ensures
            r == Ok::<Connection, Error>(Connection),
    {
        Connection::new()
    }

    /// Creates a native widget type from the given window.
    ///
    /// Fails with `IncompatibleNativeWidget` exactly when the window's
    /// raw native handle is the null value; for any other handle the
    /// widget wraps that exact handle.
    pub fn create_native_widget_from_winit_window(
        &self,
        window: &Window,
    ) -> (r: Result<NativeWidget, Error>)
        ensures
            window.spec_raw_handle() == 0
                ==> r == Err::<NativeWidget, Error>(Error::IncompatibleNativeWidget),
            window.spec_raw_handle() != 0 ==> (r matches Ok(widget)
                && widget.spec_window_handle() == window.spec_raw_handle() && widget.wf()),
    {
        let window_handle = window.raw_handle();
        if window_handle == 0 {
            Err(Error::IncompatibleNativeWidget)
        } else {
            Ok(NativeWidget { window_handle })
        }
    }
}

impl ConnectionInterface for Connection {
    type Adapter = Adapter;

    type Device = Device;

    type NativeWidget = NativeWidget;

    fn new() -> Result<Connection, Error> {
        Connection::new()
    }

    fn create_adapter(&self) -> Result<Adapter, Error> {
        Connection::create_adapter(self)
    }

    fn create_hardware_adapter(&self) -> Result<Adapter, Error> {
        Connection::create_hardware_adapter(self)
    }

    fn create_low_power_adapter(&self) -> Result<Adapter, Error> {
        Connection::create_low_power_adapter(self)
    }

    fn create_software_adapter(&self) -> Result<Adapter, Error> {
        Connection::create_software_adapter(self)
    }

    fn create_device(&self, adapter: &Adapter) -> Result<Device, Error> {
        Connection::create_device(self, adapter)
    }

    fn from_winit_window(window: &Window) -> Result<Connection, Error> {
        Connection::from_winit_window(window)
    }

    fn create_native_widget_from_winit_window(
        &self,
        window: &Window,
    ) -> Result<NativeWidget, Error> {
        Connection::create_native_widget_from_winit_window(self, window)
    }
}

/// The adapter-selection policy, in one place: the hardware and the
/// low-power request share one driver type and differ only in the
/// polarity of their bias toward the Intel vendor id, and the software
/// request names the WARP rasterizer with no bias at all.
pub proof fn lemma_adapter_selection_policy()
    ensures
        Connection::hardware_adapter_request().driver_type
            == Connection::low_power_adapter_request().driver_type,
        Connection::hardware_adapter_request().vendor_preference
            == VendorPreference::Avoid(INTEL_PCI_ID),
        Connection::low_power_adapter_request().vendor_preference
            == VendorPreference::Prefer(INTEL_PCI_ID),
        Connection::software_adapter_request() == (Adapter {
            driver_type: D3dDriverType::Warp,
            vendor_preference: VendorPreference::NoPreference,
        }),
{
}

} // verus!
