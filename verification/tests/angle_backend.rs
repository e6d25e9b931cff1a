use surfman::angle::{Adapter, Connection, D3dDriverType, VendorPreference, INTEL_PCI_ID};
use surfman::error::Error;
use surfman::window::Window;

#[test]
fn new_always_succeeds() {
    assert!(Connection::new().is_ok());
}

#[test]
fn create_adapter_aliases_hardware_adapter() {
    let connection = Connection::new().unwrap();
    assert_eq!(
        connection.create_adapter(),
        connection.create_hardware_adapter()
    );
}

#[test]
fn hardware_adapter_avoids_intel() {
    let connection = Connection::new().unwrap();
    let adapter = connection.create_hardware_adapter().unwrap();
    assert_eq!(adapter.driver_type, D3dDriverType::Unknown);
    assert_eq!(adapter.vendor_preference, VendorPreference::Avoid(0x8086));
}

#[test]
fn low_power_adapter_prefers_intel() {
    let connection = Connection::new().unwrap();
    let adapter = connection.create_low_power_adapter().unwrap();
    assert_eq!(adapter.driver_type, D3dDriverType::Unknown);
    assert_eq!(adapter.vendor_preference, VendorPreference::Prefer(0x8086));
}

#[test]
fn software_adapter_requests_warp_without_preference() {
    let connection = Connection::new().unwrap();
    let adapter = connection.create_software_adapter().unwrap();
    assert_eq!(adapter.driver_type, D3dDriverType::Warp);
    assert_eq!(adapter.vendor_preference, VendorPreference::NoPreference);
}

#[test]
fn hardware_and_low_power_share_a_driver_type() {
    let connection = Connection::new().unwrap();
    let hardware = connection.create_hardware_adapter().unwrap();
    let low_power = connection.create_low_power_adapter().unwrap();
    assert_eq!(hardware.driver_type, low_power.driver_type);
    assert_eq!(INTEL_PCI_ID, 0x8086);
}

#[test]
fn adapter_new_builds_the_exact_descriptor() {
    let adapter = Adapter::new(D3dDriverType::Warp, VendorPreference::Prefer(0x10de)).unwrap();
    assert_eq!(adapter.driver_type, D3dDriverType::Warp);
    assert_eq!(adapter.vendor_preference, VendorPreference::Prefer(0x10de));
}

#[test]
fn create_device_records_the_adapter() {
    let connection = Connection::new().unwrap();
    let adapter = connection.create_low_power_adapter().unwrap();
    let device = connection.create_device(&adapter).unwrap();
    assert_eq!(device.adapter(), adapter);
}

#[test]
fn from_winit_window_ignores_the_window() {
    let null_window = Window::from_raw_handle(0);
    assert!(Connection::from_winit_window(&null_window).is_ok());
    let window = Window::from_raw_handle(0x20);
    assert!(Connection::from_winit_window(&window).is_ok());
}

#[test]
fn native_widget_rejects_the_null_handle() {
    let connection = Connection::new().unwrap();
    let null_window = Window::from_raw_handle(0);
    let result = connection.create_native_widget_from_winit_window(&null_window);
    assert!(matches!(result, Err(Error::IncompatibleNativeWidget)));
}

#[test]
fn native_widget_wraps_the_exact_handle() {
    let connection = Connection::new().unwrap();
    let handle: usize = 0x1234;
    let window = Window::from_raw_handle(handle);
    let widget = connection
        .create_native_widget_from_winit_window(&window)
        .unwrap();
    assert_eq!(widget.window_handle(), handle);
}

#[test]
fn window_round_trips_its_raw_handle() {
    let handle: usize = 0xabcd;
    assert_eq!(Window::from_raw_handle(handle).raw_handle(), handle);
}
