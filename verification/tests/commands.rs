use pcibind::model::Device;
use pcibind::plan::{plan_bind, plan_unbind, BindPlan, UnbindPlan};
use pcibind::report::{
    bind_confirmation, device_not_found, driver_not_found, unbind_confirmation, unbind_not_found,
};

fn device(id: &str, driver: Option<&str>) -> Device {
    Device { id: String::from(id), driver: driver.map(String::from) }
}

fn sample_devices() -> Vec<Device> {
    vec![device("0000:00:02.0", Some("i915")), device("0000:00:1f.0", None)]
}

fn sample_drivers() -> Vec<String> {
    vec![String::from("i915"), String::from("ahci")]
}

#[test]
fn bind_known_pair_names_both() {
    let r = plan_bind(&sample_devices(), &sample_drivers(), "0000:00:02.0", "i915");
    assert!(matches!(r, BindPlan::Bind { device: 0, driver: 0 }));
    assert_eq!(
        bind_confirmation("0000:00:02.0", "i915"),
        "Device 0000:00:02.0 binded to the driver i915"
    );
}

#[test]
fn bind_unknown_device_reports_not_found() {
    let r = plan_bind(&sample_devices(), &sample_drivers(), "0000:00:09.9", "i915");
    assert!(matches!(r, BindPlan::DeviceNotFound));
    assert_eq!(device_not_found("0000:00:09.9"), "Device 0000:00:09.9 not found");
}

#[test]
fn bind_unknown_driver_reports_not_found() {
    let r = plan_bind(&sample_devices(), &sample_drivers(), "0000:00:02.0", "nouveau");
    assert!(matches!(r, BindPlan::DriverNotFound));
    assert_eq!(driver_not_found("nouveau"), "Driver nouveau not found");
}

#[test]
fn bind_trims_user_input() {
    let r = plan_bind(&sample_devices(), &sample_drivers(), " 0000:00:02.0 \n", "\ti915 ");
    assert!(matches!(r, BindPlan::Bind { device: 0, driver: 0 }));
}

#[test]
fn bind_on_empty_enumeration_reports_not_found() {
    let r = plan_bind(&Vec::new(), &Vec::new(), "0000:00:02.0", "i915");
    assert!(matches!(r, BindPlan::DeviceNotFound));
}

#[test]
fn unbind_known_device_is_resolved() {
    let r = plan_unbind(&sample_devices(), "0000:00:02.0");
    assert!(matches!(r, UnbindPlan::Unbind { device: 0 }));
    assert_eq!(
        unbind_confirmation("i915", "0000:00:02.0"),
        "drv i915 unbinded from 0000:00:02.0"
    );
}

#[test]
fn unbind_unknown_device_reports_not_found() {
    let r = plan_unbind(&sample_devices(), "0000:00:09.9");
    assert!(matches!(r, UnbindPlan::DeviceNotFound));
    assert_eq!(unbind_not_found(), "device not found");
}

#[test]
fn unbind_trims_user_input() {
    let r = plan_unbind(&sample_devices(), "  0000:00:1f.0\t");
    assert!(matches!(r, UnbindPlan::Unbind { device: 1 }));
}

#[test]
fn lookup_returns_first_of_equal_identifiers() {
    let devices = vec![device("0000:00:02.0", None), device("0000:00:02.0", Some("i915"))];
    let r = plan_unbind(&devices, "0000:00:02.0");
    assert!(matches!(r, UnbindPlan::Unbind { device: 0 }));
}
