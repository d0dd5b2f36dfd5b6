use pcibind::listing::list_lines;
use pcibind::model::Device;

fn device(id: &str, driver: Option<&str>) -> Device {
    Device { id: String::from(id), driver: driver.map(String::from) }
}

#[test]
fn listing_prints_devices_nested_drivers_and_drivers() {
    let devices = vec![device("0000:00:02.0", Some("i915")), device("0000:00:1f.0", None)];
    let drivers = vec![String::from("i915"), String::from("ahci")];
    let lines = list_lines(&devices, &drivers);
    assert_eq!(
        lines,
        vec![
            String::from("Devices:"),
            String::from("\tPCI Device: 0000:00:02.0"),
            String::from("\t\tDriver: i915"),
            String::from("\tPCI Device: 0000:00:1f.0"),
            String::from("Drivers:"),
            String::from("\tPCI Driver: i915"),
            String::from("\tPCI Driver: ahci"),
        ]
    );
}

#[test]
fn listing_of_empty_enumerations_holds_only_headers() {
    let lines = list_lines(&Vec::new(), &Vec::new());
    assert_eq!(lines, vec![String::from("Devices:"), String::from("Drivers:")]);
}

#[test]
fn listing_has_one_line_per_device_driver_and_bound_pair() {
    let devices = vec![
        device("0000:00:02.0", Some("i915")),
        device("0000:00:1f.0", None),
        device("0000:00:1f.3", Some("snd_hda_intel")),
    ];
    let drivers = vec![String::from("i915")];
    let lines = list_lines(&devices, &drivers);
    assert_eq!(lines.len(), 2 + 3 + 2 + 1);
}
