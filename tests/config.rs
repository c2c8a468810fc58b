use librepods_att::config::{device_id_status, line_status, DeviceIdStatus};
use librepods_att::theme::MyTheme;

fn lines_of(text: &str) -> Vec<Vec<char>> {
    text.lines().map(|l| l.chars().collect()).collect()
}

fn chars(s: &str) -> Vec<char> {
    s.chars().collect()
}

#[test]
fn configured_value_is_recognised() {
    let text = "[General]\nName = box\n  DeviceID = bluetooth:004C:0000:0000  \n";
    assert_eq!(device_id_status(&lines_of(text)), DeviceIdStatus::Configured);
}

#[test]
fn configured_value_ignores_ascii_case() {
    assert_eq!(line_status(&chars("DeviceID=BLUETOOTH:004c:0000:0000")), Some(DeviceIdStatus::Configured));
}

#[test]
fn other_value_is_reported() {
    let text = "[General]\nDeviceID = usb:1234:5678:0001\nDeviceID = bluetooth:004C:0000:0000\n";
    assert_eq!(
        device_id_status(&lines_of(text)),
        DeviceIdStatus::WrongValue("usb:1234:5678:0001".to_string())
    );
}

#[test]
fn value_ends_at_next_equals_sign() {
    assert_eq!(
        line_status(&chars("DeviceID = a = b")),
        Some(DeviceIdStatus::WrongValue("a".to_string()))
    );
    assert_eq!(line_status(&chars("DeviceID=")), Some(DeviceIdStatus::WrongValue(String::new())));
}

#[test]
fn missing_setting_is_not_configured() {
    assert_eq!(device_id_status(&lines_of("[General]\n#DeviceID = x\nDeviceID\n")), DeviceIdStatus::NotConfigured);
    assert_eq!(device_id_status(&Vec::new()), DeviceIdStatus::NotConfigured);
    assert_eq!(line_status(&chars("Device = x")), None);
}

#[test]
fn status_descriptions() {
    assert_eq!(DeviceIdStatus::Configured.describe(), "Configured");
    assert_eq!(DeviceIdStatus::NotConfigured.describe(), "Not configured");
    assert_eq!(DeviceIdStatus::WrongValue("x".to_string()).describe(), "Wrong value: x");
    assert_eq!(DeviceIdStatus::FileNotFound.describe(), "Config file not found");
    assert_eq!(DeviceIdStatus::ParseError("denied".to_string()).describe(), "Error: denied");
}

#[test]
fn theme_labels() {
    assert_eq!(MyTheme::Light.label(), "Light");
    assert_eq!(MyTheme::SolarizedDark.label(), "Solarized Dark");
    assert_eq!(MyTheme::CatppuccinFrappe.label(), "Catppuccin Frappé");
    assert_eq!(MyTheme::TokyoNightStorm.label(), "Tokyo Night Storm");
    assert_eq!(MyTheme::Ferra.label(), "Ferra");
}
