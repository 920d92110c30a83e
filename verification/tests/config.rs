use device_core::config::Config;
use device_core::config::DeviceConfig;
use device_core::config::MatterConfig;
use device_core::config::WifiConfig;
use device_core::error::Error;

fn sample_config() -> Config {
    Config {
        wifi: WifiConfig {
            ssid: "home-net".to_string(),
            password: "secret123".to_string(),
        },
        device: DeviceConfig {
            name: "esp32-c3-light".to_string(),
            led_pin: 8,
        },
        matter: MatterConfig { vendor_id: 0xFFF1 },
    }
}

#[test]
fn validate_accepts_a_well_formed_config() {
    assert_eq!(sample_config().validate(), Ok(()));
}

#[test]
fn validate_rejects_empty_or_oversize_credentials() {
    let mut config = sample_config();
    config.wifi.ssid = String::new();
    assert_eq!(config.validate(), Err(Error::InvalidCredentials));

    let mut config = sample_config();
    config.wifi.password = String::new();
    assert_eq!(config.validate(), Err(Error::InvalidCredentials));

    let mut config = sample_config();
    config.wifi.ssid = "s".repeat(33);
    assert_eq!(config.validate(), Err(Error::InvalidCredentials));

    let mut config = sample_config();
    config.wifi.password = "p".repeat(65);
    assert_eq!(config.validate(), Err(Error::InvalidCredentials));
}

#[test]
fn validate_rejects_unsupported_led_pin() {
    let mut config = sample_config();
    config.device.led_pin = 7;
    assert_eq!(config.validate(), Err(Error::ConfigurationFailed));
}

#[test]
fn validate_reports_bad_credentials_before_bad_pin() {
    let mut config = sample_config();
    config.wifi.ssid = String::new();
    config.device.led_pin = 7;
    assert_eq!(config.validate(), Err(Error::InvalidCredentials));
}

#[test]
fn validate_accepts_every_supported_pin() {
    for pin in [2u8, 8, 10] {
        let mut config = sample_config();
        config.device.led_pin = pin;
        assert_eq!(config.validate(), Ok(()));
    }
}
