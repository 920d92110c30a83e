//! Plain configuration data, constructed once at process start by the
//! platform's loader and passed into the components that consume it. The
//! core performs only the basic non-emptiness and bounds validation here;
//! parsing belongs to the loader.

use vstd::prelude::*;
use vstd::string::StringSliceAdditionalSpecFns;
use vstd::utf8::encode_utf8;
use crate::error::Error;
use crate::led::pin_supported;
use crate::wifi::valid_credentials;
use crate::wifi::credentials_valid;

verus! {

/// Credentials of the wireless network to join.
#[derive(Clone, Debug, PartialEq, Eq)]
pub struct WifiConfig {
    pub ssid: String,
    pub password: String,
}

/// Identity of this device and of the output line it drives.
#[derive(Clone, Debug, PartialEq, Eq)]
pub struct DeviceConfig {
    pub name: String,
    pub led_pin: u8,
}

/// Vendor identity for the deferred higher-level device protocol.
#[derive(Clone, Debug, PartialEq, Eq)]
pub struct MatterConfig {
    pub vendor_id: u16,
}

/// The whole configuration surface the core consumes.
#[derive(Clone, Debug, PartialEq, Eq)]
pub struct Config {
    pub wifi: WifiConfig,
    pub device: DeviceConfig,
    pub matter: MatterConfig,
}

impl Config {
    /// Whether the wireless credentials fit the radio's encoding limits.
    pub open spec fn spec_credentials_ok(&self) -> bool {
        valid_credentials(encode_utf8(self.wifi.ssid@), encode_utf8(self.wifi.password@))
    }

    /// Basic validation of the loaded data: the credentials must fit the
    /// radio's encoding limits (else `InvalidCredentials`), and the output
    /// line must be one this board supports (else `ConfigurationFailed`).
    /// Credentials are checked first.
    pub fn validate(&self) -> (r: Result<(), Error>)
        ensures
            r is Ok <==> self.spec_credentials_ok() && pin_supported(self.device.led_pin),
            !self.spec_credentials_ok() ==> r == Err::<(), Error>(Error::InvalidCredentials),
            self.spec_credentials_ok() && !pin_supported(self.device.led_pin) ==> r == Err::<
                (),
                Error,
            >(Error::ConfigurationFailed),
    {
        if !credentials_valid(self.wifi.ssid.as_str(), self.wifi.password.as_str()) {
            return Err(Error::InvalidCredentials);
        }
        let pin = self.device.led_pin;
        if !(pin == 2 || pin == 8 || pin == 10) {
            return Err(Error::ConfigurationFailed);
        }
        Ok(())
    }
}

} // verus!
