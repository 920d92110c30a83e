//! Device connectivity and peripheral control.
//!
//! Two independent components, each generic over the driver capability the
//! platform supplies at construction time:
//!
//! * [`led::LedController`] owns one digital output line and keeps a logical
//!   state that mirrors the last level successfully written to hardware.
//! * [`wifi::WifiConnection`] drives the blocking four-phase wireless
//!   bring-up (configure, start, associate, acquire address) and reports
//!   liveness and link diagnostics afterwards.
//!
//! [`config`] holds the plain configuration data both components consume.

pub mod config;
pub mod error;
pub mod led;
pub mod wifi;
