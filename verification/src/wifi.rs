//! The connectivity manager: a blocking four-phase wireless bring-up over a
//! platform-supplied radio driver, with liveness and link diagnostics.

use vstd::prelude::*;
use vstd::string::StringSliceAdditionalSpecFns;
use crate::error::Error;
use crate::error::is_phase_failure;

verus! {

/// Longest network identifier the radio's configuration field can encode,
/// in bytes.
pub const SSID_MAX_BYTES: usize = 32;

/// Longest network secret the radio's configuration field can encode, in
/// bytes.
pub const PASSWORD_MAX_BYTES: usize = 64;

/// Credentials the radio can encode: identifier and secret both non-empty
/// and within the radio's field widths.
pub open spec fn valid_credentials(ssid: Seq<u8>, password: Seq<u8>) -> bool {
    1 <= ssid.len() && ssid.len() <= SSID_MAX_BYTES && 1 <= password.len()
        && password.len() <= PASSWORD_MAX_BYTES
}

/// Check a pair of credentials against the radio's encoding limits.
pub fn credentials_valid(ssid: &str, password: &str) -> (b: bool)
    ensures
        b == valid_credentials(ssid.spec_bytes(), password.spec_bytes()),
{
    let ssid_bytes = ssid.as_bytes();
    let password_bytes = password.as_bytes();
    1 <= ssid_bytes.len() && ssid_bytes.len() <= SSID_MAX_BYTES && 1 <= password_bytes.len()
        && password_bytes.len() <= PASSWORD_MAX_BYTES
}

/// The connection phase. `connect` walks `Idle` through the four transient
/// phases to `Connected`; a failure in any phase leaves `Failed` with the
/// error naming that phase, and `disconnect` returns the manager to `Idle`.
#[derive(Clone, Copy, Debug, PartialEq, Eq, Structural)]
pub enum Phase {
    Idle,
    Configuring,
    Starting,
    Connecting,
    WaitingForAddress,
    Connected,
    Failed(Error),
}

/// A plain projection of the driver's network state while associated:
/// the interface's address data and the station's hardware address.
#[derive(Clone, Copy, Debug, PartialEq, Eq)]
pub struct LinkInfo {
    /// Interface address, as a 32-bit value in network order.
    pub ip: u32,
    /// Subnet mask, same encoding.
    pub subnet_mask: u32,
    /// Gateway address, same encoding.
    pub gateway: u32,
    /// Primary name-server address, same encoding.
    pub dns: u32,
    /// Station hardware address.
    pub mac: [u8; 6],
}

/// The radio capability the platform supplies. Each phase method blocks the
/// calling thread until the driver reports completion or failure of that
/// phase; timeouts, if any, are the driver's own.
pub trait RadioDriver {
    /// Apply client-mode configuration with the given credentials.
    /// `true` when the driver accepted the configuration.
    fn configure_client(&mut self, ssid: &str, password: &str) -> bool;

    /// Activate the radio. `true` once it is running.
    fn start(&mut self) -> bool;

    /// Issue the association request and block until the driver reports
    /// association success (`true`) or failure (`false`).
    fn associate(&mut self) -> bool;

    /// Block until the interface reports a usable address (`true`) or the
    /// driver gives up (`false`).
    fn wait_for_address(&mut self) -> bool;

    /// Non-blocking liveness flag; `None` when the driver cannot be
    /// queried at all.
    fn link_up(&self) -> Option<bool>;

    /// Current address and link projection; `None` when the driver cannot
    /// be queried at all.
    fn link_info(&self) -> Option<LinkInfo>;

    /// Drop the association, best effort. `true` on clean disassociation.
    fn disassociate(&mut self) -> bool;

    /// Stop the radio, best effort. `true` on clean stop.
    fn stop(&mut self) -> bool;
}

/// Drives the bring-up sequence for one exclusively owned radio and answers
/// status queries. The view of a manager is its current [`Phase`].
pub struct WifiConnection<D: RadioDriver> {
    driver: D,
    phase: Phase,
}

impl<D: RadioDriver> View for WifiConnection<D> {
    type V = Phase;

    closed spec fn view(&self) -> Phase {
        self.phase
    }
}

impl<D: RadioDriver> WifiConnection<D> {
    /// Take ownership of the platform's radio driver. A fresh manager is
    /// `Idle`; no driver call is made.
    pub fn new(driver: D) -> (c: Self)
        ensures
            c@ == Phase::Idle,
    {
        WifiConnection { driver, phase: Phase::Idle }
    }

    /// The current connection phase.
    pub fn phase(&self) -> (p: Phase)
        ensures
            p == self@,
    {
        self.phase
    }

    /// Borrow the radio driver for read-only platform diagnostics.
    pub fn wifi(&self) -> &D {
        &self.driver
    }

    /// Drive the four-phase bring-up in strict order: configure the client,
    /// start the radio, associate, wait for an address. Malformed
    /// credentials are rejected as `InvalidCredentials` before any driver
    /// interaction, leaving the manager (driver included) untouched. A
    /// driver failure in a phase stops the sequence there, and the manager
    /// is left `Failed` with the error naming exactly that phase; on success
    /// of all four phases it is `Connected`. The manager never retries on
    /// its own: after a failure the caller must `disconnect` before trying
    /// again.
    pub fn connect(&mut self, ssid: &str, password: &str) -> (r: Result<(), Error>)
        requires
            old(self)@ == Phase::Idle,
        ensures
            r == Err::<(), Error>(Error::InvalidCredentials) <==> !valid_credentials(
                ssid.spec_bytes(),
                password.spec_bytes(),
            ),
            !valid_credentials(ssid.spec_bytes(), password.spec_bytes()) ==> *final(self)
                == *old(self),
            r is Ok ==> final(self)@ == Phase::Connected,
            r matches Err(e) ==> e == Error::InvalidCredentials || (is_phase_failure(e)
                && final(self)@ == Phase::Failed(e)),
    {
        if !credentials_valid(ssid, password) {
            return Err(Error::InvalidCredentials);
        }
        self.phase = Phase::Configuring;
        if !self.driver.configure_client(ssid, password) {
            self.phase = Phase::Failed(Error::ConfigurationFailed);
            return Err(Error::ConfigurationFailed);
        }
        self.phase = Phase::Starting;
        if !self.driver.start() {
            self.phase = Phase::Failed(Error::RadioStartFailed);
            return Err(Error::RadioStartFailed);
        }
        self.phase = Phase::Connecting;
        if !self.driver.associate() {
            self.phase = Phase::Failed(Error::AssociationFailed);
            return Err(Error::AssociationFailed);
        }
        self.phase = Phase::WaitingForAddress;
        if !self.driver.wait_for_address() {
            self.phase = Phase::Failed(Error::AddressAcquisitionFailed);
            return Err(Error::AddressAcquisitionFailed);
        }
        self.phase = Phase::Connected;
        Ok(())
    }

    /// Non-blocking liveness query. In every phase but `Connected` the
    /// answer is `false` without touching the driver (a failed or idle
    /// manager is never live); when `Connected`, the driver's liveness flag
    /// is returned, and `StatusUnavailable` only when the driver itself
    /// cannot be queried.
    pub fn is_connected(&self) -> (r: Result<bool, Error>)
        ensures
            !(self@ is Connected) ==> r == Ok::<bool, Error>(false),
            r matches Err(e) ==> e == Error::StatusUnavailable && self@ is Connected,
    {
        match self.phase {
            Phase::Connected => {},
            _ => {
                return Ok(false);
            },
        }
        match self.driver.link_up() {
            Some(up) => Ok(up),
            None => Err(Error::StatusUnavailable),
        }
    }

    /// Address and link metadata, a read-only projection of driver state.
    /// Valid only when `Connected`: outside that phase the call fails with
    /// `NotConnected` rather than returning stale data, and when `Connected`
    /// it fails only with `StatusUnavailable`, when the driver itself cannot
    /// be queried.
    pub fn link_info(&self) -> (r: Result<LinkInfo, Error>)
        ensures
            r == Err::<LinkInfo, Error>(Error::NotConnected) <==> !(self@ is Connected),
            r matches Err(e) ==> e == Error::NotConnected || e == Error::StatusUnavailable,
    {
        match self.phase {
            Phase::Connected => {},
            _ => {
                return Err(Error::NotConnected);
            },
        }
        match self.driver.link_info() {
            Some(info) => Ok(info),
            None => Err(Error::StatusUnavailable),
        }
    }

    /// One status snapshot for a display loop: `Ok(None)` when not live,
    /// `Ok(Some(info))` with the link projection when live, and an error
    /// only when the driver itself cannot be queried while `Connected`.
    pub fn status(&self) -> (r: Result<Option<LinkInfo>, Error>)
        ensures
            !(self@ is Connected) ==> r == Ok::<Option<LinkInfo>, Error>(None),
            r matches Err(e) ==> e == Error::StatusUnavailable && self@ is Connected,
            r matches Ok(i) && i is Some ==> self@ is Connected,
    {
        let live = match self.is_connected() {
            Ok(up) => up,
            Err(e) => {
                return Err(e);
            },
        };
        if !live {
            return Ok(None);
        }
        match self.link_info() {
            Ok(info) => Ok(Some(info)),
            Err(e) => Err(e),
        }
    }

    /// Best-effort teardown. From `Idle` it is a no-op success (driver
    /// untouched). Otherwise both cleanup steps — disassociation and radio
    /// stop — are attempted regardless of intermediate failure, a failure is
    /// surfaced as `StatusUnavailable` (the driver faulted during cleanup),
    /// and the manager is left `Idle` in every case: it never sticks in an
    /// intermediate state.
    pub fn disconnect(&mut self) -> (r: Result<(), Error>)
        ensures
            final(self)@ == Phase::Idle,
            old(self)@ == Phase::Idle ==> r == Ok::<(), Error>(()) && *final(self) == *old(self),
            r matches Err(e) ==> e == Error::StatusUnavailable,
    {
        match self.phase {
            Phase::Idle => {
                return Ok(());
            },
            _ => {},
        }
        let disassociated = self.driver.disassociate();
        let stopped = self.driver.stop();
        self.phase = Phase::Idle;
        if disassociated && stopped {
            Ok(())
        } else {
            Err(Error::StatusUnavailable)
        }
    }
}

/// A manager that a failed bring-up left in `Failed(reason)` is in
/// particular not `Connected`, so its liveness query answers `false`
/// instead of blocking or erroring.
pub proof fn lemma_failed_is_not_connected(e: Error)
    ensures
        !(Phase::Failed(e) is Connected),
{
}

} // verus!
