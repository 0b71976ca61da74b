//! Wi-Fi station controller: configures, starts and associates the station,
//! and after any failure or lost link waits a fixed cooldown before trying
//! again, for as long as the node runs.

use vstd::prelude::*;

verus! {

/// Wait before each new attempt after a failure or a lost link, in
/// milliseconds.
pub const RECONNECT_COOLDOWN_MS: u64 = 5000;

/// Longest SSID, in bytes.
pub const MAX_SSID_LEN: usize = 32;

/// Longest passphrase, in bytes.
pub const MAX_PASSWORD_LEN: usize = 64;

/// Where the station stands.
#[derive(Debug, Clone, Copy, PartialEq, Eq, Structural)]
pub enum WifiPhase {
    Idle,
    Configuring,
    Starting,
    Connecting,
    Connected,
    Cooldown,
}

/// What the firmware observed after performing the last action.
#[derive(Debug, Clone, Copy, PartialEq, Eq, Structural)]
pub enum WifiEvent {
    ConfigApplied,
    ConfigRejected,
    Started,
    StartFailed,
    Connected,
    ConnectFailed,
    Disconnected,
    CooldownElapsed,
}

/// What the firmware does next.
#[derive(Debug, Clone, Copy, PartialEq, Eq, Structural)]
pub enum WifiAction {
    /// Hand the station configuration (SSID and passphrase) to the driver.
    ApplyConfiguration,
    /// Start the radio in station mode.
    StartRadio,
    /// Try to associate with the access point.
    Connect,
    /// Stay connected until the driver reports the link lost.
    WaitForDisconnect,
    /// Sleep this many milliseconds, then report `CooldownElapsed`.
    Wait { ms: u64 },
    /// Nothing: the event does not apply in this phase.
    Nothing,
}

/// A failure of the Wi-Fi link.
#[derive(Debug, Clone, Copy, PartialEq, Eq, Structural)]
pub enum LinkFault {
    /// The SSID is empty or too long, or the passphrase is too long.
    InvalidCredentials,
    /// The driver refused the configuration.
    Configure,
    /// The radio did not start.
    Start,
    /// Association failed.
    Connect,
    /// The link was lost.
    Disconnected,
}

/// The station's state as the transitions see it.
#[derive(Debug, Clone, Copy, PartialEq, Eq, Structural)]
pub struct WifiState {
    pub phase: WifiPhase,
    /// Whether the radio has been started; it then stays started.
    pub started: bool,
}

/// Entering the cooldown from `s`, with the wait that it asks for.
pub open spec fn cooldown_after(s: WifiState) -> (WifiState, WifiAction) {
    (WifiState { phase: WifiPhase::Cooldown, ..s }, WifiAction::Wait { ms: RECONNECT_COOLDOWN_MS })
}

/// The transition of the station on `event`.
pub open spec fn wifi_step(s: WifiState, event: WifiEvent) -> (WifiState, WifiAction) {
    match (s.phase, event) {
        (WifiPhase::Configuring, WifiEvent::ConfigApplied) => (
            WifiState { phase: WifiPhase::Starting, ..s },
            WifiAction::StartRadio,
        ),
        (WifiPhase::Configuring, WifiEvent::ConfigRejected) => cooldown_after(s),
        (WifiPhase::Starting, WifiEvent::Started) => (
            WifiState { phase: WifiPhase::Connecting, started: true },
            WifiAction::Connect,
        ),
        (WifiPhase::Starting, WifiEvent::StartFailed) => cooldown_after(s),
        (WifiPhase::Connecting, WifiEvent::Connected) => (
            WifiState { phase: WifiPhase::Connected, ..s },
            WifiAction::WaitForDisconnect,
        ),
        (WifiPhase::Connecting, WifiEvent::ConnectFailed) => cooldown_after(s),
        (WifiPhase::Connected, WifiEvent::Disconnected) => cooldown_after(s),
        (WifiPhase::Cooldown, WifiEvent::CooldownElapsed) => if s.started {
            (WifiState { phase: WifiPhase::Connecting, ..s }, WifiAction::Connect)
        } else {
            (WifiState { phase: WifiPhase::Configuring, ..s }, WifiAction::ApplyConfiguration)
        },
        _ => (s, WifiAction::Nothing),
    }
}

/// What `start` does: an idle station asks for its configuration to be
/// applied; in any other phase nothing happens.
pub open spec fn wifi_start(s: WifiState) -> (WifiState, WifiAction) {
    if s.phase == WifiPhase::Idle {
        (WifiState { phase: WifiPhase::Configuring, ..s }, WifiAction::ApplyConfiguration)
    } else {
        (s, WifiAction::Nothing)
    }
}

/// The fault that `event` reports in `phase`, if any.
pub open spec fn fault_of_event(phase: WifiPhase, event: WifiEvent) -> Option<LinkFault> {
    match (phase, event) {
        (WifiPhase::Configuring, WifiEvent::ConfigRejected) => Some(LinkFault::Configure),
        (WifiPhase::Starting, WifiEvent::StartFailed) => Some(LinkFault::Start),
        (WifiPhase::Connecting, WifiEvent::ConnectFailed) => Some(LinkFault::Connect),
        (WifiPhase::Connected, WifiEvent::Disconnected) => Some(LinkFault::Disconnected),
        _ => None,
    }
}

/// The station controller, with the credentials it connects with.
pub struct WifiStation {
    ssid: String,
    password: String,
    state: WifiState,
    last_fault: Option<LinkFault>,
}

impl WifiStation {
    /// The station's state.
    pub closed spec fn spec_state(&self) -> WifiState {
        self.state
    }

    /// The SSID it connects to.
    pub closed spec fn spec_ssid(&self) -> Seq<char> {
        self.ssid@
    }

    /// The passphrase it connects with.
    pub closed spec fn spec_password(&self) -> Seq<char> {
        self.password@
    }

    /// The last failure observed, if any.
    pub closed spec fn spec_last_fault(&self) -> Option<LinkFault> {
        self.last_fault
    }

    /// An idle station for `ssid` and `password`. The SSID must be 1 to 32
    /// bytes and the passphrase at most 64 bytes; other credentials are
    /// refused with `InvalidCredentials`.
    pub fn new(ssid: &str, password: &str) -> (r: Result<WifiStation, LinkFault>)
        ensures
            r is Ok <==> (1 <= ssid.len() <= MAX_SSID_LEN
                && password.len() <= MAX_PASSWORD_LEN),
            r is Err ==> r == Err::<WifiStation, LinkFault>(LinkFault::InvalidCredentials),
            r matches Ok(st) ==> st.spec_ssid() == ssid@ && st.spec_password() == password@
                && st.spec_state() == (WifiState { phase: WifiPhase::Idle, started: false })
                && st.spec_last_fault() is None,
    {
        let ssid_len = ssid.len();
        let password_len = password.len();
        if ssid_len == 0 || ssid_len > MAX_SSID_LEN || password_len > MAX_PASSWORD_LEN {
            return Err(LinkFault::InvalidCredentials);
        }
        Ok(
            WifiStation {
                ssid: ssid.to_owned(),
                password: password.to_owned(),
                state: WifiState { phase: WifiPhase::Idle, started: false },
                last_fault: None,
            },
        )
    }

    /// The SSID it connects to.
    pub fn ssid(&self) -> (r: &str)
        ensures
            r@ == self.spec_ssid(),
    {
        self.ssid.as_str()
    }

    /// The passphrase it connects with.
    pub fn password(&self) -> (r: &str)
        ensures
            r@ == self.spec_password(),
    {
        self.password.as_str()
    }

    /// The station's state.
    pub fn state(&self) -> (r: WifiState)
        ensures
            r == self.spec_state(),
    {
        self.state
    }

    /// The last failure observed, if any.
    pub fn last_fault(&self) -> (r: Option<LinkFault>)
        ensures
            r == self.spec_last_fault(),
    {
        self.last_fault
    }

    /// Leaves `Idle` by asking for the configuration to be applied; in any
    /// other phase it changes nothing.
    pub fn start(&mut self) -> (r: WifiAction)
        ensures
            (final(self).spec_state(), r) == wifi_start(old(self).spec_state()),
            final(self).spec_ssid() == old(self).spec_ssid(),
            final(self).spec_password() == old(self).spec_password(),
            final(self).spec_last_fault() == old(self).spec_last_fault(),
    {
        if self.state.phase == WifiPhase::Idle {
            self.state = WifiState { phase: WifiPhase::Configuring, ..self.state };
            WifiAction::ApplyConfiguration
        } else {
            WifiAction::Nothing
        }
    }

    /// Advances on what the firmware observed and says what to do next.
    pub fn on_event(&mut self, event: WifiEvent) -> (r: WifiAction)
        ensures
            (final(self).spec_state(), r) == wifi_step(old(self).spec_state(), event),
            final(self).spec_last_fault() == (match fault_of_event(old(self).spec_state().phase, event) {
                Some(f) => Some(f),
                None => old(self).spec_last_fault(),
            }),
            final(self).spec_ssid() == old(self).spec_ssid(),
            final(self).spec_password() == old(self).spec_password(),
    {
        let s = self.state;
        let cooldown = WifiAction::Wait { ms: RECONNECT_COOLDOWN_MS };
        match (s.phase, event) {
            (WifiPhase::Configuring, WifiEvent::ConfigApplied) => {
                self.state = WifiState { phase: WifiPhase::Starting, ..s };
                WifiAction::StartRadio
            },
            (WifiPhase::Configuring, WifiEvent::ConfigRejected) => {
                self.state = WifiState { phase: WifiPhase::Cooldown, ..s };
                self.last_fault = Some(LinkFault::Configure);
                cooldown
            },
            (WifiPhase::Starting, WifiEvent::Started) => {
                self.state = WifiState { phase: WifiPhase::Connecting, started: true };
                WifiAction::Connect
            },
            (WifiPhase::Starting, WifiEvent::StartFailed) => {
                self.state = WifiState { phase: WifiPhase::Cooldown, ..s };
                self.last_fault = Some(LinkFault::Start);
                cooldown
            },
            (WifiPhase::Connecting, WifiEvent::Connected) => {
                self.state = WifiState { phase: WifiPhase::Connected, ..s };
                WifiAction::WaitForDisconnect
            },
            (WifiPhase::Connecting, WifiEvent::ConnectFailed) => {
                self.state = WifiState { phase: WifiPhase::Cooldown, ..s };
                self.last_fault = Some(LinkFault::Connect);
                cooldown
            },
            (WifiPhase::Connected, WifiEvent::Disconnected) => {
                self.state = WifiState { phase: WifiPhase::Cooldown, ..s };
                self.last_fault = Some(LinkFault::Disconnected);
                cooldown
            },
            (WifiPhase::Cooldown, WifiEvent::CooldownElapsed) => {
                if s.started {
                    self.state = WifiState { phase: WifiPhase::Connecting, ..s };
                    WifiAction::Connect
                } else {
                    self.state = WifiState { phase: WifiPhase::Configuring, ..s };
                    WifiAction::ApplyConfiguration
                }
            },
            _ => WifiAction::Nothing,
        }
    }
}

/// An idle station started with a driver that accepts the configuration,
/// starts and associates, passes through `Configuring`, `Starting` and
/// `Connecting` to `Connected`; a lost link then
/// sends it into the cooldown, with a wait of `RECONNECT_COOLDOWN_MS`, and
/// only the end of that wait brings it back to `Connecting`.
pub proof fn lemma_connect_and_recover()
    ensures
        ({
            let (s0, a0) = wifi_start(WifiState { phase: WifiPhase::Idle, started: false });
            let (s1, a1) = wifi_step(s0, WifiEvent::ConfigApplied);
            let (s2, a2) = wifi_step(s1, WifiEvent::Started);
            let (s3, a3) = wifi_step(s2, WifiEvent::Connected);
            let (s4, a4) = wifi_step(s3, WifiEvent::Disconnected);
            let (s5, a5) = wifi_step(s4, WifiEvent::CooldownElapsed);
            &&& s0.phase == WifiPhase::Configuring && a0 == WifiAction::ApplyConfiguration
            &&& s1.phase == WifiPhase::Starting && a1 == WifiAction::StartRadio
            &&& s2.phase == WifiPhase::Connecting && a2 == WifiAction::Connect
            &&& s3.phase == WifiPhase::Connected && a3 == WifiAction::WaitForDisconnect
            &&& s4.phase == WifiPhase::Cooldown && a4 == (WifiAction::Wait { ms: RECONNECT_COOLDOWN_MS })
            &&& s5.phase == WifiPhase::Connecting && a5 == WifiAction::Connect
        }),
{
}

/// Every way into `Connecting` comes from a fresh start or from the end of a
/// cooldown, and every way into the cooldown asks for a wait of the full
/// `RECONNECT_COOLDOWN_MS`: after a lost link or a failure, no new attempt
/// starts before the cooldown has been waited.
pub proof fn lemma_retry_waits_cooldown(s: WifiState, event: WifiEvent)
    ensures
        wifi_step(s, event).0.phase == WifiPhase::Connecting && s.phase != WifiPhase::Connecting ==> (
        s.phase == WifiPhase::Starting && event == WifiEvent::Started) || (s.phase == WifiPhase::Cooldown
            && event == WifiEvent::CooldownElapsed),
        wifi_step(s, event).0.phase == WifiPhase::Cooldown && s.phase != WifiPhase::Cooldown ==> wifi_step(
            s,
            event,
        ).1 == (WifiAction::Wait { ms: RECONNECT_COOLDOWN_MS }),
        s.phase == WifiPhase::Cooldown && event != WifiEvent::CooldownElapsed ==> wifi_step(s, event).0
            == s,
{
}

/// The station never gives up: the end of every cooldown starts a new
/// attempt, so failures are retried without limit.
pub proof fn lemma_cooldown_always_retries(s: WifiState)
    requires
        s.phase == WifiPhase::Cooldown,
    ensures
        wifi_step(s, WifiEvent::CooldownElapsed).1 == WifiAction::Connect || wifi_step(
            s,
            WifiEvent::CooldownElapsed,
        ).1 == WifiAction::ApplyConfiguration,
        wifi_step(s, WifiEvent::CooldownElapsed).0.phase == WifiPhase::Connecting || wifi_step(
            s,
            WifiEvent::CooldownElapsed,
        ).0.phase == WifiPhase::Configuring,
{
}

} // verus!
