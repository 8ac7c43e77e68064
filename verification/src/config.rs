use vstd::prelude::*;

verus! {

/// Text that stands in for a string setting that the build did not supply. A
/// credential left at this value is refused when the network is brought up.
pub const PLACEHOLDER: &'static str = "INVALID";

/// Seconds used for either delay when the build supplies none.
pub const DEFAULT_SECONDS: u64 = 5;

/// The settings fixed when the firmware is built. They are loaded once and only
/// ever read.
#[derive(Clone, Copy, Debug, PartialEq, Eq)]
pub struct Config {
    /// Host of the message broker. Kept for a publisher that is yet to come.
    pub mqtt_host: &'static str,
    /// User name at the message broker. Kept for a publisher that is yet to come.
    pub mqtt_user: &'static str,
    /// Password at the message broker. Kept for a publisher that is yet to come.
    pub mqtt_pass: &'static str,
    /// Name of the wireless network.
    pub wifi_ssid: &'static str,
    /// Passphrase of the wireless network.
    pub wifi_password: &'static str,
    /// Seconds to let go by before the hardware is touched.
    pub start_delay_sec: u64,
    /// Seconds to wait for the link to come up.
    pub wifi_connect_timeout_sec: u64,
}

impl Config {
    /// No setting has been supplied: every string is the placeholder and both
    /// delays have their default.
    pub open spec fn is_unset(self) -> bool {
        &&& self.mqtt_host@ == PLACEHOLDER@
        &&& self.mqtt_user@ == PLACEHOLDER@
        &&& self.mqtt_pass@ == PLACEHOLDER@
        &&& self.wifi_ssid@ == PLACEHOLDER@
        &&& self.wifi_password@ == PLACEHOLDER@
        &&& self.start_delay_sec == DEFAULT_SECONDS
        &&& self.wifi_connect_timeout_sec == DEFAULT_SECONDS
    }
}

impl Default for Config {
    /// The configuration of a build that supplies nothing.
    fn default() -> (config: Self)
        ensures
            config.is_unset(),
    {
        Config {
            mqtt_host: PLACEHOLDER,
            mqtt_user: PLACEHOLDER,
            mqtt_pass: PLACEHOLDER,
            wifi_ssid: PLACEHOLDER,
            wifi_password: PLACEHOLDER,
            start_delay_sec: DEFAULT_SECONDS,
            wifi_connect_timeout_sec: DEFAULT_SECONDS,
        }
    }
}

} // verus!
