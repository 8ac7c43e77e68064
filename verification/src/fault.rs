use vstd::prelude::*;

verus! {

/// Everything that stops the node before it reaches its steady state.
#[derive(Clone, Copy, Debug, PartialEq, Eq, Structural)]
pub enum Fault {
    /// The on-board peripherals had already been taken.
    PeripheralsUnavailable,
    /// The system event loop could not be acquired.
    EventLoopUnavailable,
    /// The Wi-Fi driver could not be constructed.
    DriverUnavailable,
    /// The network name is unset or longer than the driver accepts.
    InvalidSsid,
    /// The passphrase is unset or longer than the driver accepts.
    InvalidPassphrase,
    /// The driver refused the client configuration.
    ConfigurationRejected,
    /// The driver failed to start.
    StartFailed,
    /// The driver failed to issue the connect request.
    ConnectFailed,
    /// The link did not come up within the configured time.
    ConnectTimeout,
    /// The sensor bus could not be initialised.
    BusUnavailable,
    /// The sensor did not deliver its serial number.
    SerialNumberUnreadable,
}

/// What the process does about a fault.
#[derive(Clone, Copy, Debug, PartialEq, Eq, Structural)]
pub enum Severity {
    /// Nothing useful can be done without the missing piece: the process aborts.
    Fatal,
    /// The failure is handed to whoever started the node, who may try again.
    Recoverable,
}

impl Fault {
    /// Acquisition failures of the event loop and of the sensor bus are handed
    /// upwards; every other fault aborts the process.
    pub open spec fn spec_severity(self) -> Severity {
        match self {
            Fault::EventLoopUnavailable | Fault::BusUnavailable => Severity::Recoverable,
            _ => Severity::Fatal,
        }
    }

    /// The line that reports the fault.
    pub open spec fn spec_message(self) -> Seq<char> {
        match self {
            Fault::PeripheralsUnavailable => "Peripherals already taken"@,
            Fault::EventLoopUnavailable => "Unable to take the system event loop"@,
            Fault::DriverUnavailable => "Unable to create the Wi-Fi driver"@,
            Fault::InvalidSsid => "Unable to parse Wi-Fi SSID"@,
            Fault::InvalidPassphrase => "Unable to parse Wi-Fi PSK"@,
            Fault::ConfigurationRejected => "Wi-Fi configuration rejected"@,
            Fault::StartFailed => "Unable to start Wi-Fi"@,
            Fault::ConnectFailed => "Unable to request a Wi-Fi connection"@,
            Fault::ConnectTimeout => "Failed to connect to Wi-Fi!"@,
            Fault::BusUnavailable => "Unable to initialise the sensor bus"@,
            Fault::SerialNumberUnreadable => "Failed to get serial number"@,
        }
    }

    #[verifier::when_used_as_spec(spec_severity)]
    pub fn severity(self) -> (severity: Severity)
        ensures
            severity == self.spec_severity(),
    {
        match self {
            Fault::EventLoopUnavailable | Fault::BusUnavailable => Severity::Recoverable,
            _ => Severity::Fatal,
        }
    }

    pub fn message(self) -> (text: &'static str)
        ensures
            text@ == self.spec_message(),
    {
        match self {
            Fault::PeripheralsUnavailable => "Peripherals already taken",
            Fault::EventLoopUnavailable => "Unable to take the system event loop",
            Fault::DriverUnavailable => "Unable to create the Wi-Fi driver",
            Fault::InvalidSsid => "Unable to parse Wi-Fi SSID",
            Fault::InvalidPassphrase => "Unable to parse Wi-Fi PSK",
            Fault::ConfigurationRejected => "Wi-Fi configuration rejected",
            Fault::StartFailed => "Unable to start Wi-Fi",
            Fault::ConnectFailed => "Unable to request a Wi-Fi connection",
            Fault::ConnectTimeout => "Failed to connect to Wi-Fi!",
            Fault::BusUnavailable => "Unable to initialise the sensor bus",
            Fault::SerialNumberUnreadable => "Failed to get serial number",
        }
    }
}

} // verus!
