//! Per-device health codes as they are exported to the telemetry side.

use vstd::prelude::*;
use vstd::std_specs::convert::FromSpecImpl;

verus! {

/// Health of one device. `NoData` lasts until the device shows a genuine
/// signal again, `Disconnected` until its session is opened again.
#[derive(Debug, Clone, Copy, PartialEq, Eq, Structural)]
pub enum Status {
    Okay,
    NoData,
    Disconnected,
    OtherError,
}

impl Status {
    /// The code that a health value is exported under: 0 for `Okay`, 1 for
    /// `NoData`, 2 for `Disconnected`, 3 for `OtherError`.
    pub open spec fn spec_code(&self) -> u8 {
        match self {
            Status::Okay => 0,
            Status::NoData => 1,
            Status::Disconnected => 2,
            Status::OtherError => 3,
        }
    }

    /// The health that a code stands for; every code above 2 is an
    /// `OtherError`.
    pub open spec fn of_code(code: u8) -> Status {
        if code == 0 {
            Status::Okay
        } else if code == 1 {
            Status::NoData
        } else if code == 2 {
            Status::Disconnected
        } else {
            Status::OtherError
        }
    }

    #[verifier::when_used_as_spec(spec_code)]
    pub fn code(&self) -> (c: u8)
        ensures
            c == self.spec_code(),
    {
        match self {
            Status::Okay => 0,
            Status::NoData => 1,
            Status::Disconnected => 2,
            Status::OtherError => 3,
        }
    }
}

/// What one poll of a sensor came to.
#[derive(Debug, Clone, Copy, PartialEq, Eq, Structural)]
pub enum PollOutcome {
    /// The sensor delivered a reading.
    Data,
    /// The sensor is there but delivered nothing usable.
    DataError,
    /// The sensor was initialised and has not been read yet.
    Initialized,
    /// The sensor could not be initialised.
    InitError,
}

impl Status {
    /// The health of a polled sensor after one poll.
    pub open spec fn after_poll_spec(outcome: PollOutcome) -> Status {
        match outcome {
            PollOutcome::Data => Status::Okay,
            PollOutcome::DataError => Status::NoData,
            PollOutcome::Initialized => Status::NoData,
            PollOutcome::InitError => Status::Disconnected,
        }
    }

    #[verifier::when_used_as_spec(after_poll_spec)]
    pub fn after_poll(outcome: PollOutcome) -> (s: Status)
        ensures
            s == Status::after_poll_spec(outcome),
    {
        match outcome {
            PollOutcome::Data => Status::Okay,
            PollOutcome::DataError => Status::NoData,
            PollOutcome::Initialized => Status::NoData,
            PollOutcome::InitError => Status::Disconnected,
        }
    }
}

impl Default for Status {
    /// A device of which nothing is known yet counts as disconnected.
    fn default() -> (s: Self)
        ensures
            s == Status::Disconnected,
    {
        Status::Disconnected
    }
}

impl From<u8> for Status {
    fn from(value: u8) -> (s: Self) {
        match value {
            0u8 => Status::Okay,
            1u8 => Status::NoData,
            2u8 => Status::Disconnected,
            _ => Status::OtherError,
        }
    }
}

impl FromSpecImpl<u8> for Status {
    open spec fn obeys_from_spec() -> bool {
        true
    }

    open spec fn from_spec(value: u8) -> Status {
        Status::of_code(value)
    }
}

/// A code that was made from a health value stands for that value.
pub proof fn law_code_round_trip(status: Status)
    ensures
        Status::of_code(status.code()) == status,
        status.code() <= 3,
{
}

} // verus!
