//! ETSI ITS station types.
use vstd::prelude::*;

verus! {

/// ETSI ITS station type classification.
#[derive(Debug, Clone, Copy, PartialEq, Eq, Hash, Structural)]
pub enum ItsStationType {
    /// Passenger car.
    PassengerCar,
}

/// The ETSI code of a station type (ETSI TS 102 894-2: 5 is a passenger car).
pub open spec fn station_type_code(t: ItsStationType) -> u8 {
    match t {
        ItsStationType::PassengerCar => 5,
    }
}

impl ItsStationType {
    /// The ETSI code of this station type, as carried in the `StationType` field.
    pub fn code(self) -> (c: u8)
        ensures
            c == station_type_code(self),
    {
        match self {
            ItsStationType::PassengerCar => 5,
        }
    }
}

} // verus!
