//! The small identifiers that the configuration is keyed by.
use vstd::prelude::*;

verus! {

/// A coalition in the mission.
#[derive(Clone, Copy, Debug, PartialEq, Eq, Hash, Structural)]
pub enum Side {
    Neutral,
    Red,
    Blue,
}

/// The life pool that a vehicle draws from.
#[derive(Clone, Copy, Debug, PartialEq, Eq, Hash, Structural)]
pub enum LifeType {
    Standard,
    Intercept,
    Attack,
    Logistics,
    Recon,
}

/// A vehicle type, identified by its DCS type name.
#[derive(Clone, Debug, PartialEq, Eq, Hash)]
pub struct Vehicle(pub String);

impl View for Vehicle {
    type V = Seq<char>;

    open spec fn view(&self) -> Seq<char> {
        self.0@
    }
}

impl Vehicle {
    /// The vehicle with the given type name.
    pub fn new(name: &str) -> (v: Vehicle)
        ensures
            v@ == name@,
    {
        Vehicle(name.to_owned())
    }
}

} // verus!
