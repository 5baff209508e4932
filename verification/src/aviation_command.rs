use vstd::prelude::*;

use crate::errors::WhisperAtcError;

verus! {

/// One of the eight cardinal or intercardinal compass points.
#[derive(Debug, Clone, Copy, PartialEq, Eq, Structural)]
pub enum Direction {
    South,
    SouthWest,
    West,
    NorthWest,
    North,
    NorthEast,
    East,
    SouthEast,
}

/// The sense of a turn instruction.
#[derive(Debug, Clone, Copy, PartialEq, Eq, Structural)]
pub enum LeftOrRight {
    Left,
    Right,
}

/// A turn amount in degrees, validated to lie in 0..=179.
///
/// The field is private: the only way to obtain a value is through [`TurnDegrees::new`],
/// so every value of this type satisfies the range invariant.
#[derive(Debug, Clone, Copy, PartialEq, Eq, PartialOrd, Ord)]
pub struct TurnDegrees(u32);

impl View for TurnDegrees {
    type V = u32;

    closed spec fn view(&self) -> u32 {
        self.0
    }
}

impl TurnDegrees {
    #[verifier::type_invariant]
    spec fn range_inv(&self) -> bool {
        self.0 < 180
    }

    /// Validating constructor: accepts exactly the turns of 0..=179 degrees.
    pub fn new(val: u32) -> (r: Result<Self, WhisperAtcError>)
        ensures
            r is Ok <==> val < 180,
            r matches Ok(t) ==> t@ == val,
            val >= 180 ==> r == Err::<Self, WhisperAtcError>(WhisperAtcError::InvalidTurn(val)),
    {
        if val < 180 {
            Ok(Self(val))
        } else {
            Err(WhisperAtcError::InvalidTurn(val))
        }
    }

    /// The validated turn amount in degrees.
    pub fn direction(&self) -> (r: &u32)
        ensures
            *r == self@,
    {
        &self.0
    }
}

/// A compass heading in degrees, validated to lie in 0..=359 (an input of 360
/// is accepted and normalized to 0).
#[derive(Debug, Clone, Copy, PartialEq, Eq, PartialOrd, Ord)]
pub struct DirectionDegrees(u32);

impl View for DirectionDegrees {
    type V = u32;

    closed spec fn view(&self) -> u32 {
        self.0
    }
}

impl DirectionDegrees {
    #[verifier::type_invariant]
    spec fn range_inv(&self) -> bool {
        self.0 < 360
    }

    /// Validating constructor: accepts exactly 1..=360, normalizing 360 to 0.
    pub fn new(val: u32) -> (r: Result<Self, WhisperAtcError>)
        ensures
            r is Ok <==> 1 <= val <= 360,
            r matches Ok(d) ==> d@ == (if val == 360 { 0u32 } else { val }),
            !(1 <= val <= 360) ==> r == Err::<Self, WhisperAtcError>(
                WhisperAtcError::InvalidDirection(val),
            ),
    {
        if 1 <= val && val < 360 {
            Ok(Self(val))
        } else if val == 360 {
            Ok(Self(0))
        } else {
            Err(WhisperAtcError::InvalidDirection(val))
        }
    }

    /// The validated heading in degrees, always below 360.
    pub fn direction(&self) -> (r: &u32)
        ensures
            *r == self@,
    {
        &self.0
    }
}

/// A heading instruction: keep the runway heading, fly a named compass point,
/// or fly an exact validated degree value.
#[derive(Debug, Clone, Copy, PartialEq, Eq)]
pub enum Heading {
    RunwayHeading,
    Direction(Direction),
    DirectionDegrees(DirectionDegrees),
}

/// The vertical sense of an altitude instruction.
#[derive(Debug, Clone, Copy, PartialEq, Eq, Structural)]
pub enum ClimbOrDescend {
    Climb,
    Descend,
}

/// An altitude in feet, validated to lie in -1355..=99999.
#[derive(Debug, Clone, Copy, PartialEq, Eq, PartialOrd, Ord)]
pub struct Feet(i32);

impl View for Feet {
    type V = i32;

    closed spec fn view(&self) -> i32 {
        self.0
    }
}

impl Feet {
    #[verifier::type_invariant]
    spec fn range_inv(&self) -> bool {
        -1355 <= self.0 < 100000
    }

    /// Validating constructor: accepts exactly the altitudes of -1355..=99999 feet.
    pub fn new(val: i32) -> (r: Result<Self, WhisperAtcError>)
        ensures
            r is Ok <==> -1355 <= val < 100000,
            r matches Ok(f) ==> f@ == val,
            !(-1355 <= val < 100000) ==> r == Err::<Self, WhisperAtcError>(
                WhisperAtcError::InvalidAltitude(val),
            ),
    {
        if -1355 <= val && val < 100000 {
            Ok(Self(val))
        } else {
            Err(WhisperAtcError::InvalidAltitude(val))
        }
    }

    /// The validated altitude in feet.
    pub fn altitude(&self) -> (r: &i32)
        ensures
            *r == self@,
    {
        &self.0
    }
}

/// A radio frequency expressed in thousands (kHz). No band restriction is
/// enforced: construction always succeeds.
#[derive(Debug, Clone, Copy, PartialEq, Eq, PartialOrd, Ord)]
pub struct FrequencyThousands(u32);

impl View for FrequencyThousands {
    type V = u32;

    closed spec fn view(&self) -> u32 {
        self.0
    }
}

impl FrequencyThousands {
    /// Constructor kept in the validating shape of the other newtypes; it
    /// accepts every value.
    pub fn new(val: u32) -> (r: Result<Self, WhisperAtcError>)
        ensures
            r matches Ok(f) && f@ == val,
    {
        Ok(Self(val))
    }

    /// The frequency in thousands.
    pub fn frequency(&self) -> (r: &u32)
        ensures
            *r == self@,
    {
        &self.0
    }
}

/// One instruction within a radio transmission.
#[derive(Debug)]
pub enum AviationCommandPart {
    RadarContact,
    Turn(LeftOrRight),
    TurnDegrees(TurnDegrees),
    FlyHeading(Heading),
    ProceedDirect(String),
    ClimbOrDescend(ClimbOrDescend),
    ChangeAltitude(Feet),
    ContactFrequency { frequency: FrequencyThousands, station: Option<String> },
}

/// The addressee of a radio transmission.
#[derive(Debug)]
pub enum CommunicationEntity {
    All,
    GroundStation(String),
    Aircraft { full_name: String, airline: Option<String> },
}

/// One radio transmission's full set of instructions: an optional addressee
/// plus the instructions in the order they were given (order-significant).
#[derive(Debug)]
pub struct AviationCommandGroup {
    pub target: Option<CommunicationEntity>,
    pub parts: Vec<AviationCommandPart>,
}

fn clone_opt_string(s: &Option<String>) -> (r: Option<String>)
    ensures
        r == *s,
{
    match s {
        Some(v) => Some(v.clone()),
        None => None,
    }
}

impl Clone for AviationCommandPart {
    /// A cloned instruction equals the original exactly.
    fn clone(&self) -> (r: Self)
        ensures
            r == *self,
    {
        match self {
            AviationCommandPart::RadarContact => AviationCommandPart::RadarContact,
            AviationCommandPart::Turn(lr) => AviationCommandPart::Turn(*lr),
            AviationCommandPart::TurnDegrees(t) => AviationCommandPart::TurnDegrees(*t),
            AviationCommandPart::FlyHeading(h) => AviationCommandPart::FlyHeading(*h),
            AviationCommandPart::ProceedDirect(w) => AviationCommandPart::ProceedDirect(w.clone()),
            AviationCommandPart::ClimbOrDescend(c) => AviationCommandPart::ClimbOrDescend(*c),
            AviationCommandPart::ChangeAltitude(f) => AviationCommandPart::ChangeAltitude(*f),
            AviationCommandPart::ContactFrequency { frequency, station } => (
                AviationCommandPart::ContactFrequency {
                    frequency: *frequency,
                    station: clone_opt_string(station),
                }
            ),
        }
    }
}

impl Clone for CommunicationEntity {
    /// A cloned addressee equals the original exactly.
    fn clone(&self) -> (r: Self)
        ensures
            r == *self,
    {
        match self {
            CommunicationEntity::All => CommunicationEntity::All,
            CommunicationEntity::GroundStation(n) => CommunicationEntity::GroundStation(n.clone()),
            CommunicationEntity::Aircraft { full_name, airline } => (
                CommunicationEntity::Aircraft {
                    full_name: full_name.clone(),
                    airline: clone_opt_string(airline),
                }
            ),
        }
    }
}

impl Clone for AviationCommandGroup {
    /// Cloning a command group preserves the addressee and the instructions in
    /// their original order.
    fn clone(&self) -> (r: Self)
        ensures
            r.target == self.target,
            r.parts@ == self.parts@,
    {
        let target = match &self.target {
            Some(e) => Some(e.clone()),
            None => None,
        };
        let mut parts: Vec<AviationCommandPart> = Vec::new();
        let mut i: usize = 0;
        while i < self.parts.len()
            invariant
                i <= self.parts@.len(),
                parts@ =~= self.parts@.take(i as int),
            decreases self.parts@.len() - i,
        {
            parts.push(self.parts[i].clone());
            i += 1;
        }
        proof {
            assert(parts@ =~= self.parts@);
        }
        AviationCommandGroup { target, parts }
    }
}

} // verus!
