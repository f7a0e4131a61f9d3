//! Various UAsset enums

use vstd::prelude::*;

verus! {

/// Array dimension
#[derive(Debug, Clone, Copy, PartialEq, Eq, Hash, Structural)]
pub enum EArrayDim {
    /// Not an array
    NotAnArray,
    /// Generic array
    TArray,
    /// C Array
    CArray,
}

impl EArrayDim {
    /// The numeric value of the dimension.
    pub open spec fn spec_value(self) -> i32 {
        match self {
            EArrayDim::NotAnArray => 0,
            EArrayDim::TArray => 1,
            EArrayDim::CArray => 2,
        }
    }

    /// The numeric value of the dimension.
    pub fn value(self) -> (r: i32)
        ensures r == self.spec_value(),
    {
        match self {
            EArrayDim::NotAnArray => 0,
            EArrayDim::TArray => 1,
            EArrayDim::CArray => 2,
        }
    }

    /// The dimension with a numeric value.
    pub open spec fn spec_from_i32(v: i32) -> Option<Self> {
        if v == 0 {
            Some(EArrayDim::NotAnArray)
        } else if v == 1 {
            Some(EArrayDim::TArray)
        } else if v == 2 {
            Some(EArrayDim::CArray)
        } else {
            None
        }
    }

    /// The dimension with a numeric value.
    pub fn try_from_i32(v: i32) -> (r: Option<Self>)
        ensures
            r == Self::spec_from_i32(v),
            r is Some <==> 0 <= v <= 2,
            r matches Some(d) ==> d.spec_value() == v,
    {
        match v {
            0 => Some(EArrayDim::NotAnArray),
            1 => Some(EArrayDim::TArray),
            2 => Some(EArrayDim::CArray),
            _ => None,
        }
    }
}

/// Property lifetime conditions
#[derive(Debug, Clone, Copy, PartialEq, Eq, Hash, Structural)]
pub enum ELifetimeCondition {
    /// This property has no condition, and will send anytime it changes
    CondNone,
    /// This property will only attempt to send on the initial bunch
    CondInitialOnly,
    /// This property will only send to the actor's owner
    CondOwnerOnly,
    /// This property send to every connection EXCEPT the owner
    CondSkipOwner,
    /// This property will only send to simulated actors
    CondSimulatedOnly,
    /// This property will only send to autonomous actors
    CondAutonomousOnly,
    /// This property will send to simulated OR bRepPhysics actors
    CondSimulatedOrPhysics,
    /// This property will send on the initial packet, or to the actors owner
    CondInitialOrOwner,
    /// This property has no particular condition, but wants the ability to toggle on/off via SetCustomIsActiveOverride
    CondCustom,
    /// This property will only send to the replay connection, or to the actors owner
    CondReplayOrOwner,
    /// This property will only send to the replay connection
    CondReplayOnly,
    /// This property will send to actors only, but not to replay connections
    CondSimulatedOnlyNoReplay,
    /// This property will send to simulated Or bRepPhysics actors, but not to replay connections
    CondSimulatedOrPhysicsNoReplay,
    /// This property will not send to the replay connection
    CondSkipReplay,
    /// This property will never be replicated
    CondNever,
    /// Max
    CondMax,
}

impl ELifetimeCondition {
    /// The numeric value of the condition.
    pub open spec fn spec_value(self) -> u8 {
        match self {
            ELifetimeCondition::CondNone => 0,
            ELifetimeCondition::CondInitialOnly => 1,
            ELifetimeCondition::CondOwnerOnly => 2,
            ELifetimeCondition::CondSkipOwner => 3,
            ELifetimeCondition::CondSimulatedOnly => 4,
            ELifetimeCondition::CondAutonomousOnly => 5,
            ELifetimeCondition::CondSimulatedOrPhysics => 6,
            ELifetimeCondition::CondInitialOrOwner => 7,
            ELifetimeCondition::CondCustom => 8,
            ELifetimeCondition::CondReplayOrOwner => 9,
            ELifetimeCondition::CondReplayOnly => 10,
            ELifetimeCondition::CondSimulatedOnlyNoReplay => 11,
            ELifetimeCondition::CondSimulatedOrPhysicsNoReplay => 12,
            ELifetimeCondition::CondSkipReplay => 13,
            ELifetimeCondition::CondNever => 15,
            ELifetimeCondition::CondMax => 16,
        }
    }

    /// The numeric value of the condition.
    pub fn value(self) -> (r: u8)
        ensures r == self.spec_value(),
    {
        match self {
            ELifetimeCondition::CondNone => 0,
            ELifetimeCondition::CondInitialOnly => 1,
            ELifetimeCondition::CondOwnerOnly => 2,
            ELifetimeCondition::CondSkipOwner => 3,
            ELifetimeCondition::CondSimulatedOnly => 4,
            ELifetimeCondition::CondAutonomousOnly => 5,
            ELifetimeCondition::CondSimulatedOrPhysics => 6,
            ELifetimeCondition::CondInitialOrOwner => 7,
            ELifetimeCondition::CondCustom => 8,
            ELifetimeCondition::CondReplayOrOwner => 9,
            ELifetimeCondition::CondReplayOnly => 10,
            ELifetimeCondition::CondSimulatedOnlyNoReplay => 11,
            ELifetimeCondition::CondSimulatedOrPhysicsNoReplay => 12,
            ELifetimeCondition::CondSkipReplay => 13,
            ELifetimeCondition::CondNever => 15,
            ELifetimeCondition::CondMax => 16,
        }
    }

    /// The condition with a numeric value; 14 names none.
    pub open spec fn spec_from_u8(v: u8) -> Option<Self> {
        if v == 0 { Some(ELifetimeCondition::CondNone) }
        else if v == 1 { Some(ELifetimeCondition::CondInitialOnly) }
        else if v == 2 { Some(ELifetimeCondition::CondOwnerOnly) }
        else if v == 3 { Some(ELifetimeCondition::CondSkipOwner) }
        else if v == 4 { Some(ELifetimeCondition::CondSimulatedOnly) }
        else if v == 5 { Some(ELifetimeCondition::CondAutonomousOnly) }
        else if v == 6 { Some(ELifetimeCondition::CondSimulatedOrPhysics) }
        else if v == 7 { Some(ELifetimeCondition::CondInitialOrOwner) }
        else if v == 8 { Some(ELifetimeCondition::CondCustom) }
        else if v == 9 { Some(ELifetimeCondition::CondReplayOrOwner) }
        else if v == 10 { Some(ELifetimeCondition::CondReplayOnly) }
        else if v == 11 { Some(ELifetimeCondition::CondSimulatedOnlyNoReplay) }
        else if v == 12 { Some(ELifetimeCondition::CondSimulatedOrPhysicsNoReplay) }
        else if v == 13 { Some(ELifetimeCondition::CondSkipReplay) }
        else if v == 15 { Some(ELifetimeCondition::CondNever) }
        else if v == 16 { Some(ELifetimeCondition::CondMax) }
        else { None }
    }

    /// The condition with a numeric value; 14 names none.
    pub fn try_from_u8(v: u8) -> (r: Option<Self>)
        ensures
            r == Self::spec_from_u8(v),
            r is Some <==> (v <= 16 && v != 14),
            r matches Some(c) ==> c.spec_value() == v,
    {
        match v {
            0 => Some(ELifetimeCondition::CondNone),
            1 => Some(ELifetimeCondition::CondInitialOnly),
            2 => Some(ELifetimeCondition::CondOwnerOnly),
            3 => Some(ELifetimeCondition::CondSkipOwner),
            4 => Some(ELifetimeCondition::CondSimulatedOnly),
            5 => Some(ELifetimeCondition::CondAutonomousOnly),
            6 => Some(ELifetimeCondition::CondSimulatedOrPhysics),
            7 => Some(ELifetimeCondition::CondInitialOrOwner),
            8 => Some(ELifetimeCondition::CondCustom),
            9 => Some(ELifetimeCondition::CondReplayOrOwner),
            10 => Some(ELifetimeCondition::CondReplayOnly),
            11 => Some(ELifetimeCondition::CondSimulatedOnlyNoReplay),
            12 => Some(ELifetimeCondition::CondSimulatedOrPhysicsNoReplay),
            13 => Some(ELifetimeCondition::CondSkipReplay),
            15 => Some(ELifetimeCondition::CondNever),
            16 => Some(ELifetimeCondition::CondMax),
            _ => None,
        }
    }
}

/// Custom version serialization format
#[derive(Debug, Clone, Copy, PartialEq, Eq, Hash, Structural)]
pub enum ECustomVersionSerializationFormat {
    /// Unknown
    Unknown,
    /// Guids
    Guids,
    /// Enums
    Enums,
    /// Optimized
    Optimized,
}

} // verus!
