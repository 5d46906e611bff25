//! The closed catalogue of events that components exchange, and the
//! identities of the participants on the bus.

use crate::text::{decimal, decimal_text, degrees, degrees_text, enclose, signed_decimal, signed_decimal_text};
use vstd::prelude::*;
use vstd::string::*;

verus! {

/// An event published by a component. Events are immutable once created.
///
/// Temperatures are carried in hundredths of a degree Celsius.
#[derive(Debug, PartialEq)]
pub enum CarMessage {
    EngineStart,
    EngineStop,
    EngineOverheating { temperature: i32 },
    EngineRpmChange { rpm: u32 },
    BrakeApply { pressure: u8 },
    BrakeRelease,
    BrakePressureChange { pressure: u8 },
    SteeringTurn { angle: i16 },
    SteeringCenter,
    SpeedUpdate { km_h: u8 },
    FuelWarning { level: u8 },
    ComponentError { component: String, error: String },
}

impl Clone for CarMessage {
    fn clone(&self) -> (res: Self)
        ensures
            res == *self,
    {
        match self {
            CarMessage::EngineStart => CarMessage::EngineStart,
            CarMessage::EngineStop => CarMessage::EngineStop,
            CarMessage::EngineOverheating { temperature } => CarMessage::EngineOverheating {
                temperature: *temperature,
            },
            CarMessage::EngineRpmChange { rpm } => CarMessage::EngineRpmChange { rpm: *rpm },
            CarMessage::BrakeApply { pressure } => CarMessage::BrakeApply { pressure: *pressure },
            CarMessage::BrakeRelease => CarMessage::BrakeRelease,
            CarMessage::BrakePressureChange { pressure } => CarMessage::BrakePressureChange {
                pressure: *pressure,
            },
            CarMessage::SteeringTurn { angle } => CarMessage::SteeringTurn { angle: *angle },
            CarMessage::SteeringCenter => CarMessage::SteeringCenter,
            CarMessage::SpeedUpdate { km_h } => CarMessage::SpeedUpdate { km_h: *km_h },
            CarMessage::FuelWarning { level } => CarMessage::FuelWarning { level: *level },
            CarMessage::ComponentError { component, error } => CarMessage::ComponentError {
                component: component.clone(),
                error: error.clone(),
            },
        }
    }
}

impl CarMessage {
    /// The stable discriminator of each variant, as text.
    pub open spec fn kind_name_spec(self) -> Seq<char> {
        match self {
            CarMessage::EngineStart => "EngineStart"@,
            CarMessage::EngineStop => "EngineStop"@,
            CarMessage::EngineOverheating { .. } => "EngineOverheating"@,
            CarMessage::EngineRpmChange { .. } => "EngineRpmChange"@,
            CarMessage::BrakeApply { .. } => "BrakeApply"@,
            CarMessage::BrakeRelease => "BrakeRelease"@,
            CarMessage::BrakePressureChange { .. } => "BrakePressureChange"@,
            CarMessage::SteeringTurn { .. } => "SteeringTurn"@,
            CarMessage::SteeringCenter => "SteeringCenter"@,
            CarMessage::SpeedUpdate { .. } => "SpeedUpdate"@,
            CarMessage::FuelWarning { .. } => "FuelWarning"@,
            CarMessage::ComponentError { .. } => "ComponentError"@,
        }
    }

    /// The message as it is shown to the driver.
    pub open spec fn format_spec(self) -> Seq<char> {
        match self {
            CarMessage::EngineStart => "Engine started"@,
            CarMessage::EngineStop => "Engine stopped"@,
            CarMessage::EngineOverheating { temperature } => "\u{26a0}\u{fe0f} ENGINE OVERHEATING: "@
                + degrees_text(temperature as int) + "\u{b0}C"@,
            CarMessage::EngineRpmChange { rpm } => "Engine RPM: "@ + decimal_text(rpm as nat),
            CarMessage::BrakeApply { pressure } => "Brakes applied: "@ + decimal_text(
                pressure as nat,
            ) + "%"@,
            CarMessage::BrakeRelease => "Brakes released"@,
            CarMessage::BrakePressureChange { pressure } => "Brake pressure: "@ + decimal_text(
                pressure as nat,
            ) + "%"@,
            CarMessage::SteeringTurn { angle } => "Steering turned: "@ + signed_decimal_text(
                angle as int,
            ) + "\u{b0}"@,
            CarMessage::SteeringCenter => "Steering centered"@,
            CarMessage::SpeedUpdate { km_h } => "Speed: "@ + decimal_text(km_h as nat)
                + " km/h"@,
            CarMessage::FuelWarning { level } => "\u{26a0}\u{fe0f} LOW FUEL: "@ + decimal_text(
                level as nat,
            ) + "%"@,
            CarMessage::ComponentError { component, error } => "\u{274c} ERROR in "@
                + component@ + ": "@ + error@,
        }
    }

    /// Writes the message as it is shown to the driver.
    pub fn format(&self) -> (res: String)
        ensures
            res@ == self.format_spec(),
    {
        match self {
            CarMessage::EngineStart => String::from_str("Engine started"),
            CarMessage::EngineStop => String::from_str("Engine stopped"),
            CarMessage::EngineOverheating { temperature } => enclose(
                "\u{26a0}\u{fe0f} ENGINE OVERHEATING: ",
                degrees(*temperature).as_str(),
                "\u{b0}C",
            ),
            CarMessage::EngineRpmChange { rpm } => {
                let mut text = String::from_str("Engine RPM: ");
                text.append(decimal(*rpm as u64).as_str());
                text
            },
            CarMessage::BrakeApply { pressure } => enclose(
                "Brakes applied: ",
                decimal(*pressure as u64).as_str(),
                "%",
            ),
            CarMessage::BrakeRelease => String::from_str("Brakes released"),
            CarMessage::BrakePressureChange { pressure } => enclose(
                "Brake pressure: ",
                decimal(*pressure as u64).as_str(),
                "%",
            ),
            CarMessage::SteeringTurn { angle } => enclose(
                "Steering turned: ",
                signed_decimal(*angle as i64).as_str(),
                "\u{b0}",
            ),
            CarMessage::SteeringCenter => String::from_str("Steering centered"),
            CarMessage::SpeedUpdate { km_h } => enclose(
                "Speed: ",
                decimal(*km_h as u64).as_str(),
                " km/h",
            ),
            CarMessage::FuelWarning { level } => enclose(
                "\u{26a0}\u{fe0f} LOW FUEL: ",
                decimal(*level as u64).as_str(),
                "%",
            ),
            CarMessage::ComponentError { component, error } => {
                let mut text = enclose("\u{274c} ERROR in ", component.as_str(), ": ");
                text.append(error.as_str());
                text
            },
        }
    }

    /// The name of the message's variant.
    pub fn kind_name(&self) -> (res: &'static str)
        ensures
            res@ == self.kind_name_spec(),
    {
        match self {
            CarMessage::EngineStart => "EngineStart",
            CarMessage::EngineStop => "EngineStop",
            CarMessage::EngineOverheating { .. } => "EngineOverheating",
            CarMessage::EngineRpmChange { .. } => "EngineRpmChange",
            CarMessage::BrakeApply { .. } => "BrakeApply",
            CarMessage::BrakeRelease => "BrakeRelease",
            CarMessage::BrakePressureChange { .. } => "BrakePressureChange",
            CarMessage::SteeringTurn { .. } => "SteeringTurn",
            CarMessage::SteeringCenter => "SteeringCenter",
            CarMessage::SpeedUpdate { .. } => "SpeedUpdate",
            CarMessage::FuelWarning { .. } => "FuelWarning",
            CarMessage::ComponentError { .. } => "ComponentError",
        }
    }
}

/// The addressable participants of the bus: publish source and queue key.
#[derive(Debug, Clone, Copy, PartialEq, Eq, Hash, Structural)]
pub enum ComponentId {
    Engine,
    Brakes,
    Steering,
    Dashboard,
    CarSystem,
}

impl ComponentId {
    /// The name of each identity, as text.
    pub open spec fn name_spec(self) -> Seq<char> {
        match self {
            ComponentId::Engine => "Engine"@,
            ComponentId::Brakes => "Brakes"@,
            ComponentId::Steering => "Steering"@,
            ComponentId::Dashboard => "Dashboard"@,
            ComponentId::CarSystem => "CarSystem"@,
        }
    }

    pub fn as_str(&self) -> (res: &'static str)
        ensures
            res@ == self.name_spec(),
    {
        match self {
            ComponentId::Engine => "Engine",
            ComponentId::Brakes => "Brakes",
            ComponentId::Steering => "Steering",
            ComponentId::Dashboard => "Dashboard",
            ComponentId::CarSystem => "CarSystem",
        }
    }

    /// The position of the identity in declaration order.
    pub open spec fn slot_spec(self) -> int {
        match self {
            ComponentId::Engine => 0,
            ComponentId::Brakes => 1,
            ComponentId::Steering => 2,
            ComponentId::Dashboard => 3,
            ComponentId::CarSystem => 4,
        }
    }

    /// The number of identities.
    pub open spec fn count() -> int {
        5
    }

    /// The identity at a position of the declaration order.
    pub open spec fn at_slot(i: int) -> ComponentId {
        if i == 0 {
            ComponentId::Engine
        } else if i == 1 {
            ComponentId::Brakes
        } else if i == 2 {
            ComponentId::Steering
        } else if i == 3 {
            ComponentId::Dashboard
        } else {
            ComponentId::CarSystem
        }
    }

    pub fn slot(&self) -> (res: usize)
        ensures
            res == self.slot_spec(),
            res < 5,
            ComponentId::at_slot(res as int) == *self,
    {
        match self {
            ComponentId::Engine => 0,
            ComponentId::Brakes => 1,
            ComponentId::Steering => 2,
            ComponentId::Dashboard => 3,
            ComponentId::CarSystem => 4,
        }
    }
}

} // verus!
