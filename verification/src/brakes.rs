//! The brakes: applied pressure, and its decay once they are released.

use crate::component::{CarComponent, ComponentState};
use crate::messages::CarMessage;
use vstd::prelude::*;
use vstd::string::*;

verus! {

/// The brakes as a mathematical value.
pub struct BrakesModel {
    pub lifecycle: ComponentState,
    pub applied: bool,
    /// The pressure in percent.
    pub pressure: u8,
}

impl BrakesModel {
    /// The events that the brakes publish: their pressure while there is
    /// any.
    pub open spec fn messages(self) -> Seq<CarMessage> {
        if self.pressure > 0 {
            seq![CarMessage::BrakePressureChange { pressure: self.pressure }]
        } else {
            Seq::empty()
        }
    }

    /// The brakes after one update: released brakes lose five points of
    /// pressure, down to none.
    pub open spec fn processed(self) -> BrakesModel {
        if !self.applied && self.pressure > 0 {
            BrakesModel {
                pressure: if self.pressure >= 5 {
                    (self.pressure - 5) as u8
                } else {
                    0
                },
                ..self
            }
        } else {
            self
        }
    }
}

/// The text of the error for a pressure above 100 percent.
pub open spec fn pressure_error_text() -> Seq<char> {
    "Pressure cannot exceed 100%"@
}

pub struct BrakesComponent {
    state: ComponentState,
    applied: bool,
    pressure: u8,
}

impl View for BrakesComponent {
    type V = BrakesModel;

    closed spec fn view(&self) -> BrakesModel {
        BrakesModel { lifecycle: self.state, applied: self.applied, pressure: self.pressure }
    }
}

impl BrakesComponent {
    /// Brakes that are offline and released, without pressure.
    pub fn new() -> (res: Self)
        ensures
            res@ == (BrakesModel {
                lifecycle: ComponentState::Offline,
                applied: false,
                pressure: 0,
            }),
    {
        BrakesComponent { state: ComponentState::Offline, applied: false, pressure: 0 }
    }

    /// Applies the brakes with a pressure of 0 to 100 percent. A higher
    /// pressure is rejected, and the brakes stay as they are.
    pub fn apply(&mut self, pressure: u8) -> (res: Result<(), String>)
        ensures
            pressure <= 100 ==> res is Ok && final(self)@ == (BrakesModel {
                applied: true,
                pressure,
                ..old(self)@
            }),
            pressure > 100 ==> res is Err && res->Err_0@ == pressure_error_text() && final(self)@
                == old(self)@,
    {
        if pressure > 100 {
            return Err(String::from_str("Pressure cannot exceed 100%"));
        }
        self.applied = true;
        self.pressure = pressure;
        Ok(())
    }

    /// Releases the brakes; the pressure decays in the updates that follow.
    pub fn release(&mut self)
        ensures
            final(self)@ == (BrakesModel { applied: false, ..old(self)@ }),
    {
        if self.applied {
            self.applied = false;
        }
    }

    pub fn get_pressure(&self) -> (res: u8)
        ensures
            res == self@.pressure,
    {
        self.pressure
    }

    pub fn is_applied(&self) -> (res: bool)
        ensures
            res == self@.applied,
    {
        self.applied
    }

    /// The events that the brakes have to publish.
    pub fn get_messages(&self) -> (res: Vec<CarMessage>)
        ensures
            res@ == self@.messages(),
    {
        let mut messages: Vec<CarMessage> = Vec::new();
        if self.pressure > 0 {
            messages.push(CarMessage::BrakePressureChange { pressure: self.pressure });
        }
        assert(messages@ =~= self@.messages());
        messages
    }
}

impl CarComponent for BrakesComponent {
    open spec fn name_text(&self) -> Seq<char> {
        "Brakes"@
    }

    open spec fn lifecycle_of(model: BrakesModel) -> ComponentState {
        model.lifecycle
    }

    open spec fn after_update(model: BrakesModel) -> BrakesModel {
        model.processed()
    }

    fn name(&self) -> (res: &str) {
        "Brakes"
    }

    fn initialize(&mut self) -> (res: Result<(), String>)
        ensures
            res is Ok,
            final(self)@ == (BrakesModel { lifecycle: ComponentState::Online, ..old(self)@ }),
    {
        self.state = ComponentState::Initializing;
        self.state = ComponentState::Online;
        Ok(())
    }

    fn process(&mut self) -> (res: Result<(), String>)
        ensures
            res is Ok,
            final(self)@ == old(self)@.processed(),
    {
        if !self.applied && self.pressure > 0 {
            self.pressure = if self.pressure >= 5 {
                self.pressure - 5
            } else {
                0
            };
        }
        Ok(())
    }

    fn get_state(&self) -> (res: ComponentState)
        ensures
            res == self@.lifecycle,
    {
        self.state.clone()
    }
}

} // verus!
