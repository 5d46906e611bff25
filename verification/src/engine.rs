//! The engine: its state machine, rotational speed and temperature.
//! Temperatures are in hundredths of a degree Celsius.

use crate::component::{CarComponent, ComponentState};
use crate::messages::CarMessage;
use crate::state_machine::EngineStateMachine;
use vstd::prelude::*;
use vstd::string::*;

verus! {

/// The engine's states.
pub type EngineState = EngineStateMachine;

/// The engine as a mathematical value.
pub struct EngineModel {
    pub lifecycle: ComponentState,
    pub engine_state: EngineStateMachine,
    pub running: bool,
    /// Revolutions per minute.
    pub rpm: u32,
    /// Hundredths of a degree Celsius.
    pub temperature: i32,
    /// The number of updates while running, counted round the clock.
    pub cycle_counter: u32,
}

impl EngineModel {
    /// The engine as `new` makes it: off, cold and still.
    pub open spec fn fresh() -> EngineModel {
        EngineModel {
            lifecycle: ComponentState::Offline,
            engine_state: EngineStateMachine::Off,
            running: false,
            rpm: 0,
            temperature: 2000,
            cycle_counter: 0,
        }
    }

    /// The engine after a start: running at idle speed.
    pub open spec fn started(self) -> EngineModel {
        EngineModel {
            lifecycle: ComponentState::Online,
            engine_state: EngineStateMachine::Running,
            running: true,
            rpm: 800,
            ..self
        }
    }

    /// The engine after a stop: off and still.
    pub open spec fn stopped(self) -> EngineModel {
        EngineModel {
            lifecycle: ComponentState::Offline,
            engine_state: EngineStateMachine::Off,
            running: false,
            rpm: 0,
            ..self
        }
    }

    /// The counter of updates after one more update.
    pub open spec fn next_counter(self) -> u32 {
        if self.cycle_counter == u32::MAX {
            0
        } else {
            (self.cycle_counter + 1) as u32
        }
    }

    /// The engine after one update: a running engine idles at 800 to 849
    /// revolutions and warms by a twentieth of a degree up to 90 degrees.
    pub open spec fn processed(self) -> EngineModel {
        if self.running {
            EngineModel {
                cycle_counter: self.next_counter(),
                rpm: (800 + (self.next_counter() * 17) % 50) as u32,
                temperature: if self.temperature < 9000 {
                    (self.temperature + 5) as i32
                } else {
                    self.temperature
                },
                ..self
            }
        } else {
            self
        }
    }

    /// The events that the engine publishes: while it runs, its
    /// temperature if that is above 21 degrees, then its rotational speed.
    pub open spec fn messages(self) -> Seq<CarMessage> {
        if self.running && self.temperature > 2100 {
            seq![
                CarMessage::EngineOverheating { temperature: self.temperature },
                CarMessage::EngineRpmChange { rpm: self.rpm },
            ]
        } else if self.running {
            seq![CarMessage::EngineRpmChange { rpm: self.rpm }]
        } else {
            Seq::empty()
        }
    }
}

/// The text of the error for a start from a state other than Off.
pub open spec fn start_error_text(from: EngineStateMachine) -> Seq<char> {
    "Cannot start engine: invalid transition from "@ + from.display_name_spec() + " to STARTING"@
}

/// The text of the error for a stop from a state other than Running.
pub open spec fn stop_error_text(from: EngineStateMachine) -> Seq<char> {
    "Cannot stop engine: invalid transition from "@ + from.display_name_spec() + " to STOPPING"@
}

pub struct EngineComponent {
    state: ComponentState,
    engine_state: EngineState,
    running: bool,
    rpm: u32,
    temperature: i32,
    cycle_counter: u32,
}

impl View for EngineComponent {
    type V = EngineModel;

    closed spec fn view(&self) -> EngineModel {
        EngineModel {
            lifecycle: self.state,
            engine_state: self.engine_state,
            running: self.running,
            rpm: self.rpm,
            temperature: self.temperature,
            cycle_counter: self.cycle_counter,
        }
    }
}

impl EngineComponent {
    /// An engine that is off, at an ambient temperature of 20 degrees.
    pub fn new() -> (res: Self)
        ensures
            res@ == EngineModel::fresh(),
    {
        EngineComponent {
            state: ComponentState::Offline,
            engine_state: EngineStateMachine::Off,
            running: false,
            rpm: 0,
            temperature: 2000,
            cycle_counter: 0,
        }
    }

    /// Starts the engine: from Off through Starting to Running. From any
    /// other state the start is rejected, and the engine stays as it is.
    pub fn start(&mut self) -> (res: Result<(), String>)
        ensures
            old(self)@.engine_state == EngineStateMachine::Off ==> res is Ok && final(self)@
                == old(self)@.started(),
            old(self)@.engine_state != EngineStateMachine::Off ==> res is Err && res->Err_0@
                == start_error_text(old(self)@.engine_state) && final(self)@ == old(self)@,
    {
        if !self.engine_state.can_transition_to(&EngineStateMachine::Starting) {
            let mut text = String::from_str("Cannot start engine: invalid transition from ");
            text.append(self.engine_state.display_name());
            text.append(" to STARTING");
            return Err(text);
        }
        self.state = ComponentState::Initializing;
        self.engine_state = EngineStateMachine::Starting;
        self.rpm = 500;

        if !self.engine_state.can_transition_to(&EngineStateMachine::Running) {
            let mut text = String::from_str("Cannot complete startup: invalid transition from ");
            text.append(self.engine_state.display_name());
            text.append(" to RUNNING");
            return Err(text);
        }
        self.state = ComponentState::Online;
        self.running = true;
        self.engine_state = EngineStateMachine::Running;
        self.rpm = 800;
        Ok(())
    }

    /// Stops the engine: from Running through Stopping to Off. From any
    /// other state the stop is rejected, and the engine stays as it is.
    pub fn stop(&mut self) -> (res: Result<(), String>)
        ensures
            old(self)@.engine_state == EngineStateMachine::Running ==> res is Ok && final(self)@
                == old(self)@.stopped(),
            old(self)@.engine_state != EngineStateMachine::Running ==> res is Err && res->Err_0@
                == stop_error_text(old(self)@.engine_state) && final(self)@ == old(self)@,
    {
        if !self.engine_state.can_transition_to(&EngineStateMachine::Stopping) {
            let mut text = String::from_str("Cannot stop engine: invalid transition from ");
            text.append(self.engine_state.display_name());
            text.append(" to STOPPING");
            return Err(text);
        }
        self.engine_state = EngineStateMachine::Stopping;
        self.running = false;
        self.rpm = 0;

        if !self.engine_state.can_transition_to(&EngineStateMachine::Off) {
            let mut text = String::from_str("Cannot complete shutdown: invalid transition from ");
            text.append(self.engine_state.display_name());
            text.append(" to OFF");
            return Err(text);
        }
        self.engine_state = EngineStateMachine::Off;
        self.state = ComponentState::Offline;
        Ok(())
    }

    pub fn get_rpm(&self) -> (res: u32)
        ensures
            res == self@.rpm,
    {
        self.rpm
    }

    /// The temperature in hundredths of a degree Celsius.
    pub fn get_temperature(&self) -> (res: i32)
        ensures
            res == self@.temperature,
    {
        self.temperature
    }

    pub fn is_running(&self) -> (res: bool)
        ensures
            res == self@.running,
    {
        self.running
    }

    pub fn get_engine_state(&self) -> (res: &EngineState)
        ensures
            *res == self@.engine_state,
    {
        &self.engine_state
    }

    /// The events that the engine has to publish.
    pub fn get_messages(&self) -> (res: Vec<CarMessage>)
        ensures
            res@ == self@.messages(),
    {
        let mut messages: Vec<CarMessage> = Vec::new();
        if self.running && self.temperature > 2100 {
            messages.push(CarMessage::EngineOverheating { temperature: self.temperature });
        }
        if self.running {
            messages.push(CarMessage::EngineRpmChange { rpm: self.rpm });
        }
        assert(messages@ =~= self@.messages());
        messages
    }
}

impl CarComponent for EngineComponent {
    open spec fn name_text(&self) -> Seq<char> {
        "Engine"@
    }

    open spec fn lifecycle_of(model: EngineModel) -> ComponentState {
        model.lifecycle
    }

    open spec fn after_update(model: EngineModel) -> EngineModel {
        model.processed()
    }

    fn name(&self) -> (res: &str) {
        "Engine"
    }

    fn initialize(&mut self) -> (res: Result<(), String>)
        ensures
            res is Ok,
            final(self)@ == (EngineModel { lifecycle: ComponentState::Online, ..old(self)@ }),
    {
        self.state = ComponentState::Initializing;
        self.state = ComponentState::Online;
        Ok(())
    }

    fn process(&mut self) -> (res: Result<(), String>)
        ensures
            res is Ok,
            final(self)@ == old(self)@.processed(),
    {
        if self.running {
            self.cycle_counter = if self.cycle_counter == u32::MAX {
                0
            } else {
                self.cycle_counter + 1
            };
            let fluctuation: u64 = ((self.cycle_counter as u64) * 17) % 50;
            self.rpm = 800 + (fluctuation as u32);
            if self.temperature < 9000 {
                self.temperature += 5;
            }
        }
        Ok(())
    }

    fn get_state(&self) -> (res: ComponentState)
        ensures
            res == self@.lifecycle,
    {
        self.state.clone()
    }
}

} // verus!
