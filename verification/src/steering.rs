//! The steering: the wheel's angle, and its return to the centre.

use crate::component::{CarComponent, ComponentState};
use crate::messages::CarMessage;
use vstd::prelude::*;
use vstd::string::*;

verus! {

/// The steering as a mathematical value.
pub struct SteeringModel {
    pub lifecycle: ComponentState,
    /// The angle in degrees: negative to the left, positive to the right.
    pub angle: i16,
}

impl SteeringModel {
    /// The events that the steering publishes: its angle while the wheel
    /// is off the centre.
    pub open spec fn messages(self) -> Seq<CarMessage> {
        if self.angle != 0 {
            seq![CarMessage::SteeringTurn { angle: self.angle }]
        } else {
            Seq::empty()
        }
    }

    /// The steering after one update: the wheel comes two degrees nearer
    /// to the centre, and stops there.
    pub open spec fn processed(self) -> SteeringModel {
        SteeringModel { angle: centred_by_two(self.angle), ..self }
    }
}

/// An angle moved towards zero by two degrees, and not beyond zero.
pub open spec fn centred_by_two(angle: i16) -> i16 {
    if angle > 2 {
        (angle - 2) as i16
    } else if angle < -2 {
        (angle + 2) as i16
    } else {
        0
    }
}

/// The side that an angle points to: beyond ten degrees left or right,
/// else the centre.
pub open spec fn direction_text(angle: i16) -> Seq<char> {
    if angle > 10 {
        "RIGHT"@
    } else if angle < -10 {
        "LEFT"@
    } else {
        "CENTER"@
    }
}

/// The side to which the wheel moves when it is turned from one angle to
/// another.
pub open spec fn turn_text(from: i16, to: i16) -> Seq<char> {
    if to > from {
        "right"@
    } else if to < from {
        "left"@
    } else {
        "centered"@
    }
}

/// The text of the error for an angle outside of -90 to 90 degrees.
pub open spec fn angle_error_text() -> Seq<char> {
    "Angle must be between -90 and +90 degrees"@
}

/// The side to which the wheel moves when it is turned from one angle to
/// another.
pub fn turn_direction(from: i16, to: i16) -> (res: &'static str)
    ensures
        res@ == turn_text(from, to),
{
    if to > from {
        "right"
    } else if to < from {
        "left"
    } else {
        "centered"
    }
}

pub struct SteeringComponent {
    state: ComponentState,
    angle: i16,
}

impl View for SteeringComponent {
    type V = SteeringModel;

    closed spec fn view(&self) -> SteeringModel {
        SteeringModel { lifecycle: self.state, angle: self.angle }
    }
}

impl SteeringComponent {
    /// A steering that is offline, with the wheel in the centre.
    pub fn new() -> (res: Self)
        ensures
            res@ == (SteeringModel { lifecycle: ComponentState::Offline, angle: 0 }),
    {
        SteeringComponent { state: ComponentState::Offline, angle: 0 }
    }

    /// Turns the wheel to an angle of -90 to 90 degrees. Another angle is
    /// rejected, and the wheel stays where it is.
    pub fn turn(&mut self, angle: i16) -> (res: Result<(), String>)
        ensures
            -90 <= angle <= 90 ==> res is Ok && final(self)@ == (SteeringModel {
                angle,
                ..old(self)@
            }),
            !(-90 <= angle <= 90) ==> res is Err && res->Err_0@ == angle_error_text()
                && final(self)@ == old(self)@,
    {
        if angle < -90 || angle > 90 {
            return Err(String::from_str("Angle must be between -90 and +90 degrees"));
        }
        self.angle = angle;
        Ok(())
    }

    /// Puts the wheel in the centre.
    pub fn center(&mut self)
        ensures
            final(self)@ == (SteeringModel { angle: 0, ..old(self)@ }),
    {
        if self.angle != 0 {
            self.angle = 0;
        }
    }

    pub fn get_angle(&self) -> (res: i16)
        ensures
            res == self@.angle,
    {
        self.angle
    }

    /// The side that the wheel points to.
    pub fn get_direction(&self) -> (res: &'static str)
        ensures
            res@ == direction_text(self@.angle),
    {
        if self.angle > 10 {
            "RIGHT"
        } else if self.angle < -10 {
            "LEFT"
        } else {
            "CENTER"
        }
    }

    /// The events that the steering has to publish.
    pub fn get_messages(&self) -> (res: Vec<CarMessage>)
        ensures
            res@ == self@.messages(),
    {
        let mut messages: Vec<CarMessage> = Vec::new();
        if self.angle != 0 {
            messages.push(CarMessage::SteeringTurn { angle: self.angle });
        }
        assert(messages@ =~= self@.messages());
        messages
    }
}

impl CarComponent for SteeringComponent {
    open spec fn name_text(&self) -> Seq<char> {
        "Steering"@
    }

    open spec fn lifecycle_of(model: SteeringModel) -> ComponentState {
        model.lifecycle
    }

    open spec fn after_update(model: SteeringModel) -> SteeringModel {
        model.processed()
    }

    fn name(&self) -> (res: &str) {
        "Steering"
    }

    fn initialize(&mut self) -> (res: Result<(), String>)
        ensures
            res is Ok,
            final(self)@ == (SteeringModel { lifecycle: ComponentState::Online, ..old(self)@ }),
    {
        self.state = ComponentState::Initializing;
        self.state = ComponentState::Online;
        Ok(())
    }

    fn process(&mut self) -> (res: Result<(), String>)
        ensures
            res is Ok,
            final(self)@ == old(self)@.processed(),
    {
        if self.angle > 0 {
            self.angle = if self.angle > 2 {
                self.angle - 2
            } else {
                0
            };
        } else if self.angle < 0 {
            self.angle = if self.angle < -2 {
                self.angle + 2
            } else {
                0
            };
        }
        Ok(())
    }

    fn get_state(&self) -> (res: ComponentState)
        ensures
            res == self@.lifecycle,
    {
        self.state.clone()
    }
}

} // verus!
