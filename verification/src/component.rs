//! What every domain component offers to the orchestrator: a name, an
//! initialisation, a periodic update and its lifecycle state.

use vstd::prelude::*;
use vstd::string::*;

verus! {

/// The lifecycle state of a component.
#[derive(Debug, PartialEq)]
pub enum ComponentState {
    /// Not initialised.
    Offline,
    /// Being initialised.
    Initializing,
    /// Operational.
    Online,
    /// Failed, with the reason.
    Error(String),
}

impl Clone for ComponentState {
    fn clone(&self) -> (res: Self)
        ensures
            res == *self,
    {
        match self {
            ComponentState::Offline => ComponentState::Offline,
            ComponentState::Initializing => ComponentState::Initializing,
            ComponentState::Online => ComponentState::Online,
            ComponentState::Error(reason) => ComponentState::Error(reason.clone()),
        }
    }
}

impl ComponentState {
    /// The state as it is shown: its name in upper case, and for a failure
    /// the reason behind it.
    pub open spec fn label_text(self) -> Seq<char> {
        match self {
            ComponentState::Offline => "OFFLINE"@,
            ComponentState::Initializing => "INITIALIZING"@,
            ComponentState::Online => "ONLINE"@,
            ComponentState::Error(reason) => "ERROR: "@ + reason@,
        }
    }

    pub fn label(&self) -> (res: String)
        ensures
            res@ == self.label_text(),
    {
        match self {
            ComponentState::Offline => String::from_str("OFFLINE"),
            ComponentState::Initializing => String::from_str("INITIALIZING"),
            ComponentState::Online => String::from_str("ONLINE"),
            ComponentState::Error(reason) => {
                let mut text = String::from_str("ERROR: ");
                text.append(reason.as_str());
                text
            },
        }
    }
}

/// The lifecycle that the orchestrator relies on in every component. The
/// component's view is its mathematical value.
pub trait CarComponent: View {
    /// The component's name.
    spec fn name_text(&self) -> Seq<char>;

    /// The lifecycle state of a component with this value.
    spec fn lifecycle_of(model: Self::V) -> ComponentState;

    /// The value of the component after one update.
    spec fn after_update(model: Self::V) -> Self::V;

    fn name(&self) -> (res: &str)
        ensures
            res@ == self.name_text(),
    ;

    /// Called once at startup. A component that returns `Ok` is online.
    fn initialize(&mut self) -> (res: Result<(), String>)
        ensures
            res is Ok ==> Self::lifecycle_of(final(self)@) == ComponentState::Online,
    ;

    /// Called once in every cycle. The update is a function of the
    /// component's value alone.
    fn process(&mut self) -> (res: Result<(), String>)
        ensures
            res is Ok ==> final(self)@ == Self::after_update(old(self)@),
    ;

    fn get_state(&self) -> (res: ComponentState)
        ensures
            res == Self::lifecycle_of(self@),
    ;
}

} // verus!
