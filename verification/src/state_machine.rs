//! Validated state machines: a state changes only along a declared edge.

use vstd::prelude::*;
use vstd::string::*;

verus! {

/// The text of the error that a rejected transition returns: it names the
/// state the entity was in and the state that was asked for.
pub open spec fn invalid_transition_text(from: Seq<char>, to: Seq<char>) -> Seq<char> {
    "Invalid transition: "@ + from + " \u{2192} "@ + to
}

/// An entity whose state changes only along the edges of a fixed table.
pub trait StateMachine: Sized {
    type State: Copy;

    /// The entity's current state.
    spec fn state(&self) -> Self::State;

    /// The transition table: whether `to` may follow `from`.
    spec fn legal(from: Self::State, to: Self::State) -> bool;

    /// The name under which a state appears in error texts.
    spec fn label(state: Self::State) -> Seq<char>;

    fn state_label(state: &Self::State) -> (res: String)
        ensures
            res@ == Self::label(*state),
    ;

    fn current_state(&self) -> (res: &Self::State)
        ensures
            *res == self.state(),
    ;

    fn can_transition_to(&self, new_state: &Self::State) -> (res: bool)
        ensures
            res == Self::legal(self.state(), *new_state),
    ;

    /// Moves to `new_state` if the table allows it. A rejected request
    /// changes nothing and returns an error that names the rejected pair.
    fn transition(&mut self, new_state: Self::State) -> (res: Result<(), String>)
        ensures
            Self::legal(old(self).state(), new_state) ==> res is Ok && final(self).state()
                == new_state,
            !Self::legal(old(self).state(), new_state) ==> res is Err && *final(self) == *old(
                self,
            ) && res->Err_0@ == invalid_transition_text(
                Self::label(old(self).state()),
                Self::label(new_state),
            ),
    {
        if !self.can_transition_to(&new_state) {
            let mut text = String::from_str("Invalid transition: ");
            let from = Self::state_label(self.current_state());
            let to = Self::state_label(&new_state);
            text.append(from.as_str());
            text.append(" \u{2192} ");
            text.append(to.as_str());
            return Err(text);
        }
        self.set_state(new_state);
        Ok(())
    }

    /// Stores a state that the table has already admitted.
    fn set_state(&mut self, new_state: Self::State)
        requires
            Self::legal(old(self).state(), new_state),
        ensures
            final(self).state() == new_state,
    ;
}

/// The states of the engine.
#[derive(Debug, Clone, Copy, PartialEq, Eq, Structural)]
pub enum EngineStateMachine {
    Off,
    Starting,
    Running,
    Stopping,
}

/// The engine's transition table: the legal edges, and nothing else.
pub open spec fn engine_edge(from: EngineStateMachine, to: EngineStateMachine) -> bool {
    match from {
        EngineStateMachine::Off => to == EngineStateMachine::Starting,
        EngineStateMachine::Starting => to == EngineStateMachine::Running || to
            == EngineStateMachine::Off,
        EngineStateMachine::Running => to == EngineStateMachine::Stopping,
        EngineStateMachine::Stopping => to == EngineStateMachine::Off,
    }
}

impl EngineStateMachine {
    /// The successors of a state, in the order of the table.
    pub open spec fn successors(self) -> Seq<EngineStateMachine> {
        match self {
            EngineStateMachine::Off => seq![EngineStateMachine::Starting],
            EngineStateMachine::Starting => seq![
                EngineStateMachine::Running,
                EngineStateMachine::Off,
            ],
            EngineStateMachine::Running => seq![EngineStateMachine::Stopping],
            EngineStateMachine::Stopping => seq![EngineStateMachine::Off],
        }
    }

    /// The state that follows on the main cycle Off, Starting, Running, Stopping.
    pub open spec fn next_on_cycle(self) -> EngineStateMachine {
        match self {
            EngineStateMachine::Off => EngineStateMachine::Starting,
            EngineStateMachine::Starting => EngineStateMachine::Running,
            EngineStateMachine::Running => EngineStateMachine::Stopping,
            EngineStateMachine::Stopping => EngineStateMachine::Off,
        }
    }

    /// All states that can legally follow this one.
    pub fn valid_transitions(&self) -> (res: Vec<EngineStateMachine>)
        ensures
            res@ == self.successors(),
            forall|to: EngineStateMachine| res@.contains(to) <==> engine_edge(*self, to),
    {
        let res = match self {
            EngineStateMachine::Off => vec![EngineStateMachine::Starting],
            EngineStateMachine::Starting => vec![
                EngineStateMachine::Running,
                EngineStateMachine::Off,
            ],
            EngineStateMachine::Running => vec![EngineStateMachine::Stopping],
            EngineStateMachine::Stopping => vec![EngineStateMachine::Off],
        };
        proof {
            assert(res@ =~= self.successors());
            assert forall|to: EngineStateMachine| res@.contains(to) <==> engine_edge(
                *self,
                to,
            ) by {
                if engine_edge(*self, to) {
                    if res@[0] == to {
                    } else {
                        assert(res@[1] == to);
                    }
                }
            }
        }
        res
    }

    /// Whether the table holds the edge from this state to `new_state`.
    pub fn can_transition_to(&self, new_state: &EngineStateMachine) -> (res: bool)
        ensures
            res == engine_edge(*self, *new_state),
    {
        match self {
            EngineStateMachine::Off => *new_state == EngineStateMachine::Starting,
            EngineStateMachine::Starting => *new_state == EngineStateMachine::Running
                || *new_state == EngineStateMachine::Off,
            EngineStateMachine::Running => *new_state == EngineStateMachine::Stopping,
            EngineStateMachine::Stopping => *new_state == EngineStateMachine::Off,
        }
    }

    /// The next state on the main cycle; every state has one.
    pub fn transition(&self) -> (res: Result<EngineStateMachine, String>)
        ensures
            res == Ok::<EngineStateMachine, String>(self.next_on_cycle()),
            engine_edge(*self, self.next_on_cycle()),
    {
        match self {
            EngineStateMachine::Off => Ok(EngineStateMachine::Starting),
            EngineStateMachine::Starting => Ok(EngineStateMachine::Running),
            EngineStateMachine::Running => Ok(EngineStateMachine::Stopping),
            EngineStateMachine::Stopping => Ok(EngineStateMachine::Off),
        }
    }
}

impl EngineStateMachine {
    /// The state's name in upper case, as it is shown to the driver.
    pub open spec fn display_name_spec(self) -> Seq<char> {
        match self {
            EngineStateMachine::Off => "OFF"@,
            EngineStateMachine::Starting => "STARTING"@,
            EngineStateMachine::Running => "RUNNING"@,
            EngineStateMachine::Stopping => "STOPPING"@,
        }
    }

    pub fn display_name(&self) -> (res: &'static str)
        ensures
            res@ == self.display_name_spec(),
    {
        match self {
            EngineStateMachine::Off => "OFF",
            EngineStateMachine::Starting => "STARTING",
            EngineStateMachine::Running => "RUNNING",
            EngineStateMachine::Stopping => "STOPPING",
        }
    }

    /// The state's name as it is written in error texts.
    pub open spec fn variant_name_spec(self) -> Seq<char> {
        match self {
            EngineStateMachine::Off => "Off"@,
            EngineStateMachine::Starting => "Starting"@,
            EngineStateMachine::Running => "Running"@,
            EngineStateMachine::Stopping => "Stopping"@,
        }
    }

    pub fn variant_name(&self) -> (res: &'static str)
        ensures
            res@ == self.variant_name_spec(),
    {
        match self {
            EngineStateMachine::Off => "Off",
            EngineStateMachine::Starting => "Starting",
            EngineStateMachine::Running => "Running",
            EngineStateMachine::Stopping => "Stopping",
        }
    }
}

/// The engine's states are a state machine of their own: the value is its
/// current state, and the table is `engine_edge`.
impl StateMachine for EngineStateMachine {
    type State = EngineStateMachine;

    open spec fn state(&self) -> EngineStateMachine {
        *self
    }

    open spec fn legal(from: EngineStateMachine, to: EngineStateMachine) -> bool {
        engine_edge(from, to)
    }

    open spec fn label(state: EngineStateMachine) -> Seq<char> {
        state.variant_name_spec()
    }

    fn state_label(state: &EngineStateMachine) -> (res: String) {
        String::from_str(state.variant_name())
    }

    fn current_state(&self) -> (res: &EngineStateMachine) {
        self
    }

    fn can_transition_to(&self, new_state: &EngineStateMachine) -> (res: bool) {
        EngineStateMachine::can_transition_to(self, new_state)
    }

    fn set_state(&mut self, new_state: EngineStateMachine) {
        *self = new_state;
    }
}

/// A walk through the engine's states that starts at Off and follows only
/// edges of the table.
pub open spec fn engine_walk(path: Seq<EngineStateMachine>) -> bool {
    &&& path.len() >= 1
    &&& path[0] == EngineStateMachine::Off
    &&& forall|i: int| 0 <= i < path.len() - 1 ==> engine_edge(#[trigger] path[i], path[i + 1])
}

/// A walk that leaves Off and ends at its first return to Off.
pub open spec fn engine_round_trip(path: Seq<EngineStateMachine>) -> bool {
    &&& engine_walk(path)
    &&& path.len() >= 2
    &&& path.last() == EngineStateMachine::Off
    &&& forall|i: int| 0 < i < path.len() - 1 ==> #[trigger] path[i] != EngineStateMachine::Off
}

/// The full cycle: Off, Starting, Running, Stopping, Off.
pub open spec fn engine_full_cycle() -> Seq<EngineStateMachine> {
    seq![
        EngineStateMachine::Off,
        EngineStateMachine::Starting,
        EngineStateMachine::Running,
        EngineStateMachine::Stopping,
        EngineStateMachine::Off,
    ]
}

/// The aborted start: Off, Starting, Off.
pub open spec fn engine_aborted_start() -> Seq<EngineStateMachine> {
    seq![EngineStateMachine::Off, EngineStateMachine::Starting, EngineStateMachine::Off]
}

/// Every round trip from Off is the full cycle or the aborted start.
pub proof fn lemma_round_trips_are_the_two_cycles(path: Seq<EngineStateMachine>)
    requires
        engine_round_trip(path),
    ensures
        path == engine_full_cycle() || path == engine_aborted_start(),
{
    let n = path.len() as int;
    assert(engine_edge(path[0], path[1]));
    assert(path[1] == EngineStateMachine::Starting);
    assert(n >= 3);
    assert(engine_edge(path[1], path[2]));
    if path[2] == EngineStateMachine::Off {
        if n > 3 {
            assert(path[2] != EngineStateMachine::Off);
        }
        assert(path =~= engine_aborted_start());
    } else {
        assert(path[2] == EngineStateMachine::Running);
        assert(n >= 4);
        assert(engine_edge(path[2], path[3]));
        assert(path[3] == EngineStateMachine::Stopping);
        assert(n >= 5);
        assert(engine_edge(path[3], path[4]));
        assert(path[4] == EngineStateMachine::Off);
        if n > 5 {
            assert(path[4] != EngineStateMachine::Off);
        }
        assert(path =~= engine_full_cycle());
    }
}

/// The full cycle and the aborted start are round trips from Off.
pub proof fn lemma_the_two_cycles_are_round_trips()
    ensures
        engine_round_trip(engine_full_cycle()),
        engine_round_trip(engine_aborted_start()),
{
}

/// In a walk from Off, each state after the first is fixed by the one
/// before it, except after Starting, where Running and Off are both open.
pub proof fn lemma_walk_steps(path: Seq<EngineStateMachine>, i: int)
    requires
        engine_walk(path),
        0 <= i < path.len() - 1,
    ensures
        path[i] != EngineStateMachine::Starting ==> path[i + 1] == path[i].next_on_cycle(),
        path[i] == EngineStateMachine::Starting ==> path[i + 1] == EngineStateMachine::Running
            || path[i + 1] == EngineStateMachine::Off,
        path[i + 1] != path[i],
{
    assert(engine_edge(path[i], path[i + 1]));
}

} // verus!
