//! The orchestrator: the four components, the bus between them and the
//! safety monitor, with the cycle that moves them and the workflows that
//! start and stop the vehicle.

use crate::brakes::{BrakesComponent, BrakesModel, pressure_error_text};
use crate::component::{CarComponent, ComponentState};
use crate::dashboard::{DashboardComponent, DashboardModel};
use crate::engine::{EngineComponent, EngineModel, start_error_text, stop_error_text};
use crate::message_bus::{BusModel, MessageBus, posts_by};
use crate::messages::{CarMessage, ComponentId};
use crate::safety::{SafetyMonitor, SafetyWarning, WarningModel, all_below_critical, warning_views};
use crate::state_machine::EngineStateMachine;
use crate::steering::{SteeringComponent, SteeringModel};
use crate::workflow::{
    StepAction, Workflow, WorkflowBuilder, descriptions_of, names_of, run_from,
};
use vstd::prelude::*;

verus! {

/// The whole system as a mathematical value.
pub struct SystemModel {
    pub engine: EngineModel,
    pub brakes: BrakesModel,
    pub steering: SteeringModel,
    pub dashboard: DashboardModel,
    pub bus: BusModel,
    pub safety: SafetyMonitor,
}

impl SystemModel {
    /// The bus of a new system: the four components have a queue each, and
    /// the dashboard receives what the others publish.
    pub open spec fn fresh_bus() -> BusModel {
        BusModel::empty().register(ComponentId::Engine).register(ComponentId::Brakes).register(
            ComponentId::Steering,
        ).register(ComponentId::Dashboard).subscribe_all(ComponentId::Dashboard)
    }

    /// The system after every component has been initialised.
    pub open spec fn initialized(self) -> SystemModel {
        SystemModel {
            engine: EngineModel { lifecycle: ComponentState::Online, ..self.engine },
            brakes: BrakesModel { lifecycle: ComponentState::Online, ..self.brakes },
            steering: SteeringModel { lifecycle: ComponentState::Online, ..self.steering },
            dashboard: DashboardModel { lifecycle: ComponentState::Online, ..self.dashboard },
            ..self
        }
    }

    /// The system after a start: the engine runs and the tank shows 85
    /// percent.
    pub open spec fn started(self) -> SystemModel {
        SystemModel {
            engine: self.engine.started(),
            dashboard: self.dashboard.with_fuel_level(85),
            ..self
        }
    }

    /// The bus of a cycle after the updated components have published
    /// their events: first the engine, then the brakes, then the steering.
    pub open spec fn bus_after_publishing(self) -> BusModel {
        self.bus.publish_each(
            posts_by(ComponentId::Engine, self.engine.processed().messages()),
        ).publish_each(
            posts_by(ComponentId::Brakes, self.brakes.processed().messages()),
        ).publish_each(posts_by(ComponentId::Steering, self.steering.processed().messages()))
    }

    /// The events that the dashboard takes from its queue in a cycle.
    pub open spec fn delivered(self) -> Seq<CarMessage> {
        self.bus_after_publishing().pending(ComponentId::Dashboard)
    }

    /// The system after one cycle at the given speed: engine, brakes and
    /// steering are updated and publish their events, the dashboard empties
    /// its queue, shows the speed, adds a tenth of a kilometre for each
    /// kilometre per hour and is updated itself.
    pub open spec fn cycled(self, speed: u8) -> SystemModel {
        SystemModel {
            engine: self.engine.processed(),
            brakes: self.brakes.processed(),
            steering: self.steering.processed(),
            dashboard: self.dashboard.with_speed(speed).with_distance(speed as u32).processed(),
            bus: self.bus_after_publishing().with_queue(ComponentId::Dashboard, Seq::empty()),
            safety: self.safety,
        }
    }

    /// What the safety monitor finds in the system at the given speed.
    pub open spec fn findings(self, speed: u8) -> Seq<WarningModel> {
        self.safety.findings(
            speed,
            self.engine.temperature,
            self.engine.rpm,
            self.dashboard.fuel_level,
            self.brakes.pressure,
            self.engine.running,
        )
    }

    /// The system after the driver's part of a tick: the brakes are applied
    /// at half pressure on every thirtieth tick but the first and released
    /// ten ticks later; the wheel is turned to 30 degrees fifteen ticks
    /// into every round of 25 and centred five ticks later.
    pub open spec fn steered(self, tick: u64) -> SystemModel {
        SystemModel {
            brakes: if tick % 30 == 0 && tick > 0 {
                BrakesModel { applied: true, pressure: 50, ..self.brakes }
            } else if tick % 30 == 10 {
                BrakesModel { applied: false, ..self.brakes }
            } else {
                self.brakes
            },
            steering: if tick % 25 == 15 {
                SteeringModel { angle: 30, ..self.steering }
            } else if tick % 25 == 20 {
                SteeringModel { angle: 0, ..self.steering }
            } else {
                self.steering
            },
            ..self
        }
    }
}

/// The vehicle: its components, the bus between them and the safety
/// monitor.
pub struct CarSystem {
    pub engine: EngineComponent,
    pub brakes: BrakesComponent,
    pub steering: SteeringComponent,
    pub dashboard: DashboardComponent,
    pub message_bus: MessageBus,
    pub safety: SafetyMonitor,
}

impl View for CarSystem {
    type V = SystemModel;

    open spec fn view(&self) -> SystemModel {
        SystemModel {
            engine: self.engine@,
            brakes: self.brakes@,
            steering: self.steering@,
            dashboard: self.dashboard@,
            bus: self.message_bus@,
            safety: self.safety,
        }
    }
}

impl CarSystem {
    /// A system of new components. Engine, brakes, steering and dashboard
    /// are registered with the bus, and the dashboard subscribes to all
    /// events.
    pub fn new() -> (res: Self)
        ensures
            res@ == (SystemModel {
                engine: EngineModel::fresh(),
                brakes: BrakesModel {
                    lifecycle: ComponentState::Offline,
                    applied: false,
                    pressure: 0,
                },
                steering: SteeringModel { lifecycle: ComponentState::Offline, angle: 0 },
                dashboard: DashboardModel::fresh(),
                bus: SystemModel::fresh_bus(),
                safety: res.safety,
            }),
            res.safety.max_speed == 120,
            res.safety.max_temperature == 9500,
            res.safety.max_rpm == 6000,
            res.safety.min_fuel == 15,
            res.safety.max_brake_pressure == 80,
    {
        let mut message_bus = MessageBus::new();
        message_bus.register_component(ComponentId::Engine);
        message_bus.register_component(ComponentId::Brakes);
        message_bus.register_component(ComponentId::Steering);
        message_bus.register_component(ComponentId::Dashboard);
        message_bus.subscribe_all(ComponentId::Dashboard);
        CarSystem {
            engine: EngineComponent::new(),
            brakes: BrakesComponent::new(),
            steering: SteeringComponent::new(),
            dashboard: DashboardComponent::new(),
            message_bus,
            safety: SafetyMonitor::new(),
        }
    }

    /// Initialises every component.
    pub fn initialize(&mut self) -> (res: Result<(), String>)
        ensures
            res is Ok,
            final(self)@ == old(self)@.initialized(),
    {
        self.engine.initialize()?;
        self.brakes.initialize()?;
        self.steering.initialize()?;
        self.dashboard.initialize()?;
        Ok(())
    }

    /// Starts the engine and sets the fuel level to 85 percent. Where the
    /// engine rejects the start, nothing changes.
    pub fn start(&mut self) -> (res: Result<(), String>)
        ensures
            old(self)@.engine.engine_state == EngineStateMachine::Off ==> res is Ok && final(self)@ == old(self)@.started(),
            old(self)@.engine.engine_state != EngineStateMachine::Off ==> res is Err
                && res->Err_0@ == start_error_text(old(self)@.engine.engine_state) && final(self)@ == old(self)@,
    {
        self.engine.start()?;
        self.dashboard.set_fuel_level(85);
        Ok(())
    }

    /// Runs one cycle at the given speed and returns the events that the
    /// dashboard took from its queue.
    pub fn process_cycle(&mut self, speed: u8) -> (res: Result<Vec<CarMessage>, String>)
        ensures
            res is Ok,
            res->Ok_0@ == old(self)@.delivered(),
            final(self)@ == old(self)@.cycled(speed),
    {
        self.engine.process()?;
        self.brakes.process()?;
        self.steering.process()?;

        let engine_msgs = self.engine.get_messages();
        let brakes_msgs = self.brakes.get_messages();
        let steering_msgs = self.steering.get_messages();

        self.message_bus.publish_all(ComponentId::Engine, &engine_msgs);
        self.message_bus.publish_all(ComponentId::Brakes, &brakes_msgs);
        self.message_bus.publish_all(ComponentId::Steering, &steering_msgs);

        let dashboard_msgs = self.message_bus.receive_all(ComponentId::Dashboard);

        self.dashboard.set_speed(speed);
        self.dashboard.update_odometer(speed as u32);
        self.dashboard.process()?;
        Ok(dashboard_msgs)
    }

    /// Stops the engine. Where the engine rejects the stop, nothing
    /// changes.
    pub fn shutdown(&mut self) -> (res: Result<(), String>)
        ensures
            old(self)@.engine.engine_state == EngineStateMachine::Running ==> res is Ok && final(self)@ == (SystemModel { engine: old(self)@.engine.stopped(), ..old(self)@ }),
            old(self)@.engine.engine_state != EngineStateMachine::Running ==> res is Err
                && res->Err_0@ == stop_error_text(old(self)@.engine.engine_state) && final(self)@ == old(self)@,
    {
        self.engine.stop()?;
        Ok(())
    }

    /// Asks the safety monitor about the system at the given speed.
    pub fn check_safety(&self, speed: u8) -> (res: Vec<SafetyWarning>)
        ensures
            warning_views(res@) == self@.findings(speed),
    {
        self.safety.check(
            speed,
            self.engine.get_temperature(),
            self.engine.get_rpm(),
            self.dashboard.get_fuel_level(),
            self.brakes.get_pressure(),
            self.engine.is_running(),
        )
    }
}

/// The actions that the vehicle's workflows are made of.
#[derive(Debug, Clone, Copy, PartialEq, Eq, Structural)]
pub enum CarAction {
    /// Start the engine.
    StartEngine,
    /// Stop the engine.
    StopEngine,
    /// Show a fuel level on the dashboard.
    SetFuelLevel { level: u8 },
    /// Apply the brakes with a pressure in percent.
    ApplyBrakes { pressure: u8 },
    /// Release the brakes.
    ReleaseBrakes,
    /// Put the steering wheel in the centre.
    CenterSteering,
    /// Change nothing: the step exists for what its driver announces.
    Announce,
}

impl StepAction<CarSystem> for CarAction {
    open spec fn effect(&self, before: SystemModel) -> SystemModel {
        match *self {
            CarAction::StartEngine => if before.engine.engine_state == EngineStateMachine::Off {
                SystemModel { engine: before.engine.started(), ..before }
            } else {
                before
            },
            CarAction::StopEngine => if before.engine.engine_state
                == EngineStateMachine::Running {
                SystemModel { engine: before.engine.stopped(), ..before }
            } else {
                before
            },
            CarAction::SetFuelLevel { level } => SystemModel {
                dashboard: before.dashboard.with_fuel_level(level),
                ..before
            },
            CarAction::ApplyBrakes { pressure } => if pressure <= 100 {
                SystemModel {
                    brakes: BrakesModel { applied: true, pressure, ..before.brakes },
                    ..before
                }
            } else {
                before
            },
            CarAction::ReleaseBrakes => SystemModel {
                brakes: BrakesModel { applied: false, ..before.brakes },
                ..before
            },
            CarAction::CenterSteering => SystemModel {
                steering: SteeringModel { angle: 0, ..before.steering },
                ..before
            },
            CarAction::Announce => before,
        }
    }

    open spec fn failure(&self, before: SystemModel) -> Option<Seq<char>> {
        match *self {
            CarAction::StartEngine => if before.engine.engine_state == EngineStateMachine::Off {
                None
            } else {
                Some(start_error_text(before.engine.engine_state))
            },
            CarAction::StopEngine => if before.engine.engine_state
                == EngineStateMachine::Running {
                None
            } else {
                Some(stop_error_text(before.engine.engine_state))
            },
            CarAction::ApplyBrakes { pressure } => if pressure <= 100 {
                None
            } else {
                Some(pressure_error_text())
            },
            _ => None,
        }
    }

    fn run(&self, context: &mut CarSystem) -> (res: Result<(), String>) {
        match self {
            CarAction::StartEngine => context.engine.start(),
            CarAction::StopEngine => context.engine.stop(),
            CarAction::SetFuelLevel { level } => {
                context.dashboard.set_fuel_level(*level);
                Ok(())
            },
            CarAction::ApplyBrakes { pressure } => context.brakes.apply(*pressure),
            CarAction::ReleaseBrakes => {
                context.brakes.release();
                Ok(())
            },
            CarAction::CenterSteering => {
                context.steering.center();
                Ok(())
            },
            CarAction::Announce => Ok(()),
        }
    }
}

impl CarSystem {
    /// The workflow that starts the vehicle: start the engine, set the
    /// dashboard, announce readiness.
    pub fn create_start_workflow() -> (res: Workflow<CarAction>)
        ensures
            res.name_text() == "Start Car"@,
            res.description_text() == "Sequence to start the car and prepare for driving"@,
            res.actions() == start_actions(),
            names_of(res.steps()) == seq![
                "Start Engine"@,
                "Initialize Dashboard"@,
                "Ready Announcement"@,
            ],
            descriptions_of(res.steps()) == seq![
                "Initialize the engine"@,
                "Set initial dashboard values"@,
                "Announce car is ready"@,
            ],
    {
        let mut builder: WorkflowBuilder<CarAction> = WorkflowBuilder::new(
            "Start Car",
            "Sequence to start the car and prepare for driving",
        );
        builder.step("Start Engine", "Initialize the engine", CarAction::StartEngine);
        builder.step(
            "Initialize Dashboard",
            "Set initial dashboard values",
            CarAction::SetFuelLevel { level: 85 },
        );
        builder.step("Ready Announcement", "Announce car is ready", CarAction::Announce);
        let res = builder.build();
        proof {
            let steps = res.steps();
            assert(steps.drop_last().drop_last().drop_last().len() == 0);
            assert(steps[0] == steps.drop_last().drop_last().last());
            assert(steps[1] == steps.drop_last().last());
            assert(steps[2] == steps.last());
            assert(res.actions() =~= start_actions());
            assert(names_of(steps) =~= seq![
                "Start Engine"@,
                "Initialize Dashboard"@,
                "Ready Announcement"@,
            ]);
            assert(descriptions_of(steps) =~= seq![
                "Initialize the engine"@,
                "Set initial dashboard values"@,
                "Announce car is ready"@,
            ]);
        }
        res
    }

    /// The workflow that shuts the vehicle down: release the brakes, centre
    /// the steering, stop the engine.
    pub fn create_shutdown_workflow() -> (res: Workflow<CarAction>)
        ensures
            res.name_text() == "Shutdown Car"@,
            res.description_text() == "Sequence to safely shutdown the car"@,
            res.actions() == shutdown_actions(),
            names_of(res.steps()) == seq!["Release Brakes"@, "Center Steering"@, "Stop Engine"@],
            descriptions_of(res.steps()) == seq![
                "Ensure brakes are released"@,
                "Return steering to center"@,
                "Turn off the engine"@,
            ],
    {
        let mut builder: WorkflowBuilder<CarAction> = WorkflowBuilder::new(
            "Shutdown Car",
            "Sequence to safely shutdown the car",
        );
        builder.step("Release Brakes", "Ensure brakes are released", CarAction::ReleaseBrakes);
        builder.step("Center Steering", "Return steering to center", CarAction::CenterSteering);
        builder.step("Stop Engine", "Turn off the engine", CarAction::StopEngine);
        let res = builder.build();
        proof {
            let steps = res.steps();
            assert(steps.drop_last().drop_last().drop_last().len() == 0);
            assert(steps[0] == steps.drop_last().drop_last().last());
            assert(steps[1] == steps.drop_last().last());
            assert(steps[2] == steps.last());
            assert(res.actions() =~= shutdown_actions());
            assert(names_of(steps) =~= seq![
                "Release Brakes"@,
                "Center Steering"@,
                "Stop Engine"@,
            ]);
            assert(descriptions_of(steps) =~= seq![
                "Ensure brakes are released"@,
                "Return steering to center"@,
                "Turn off the engine"@,
            ]);
        }
        res
    }

    /// The workflow of an emergency stop: full brakes, stop the engine,
    /// show the hazard warning.
    pub fn create_emergency_stop_workflow() -> (res: Workflow<CarAction>)
        ensures
            res.name_text() == "Emergency Stop"@,
            res.description_text() == "Immediate emergency stop sequence"@,
            res.actions() == emergency_stop_actions(),
            names_of(res.steps()) == seq!["Max Brakes"@, "Stop Engine"@, "Hazard Warning"@],
            descriptions_of(res.steps()) == seq![
                "Apply maximum brake pressure"@,
                "Immediately stop engine"@,
                "Display emergency status"@,
            ],
    {
        let mut builder: WorkflowBuilder<CarAction> = WorkflowBuilder::new(
            "Emergency Stop",
            "Immediate emergency stop sequence",
        );
        builder.step(
            "Max Brakes",
            "Apply maximum brake pressure",
            CarAction::ApplyBrakes { pressure: 100 },
        );
        builder.step("Stop Engine", "Immediately stop engine", CarAction::StopEngine);
        builder.step("Hazard Warning", "Display emergency status", CarAction::Announce);
        let res = builder.build();
        proof {
            let steps = res.steps();
            assert(steps.drop_last().drop_last().drop_last().len() == 0);
            assert(steps[0] == steps.drop_last().drop_last().last());
            assert(steps[1] == steps.drop_last().last());
            assert(steps[2] == steps.last());
            assert(res.actions() =~= emergency_stop_actions());
            assert(names_of(steps) =~= seq!["Max Brakes"@, "Stop Engine"@, "Hazard Warning"@]);
            assert(descriptions_of(steps) =~= seq![
                "Apply maximum brake pressure"@,
                "Immediately stop engine"@,
                "Display emergency status"@,
            ]);
        }
        res
    }
}

/// The actions of the workflow that starts the vehicle.
pub open spec fn start_actions() -> Seq<CarAction> {
    seq![CarAction::StartEngine, CarAction::SetFuelLevel { level: 85 }, CarAction::Announce]
}

/// The actions of the workflow that shuts the vehicle down.
pub open spec fn shutdown_actions() -> Seq<CarAction> {
    seq![CarAction::ReleaseBrakes, CarAction::CenterSteering, CarAction::StopEngine]
}

/// The actions of the emergency stop.
pub open spec fn emergency_stop_actions() -> Seq<CarAction> {
    seq![CarAction::ApplyBrakes { pressure: 100 }, CarAction::StopEngine, CarAction::Announce]
}

/// The start workflow does what `start` does: with the engine off it
/// succeeds and leaves the engine running and the tank at 85 percent; in
/// any other state its first step fails and nothing changes.
pub proof fn lemma_start_workflow_outcome(system: SystemModel)
    ensures
        system.engine.engine_state == EngineStateMachine::Off ==> run_from::<CarSystem, CarAction>(
            start_actions(),
            0,
            system,
        ) == (system.started(), None::<Seq<char>>),
        system.engine.engine_state != EngineStateMachine::Off ==> run_from::<CarSystem, CarAction>(
            start_actions(),
            0,
            system,
        ) == (system, Some(start_error_text(system.engine.engine_state))),
{
    reveal_with_fuel(run_from, 4);
}

/// The shutdown workflow releases the brakes and centres the steering
/// whatever the engine does; it succeeds, and stops the engine, exactly
/// when the engine is running.
pub proof fn lemma_shutdown_workflow_outcome(system: SystemModel)
    ensures
        ({
            let calmed = SystemModel {
                brakes: BrakesModel { applied: false, ..system.brakes },
                steering: SteeringModel { angle: 0, ..system.steering },
                ..system
            };
            let outcome = run_from::<CarSystem, CarAction>(shutdown_actions(), 0, system);
            &&& system.engine.engine_state == EngineStateMachine::Running ==> outcome == (
                SystemModel { engine: system.engine.stopped(), ..calmed },
                None::<Seq<char>>,
            )
            &&& system.engine.engine_state != EngineStateMachine::Running ==> outcome == (
                calmed,
                Some(stop_error_text(system.engine.engine_state)),
            )
        }),
{
    reveal_with_fuel(run_from, 4);
}

/// The emergency stop always applies the brakes in full. With the engine
/// running it stops the engine and succeeds; in any other state it fails
/// at the engine, and the brakes stay applied.
pub proof fn lemma_emergency_stop_outcome(system: SystemModel)
    ensures
        ({
            let braked = SystemModel {
                brakes: BrakesModel { applied: true, pressure: 100, ..system.brakes },
                ..system
            };
            let outcome = run_from::<CarSystem, CarAction>(emergency_stop_actions(), 0, system);
            &&& system.engine.engine_state == EngineStateMachine::Running ==> outcome == (
                SystemModel { engine: system.engine.stopped(), ..braked },
                None::<Seq<char>>,
            )
            &&& system.engine.engine_state != EngineStateMachine::Running ==> outcome == (
                braked,
                Some(stop_error_text(system.engine.engine_state)),
            )
        }),
{
    reveal_with_fuel(run_from, 4);
}

} // verus!
