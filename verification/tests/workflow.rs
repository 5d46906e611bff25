use car_system::state_machine::EngineStateMachine;
use car_system::system::{CarAction, CarSystem};
use car_system::workflow::{Workflow, WorkflowBuilder, WorkflowStep};

#[test]
fn second_of_three_steps_fails() {
    let mut builder: WorkflowBuilder<CarAction> = WorkflowBuilder::new("demo", "three steps");
    builder.step("brake", "half pressure", CarAction::ApplyBrakes { pressure: 50 });
    builder.step("too much", "more than full pressure", CarAction::ApplyBrakes { pressure: 150 });
    builder.step("start", "never reached", CarAction::StartEngine);
    let workflow = builder.build();
    assert_eq!(workflow.step_count(), 3);

    let mut car = CarSystem::new();
    let res = workflow.execute(&mut car);

    assert_eq!(res, Err("Pressure cannot exceed 100%".to_string()));
    // the first step's effect stays
    assert!(car.brakes.is_applied());
    assert_eq!(car.brakes.get_pressure(), 50);
    // the third step never ran
    assert!(!car.engine.is_running());
    assert_eq!(*car.engine.get_engine_state(), EngineStateMachine::Off);
}

#[test]
fn failing_step_keeps_what_it_did_and_ends_the_run() {
    // Stopping an engine that is off fails; the steering is centred only
    // if the step behind the failure runs.
    let mut workflow: Workflow<CarAction> = Workflow::new("stop", "stop twice");
    workflow.add_step(WorkflowStep::new("fuel", "set fuel", CarAction::SetFuelLevel { level: 40 }));
    workflow.add_step(WorkflowStep::new("stop", "stop engine", CarAction::StopEngine));
    workflow.add_step(WorkflowStep::new("centre", "centre", CarAction::CenterSteering));
    let mut car = CarSystem::new();
    car.steering.turn(45).unwrap();
    let res = workflow.execute(&mut car);
    assert_eq!(
        res,
        Err("Cannot stop engine: invalid transition from OFF to STOPPING".to_string())
    );
    assert_eq!(car.dashboard.get_fuel_level(), 40);
    assert_eq!(car.steering.get_angle(), 45);
}

#[test]
fn all_steps_run_in_order_when_none_fails() {
    let mut builder: WorkflowBuilder<CarAction> = WorkflowBuilder::new("order", "later wins");
    builder.step("a", "first level", CarAction::SetFuelLevel { level: 10 });
    builder.step("b", "second level", CarAction::SetFuelLevel { level: 20 });
    builder.step("c", "brake", CarAction::ApplyBrakes { pressure: 30 });
    builder.step("d", "release", CarAction::ReleaseBrakes);
    let workflow = builder.build();
    let mut car = CarSystem::new();
    assert_eq!(workflow.execute(&mut car), Ok(()));
    assert_eq!(car.dashboard.get_fuel_level(), 20);
    assert_eq!(car.brakes.get_pressure(), 30);
    assert!(!car.brakes.is_applied());
}

#[test]
fn empty_workflow_succeeds_and_changes_nothing() {
    let workflow: Workflow<CarAction> = Workflow::new("empty", "no steps");
    assert_eq!(workflow.step_count(), 0);
    let mut car = CarSystem::new();
    assert_eq!(workflow.execute(&mut car), Ok(()));
    assert_eq!(car.dashboard.get_fuel_level(), 100);
    assert!(!car.engine.is_running());
    assert!(workflow.step_at(0).is_none());
}

#[test]
fn workflow_can_be_replayed() {
    let workflow = CarSystem::create_start_workflow();
    let mut first = CarSystem::new();
    let mut second = CarSystem::new();
    assert_eq!(workflow.execute(&mut first), Ok(()));
    assert_eq!(workflow.execute(&mut second), Ok(()));
    assert!(first.engine.is_running());
    assert!(second.engine.is_running());
    assert_eq!(workflow.step_count(), 3);
    // on a running engine the first step fails at once
    assert_eq!(
        workflow.execute(&mut first),
        Err("Cannot start engine: invalid transition from RUNNING to STARTING".to_string())
    );
    assert!(first.engine.is_running());
}

#[test]
fn start_workflow_starts_the_car() {
    let workflow = CarSystem::create_start_workflow();
    assert_eq!(workflow.name(), "Start Car");
    assert_eq!(workflow.description(), "Sequence to start the car and prepare for driving");
    assert_eq!(workflow.step_count(), 3);
    assert_eq!(workflow.step_at(0).unwrap().name(), "Start Engine");
    assert_eq!(workflow.step_at(0).unwrap().description(), "Initialize the engine");
    assert_eq!(workflow.step_at(1).unwrap().name(), "Initialize Dashboard");
    assert_eq!(workflow.step_at(2).unwrap().name(), "Ready Announcement");
    assert!(workflow.step_at(3).is_none());
    assert_eq!(workflow.summary(), "Workflow[Start Car] (3 steps)");

    let mut car = CarSystem::new();
    assert_eq!(workflow.execute(&mut car), Ok(()));
    assert!(car.engine.is_running());
    assert_eq!(car.engine.get_rpm(), 800);
    assert_eq!(*car.engine.get_engine_state(), EngineStateMachine::Running);
    assert_eq!(car.dashboard.get_fuel_level(), 85);
}

#[test]
fn shutdown_workflow_stops_the_car() {
    let mut car = CarSystem::new();
    car.start().unwrap();
    car.brakes.apply(70).unwrap();
    car.steering.turn(-20).unwrap();
    let workflow = CarSystem::create_shutdown_workflow();
    assert_eq!(workflow.name(), "Shutdown Car");
    assert_eq!(workflow.step_at(0).unwrap().name(), "Release Brakes");
    assert_eq!(workflow.step_at(1).unwrap().name(), "Center Steering");
    assert_eq!(workflow.step_at(2).unwrap().name(), "Stop Engine");
    assert_eq!(workflow.execute(&mut car), Ok(()));
    assert!(!car.brakes.is_applied());
    assert_eq!(car.brakes.get_pressure(), 70);
    assert_eq!(car.steering.get_angle(), 0);
    assert!(!car.engine.is_running());
    assert_eq!(car.engine.get_rpm(), 0);
}

#[test]
fn emergency_stop_of_a_running_car() {
    let mut car = CarSystem::new();
    car.start().unwrap();
    let workflow = CarSystem::create_emergency_stop_workflow();
    assert_eq!(workflow.name(), "Emergency Stop");
    assert_eq!(workflow.description(), "Immediate emergency stop sequence");
    assert_eq!(workflow.execute(&mut car), Ok(()));
    assert!(car.brakes.is_applied());
    assert_eq!(car.brakes.get_pressure(), 100);
    assert!(!car.engine.is_running());
}

#[test]
fn emergency_stop_of_a_still_car_fails_at_the_engine() {
    let mut car = CarSystem::new();
    let workflow = CarSystem::create_emergency_stop_workflow();
    let res = workflow.execute(&mut car);
    assert_eq!(
        res,
        Err("Cannot stop engine: invalid transition from OFF to STOPPING".to_string())
    );
    assert_eq!(car.brakes.get_pressure(), 100);
}

#[test]
fn single_step_runs_its_action() {
    let step = WorkflowStep::new("brake", "light braking", CarAction::ApplyBrakes { pressure: 20 });
    assert_eq!(step.name(), "brake");
    assert_eq!(step.description(), "light braking");
    let mut car = CarSystem::new();
    assert_eq!(step.execute(&mut car), Ok(()));
    assert_eq!(car.brakes.get_pressure(), 20);
    let refuse = WorkflowStep::new("bad", "too much", CarAction::ApplyBrakes { pressure: 101 });
    assert_eq!(refuse.execute(&mut car), Err("Pressure cannot exceed 100%".to_string()));
    assert_eq!(car.brakes.get_pressure(), 20);
}

#[test]
fn builder_keeps_call_order() {
    let mut builder: WorkflowBuilder<CarAction> = WorkflowBuilder::new("w", "d");
    builder
        .step("one", "1", CarAction::Announce)
        .step("two", "2", CarAction::Announce);
    builder.step("three", "3", CarAction::Announce);
    let workflow = builder.build();
    let names: Vec<&str> = (0..workflow.step_count())
        .map(|i| workflow.step_at(i).unwrap().name())
        .collect();
    assert_eq!(names, vec!["one", "two", "three"]);
    assert_eq!(workflow.summary(), "Workflow[w] (3 steps)");
}

#[test]
fn announce_changes_nothing() {
    let step = WorkflowStep::new("say", "hello", CarAction::Announce);
    let mut car = CarSystem::new();
    assert_eq!(step.execute(&mut car), Ok(()));
    assert_eq!(car.dashboard.get_fuel_level(), 100);
    assert_eq!(car.brakes.get_pressure(), 0);
    assert_eq!(car.steering.get_angle(), 0);
    assert!(!car.engine.is_running());
    assert_eq!(car.message_bus.total_pending(), 0);
}
