use car_system::message_bus::MessageBus;
use car_system::messages::{CarMessage, ComponentId};

fn rpm(n: u32) -> CarMessage {
    CarMessage::EngineRpmChange { rpm: n }
}

#[test]
fn new_bus_is_empty() {
    let bus = MessageBus::new();
    assert_eq!(bus.total_pending(), 0);
    assert!(!bus.has_messages(ComponentId::Dashboard));
    assert_eq!(bus.pending_count(ComponentId::Dashboard), 0);
}

#[test]
fn broadcast_reaches_every_subscriber_but_the_publisher() {
    let mut bus = MessageBus::new();
    bus.register_component(ComponentId::Engine);
    bus.register_component(ComponentId::Brakes);
    bus.register_component(ComponentId::Dashboard);
    bus.register_component(ComponentId::Steering);
    bus.subscribe_all(ComponentId::Engine);
    bus.subscribe_all(ComponentId::Brakes);
    bus.subscribe_all(ComponentId::Dashboard);

    bus.publish(ComponentId::Engine, rpm(800));

    assert_eq!(bus.pending_count(ComponentId::Engine), 0);
    assert_eq!(bus.pending_count(ComponentId::Brakes), 1);
    assert_eq!(bus.pending_count(ComponentId::Dashboard), 1);
    // registered, not subscribed
    assert_eq!(bus.pending_count(ComponentId::Steering), 0);
    // neither registered nor subscribed
    assert_eq!(bus.pending_count(ComponentId::CarSystem), 0);
    assert_eq!(bus.total_pending(), 2);
    assert_eq!(bus.receive(ComponentId::Brakes), Some(rpm(800)));
    assert_eq!(bus.receive(ComponentId::Dashboard), Some(rpm(800)));
}

#[test]
fn publisher_outside_the_subscribers_reaches_all_of_them() {
    let mut bus = MessageBus::new();
    bus.register_component(ComponentId::Brakes);
    bus.register_component(ComponentId::Dashboard);
    bus.subscribe_all(ComponentId::Brakes);
    bus.subscribe_all(ComponentId::Dashboard);
    bus.publish(ComponentId::CarSystem, CarMessage::EngineStart);
    assert_eq!(bus.receive_all(ComponentId::Brakes), vec![CarMessage::EngineStart]);
    assert_eq!(bus.receive_all(ComponentId::Dashboard), vec![CarMessage::EngineStart]);
}

#[test]
fn publishes_keep_their_order() {
    let mut bus = MessageBus::new();
    bus.register_component(ComponentId::Dashboard);
    bus.subscribe_all(ComponentId::Dashboard);
    bus.publish(ComponentId::Engine, rpm(1));
    bus.publish(ComponentId::Brakes, CarMessage::BrakePressureChange { pressure: 50 });
    bus.publish(ComponentId::Engine, rpm(2));
    bus.publish(ComponentId::Dashboard, rpm(99));
    bus.publish(ComponentId::Steering, CarMessage::SteeringTurn { angle: -30 });
    assert_eq!(bus.pending_count(ComponentId::Dashboard), 4);
    assert_eq!(
        bus.receive_all(ComponentId::Dashboard),
        vec![
            rpm(1),
            CarMessage::BrakePressureChange { pressure: 50 },
            rpm(2),
            CarMessage::SteeringTurn { angle: -30 },
        ]
    );
    assert_eq!(bus.pending_count(ComponentId::Dashboard), 0);
    assert!(bus.receive_all(ComponentId::Dashboard).is_empty());
}

#[test]
fn subscriber_never_receives_its_own_event() {
    let mut bus = MessageBus::new();
    bus.register_component(ComponentId::Dashboard);
    bus.subscribe_all(ComponentId::Dashboard);
    bus.publish(ComponentId::Dashboard, CarMessage::SpeedUpdate { km_h: 10 });
    bus.publish(ComponentId::Dashboard, CarMessage::SpeedUpdate { km_h: 20 });
    assert!(!bus.has_messages(ComponentId::Dashboard));
    assert_eq!(bus.receive(ComponentId::Dashboard), None);
    assert_eq!(bus.total_pending(), 0);
}

#[test]
fn registering_twice_keeps_the_queue_and_its_events() {
    let mut bus = MessageBus::new();
    bus.register_component(ComponentId::Dashboard);
    bus.subscribe_all(ComponentId::Dashboard);
    bus.publish(ComponentId::Engine, rpm(7));
    bus.register_component(ComponentId::Dashboard);
    assert_eq!(bus.pending_count(ComponentId::Dashboard), 1);
    assert_eq!(bus.total_pending(), 1);
    bus.publish(ComponentId::Engine, rpm(8));
    assert_eq!(bus.receive_all(ComponentId::Dashboard), vec![rpm(7), rpm(8)]);
}

#[test]
fn publish_without_subscribers_changes_nothing() {
    let mut bus = MessageBus::new();
    bus.register_component(ComponentId::Engine);
    bus.register_component(ComponentId::Dashboard);
    bus.publish(ComponentId::Engine, CarMessage::EngineStop);
    assert_eq!(bus.total_pending(), 0);
}

#[test]
fn subscriber_without_a_queue_receives_nothing() {
    let mut bus = MessageBus::new();
    bus.subscribe_all(ComponentId::Brakes);
    bus.publish(ComponentId::Engine, CarMessage::EngineStart);
    assert_eq!(bus.pending_count(ComponentId::Brakes), 0);
    assert!(!bus.has_messages(ComponentId::Brakes));
    assert_eq!(bus.receive(ComponentId::Brakes), None);
    assert!(bus.receive_all(ComponentId::Brakes).is_empty());
    bus.clear(ComponentId::Brakes);
    assert_eq!(bus.total_pending(), 0);
    // a queue made later starts empty
    bus.register_component(ComponentId::Brakes);
    assert_eq!(bus.pending_count(ComponentId::Brakes), 0);
    bus.publish(ComponentId::Engine, CarMessage::EngineStop);
    assert_eq!(bus.receive(ComponentId::Brakes), Some(CarMessage::EngineStop));
}

#[test]
fn receive_takes_the_oldest_first() {
    let mut bus = MessageBus::new();
    bus.register_component(ComponentId::Dashboard);
    bus.subscribe_all(ComponentId::Dashboard);
    bus.publish(ComponentId::Engine, rpm(1));
    bus.publish(ComponentId::Engine, rpm(2));
    bus.publish(ComponentId::Engine, rpm(3));
    assert_eq!(bus.receive(ComponentId::Dashboard), Some(rpm(1)));
    assert_eq!(bus.pending_count(ComponentId::Dashboard), 2);
    assert_eq!(bus.receive(ComponentId::Dashboard), Some(rpm(2)));
    assert_eq!(bus.receive(ComponentId::Dashboard), Some(rpm(3)));
    assert_eq!(bus.receive(ComponentId::Dashboard), None);
}

#[test]
fn clear_empties_one_queue_only() {
    let mut bus = MessageBus::new();
    bus.register_component(ComponentId::Dashboard);
    bus.register_component(ComponentId::Brakes);
    bus.subscribe_all(ComponentId::Dashboard);
    bus.subscribe_all(ComponentId::Brakes);
    bus.publish(ComponentId::Engine, rpm(1));
    bus.publish(ComponentId::Engine, rpm(2));
    bus.clear(ComponentId::Dashboard);
    assert_eq!(bus.pending_count(ComponentId::Dashboard), 0);
    assert_eq!(bus.pending_count(ComponentId::Brakes), 2);
    assert_eq!(bus.total_pending(), 2);
}

#[test]
fn publish_all_appends_in_order() {
    let mut bus = MessageBus::new();
    bus.register_component(ComponentId::Dashboard);
    bus.register_component(ComponentId::Engine);
    bus.subscribe_all(ComponentId::Dashboard);
    bus.subscribe_all(ComponentId::Engine);
    let events = vec![rpm(1), rpm(2), CarMessage::EngineStop];
    bus.publish_all(ComponentId::Engine, &events);
    assert_eq!(bus.receive_all(ComponentId::Dashboard), events);
    assert_eq!(bus.pending_count(ComponentId::Engine), 0);
}

#[test]
fn copies_carry_their_text() {
    let mut bus = MessageBus::new();
    bus.register_component(ComponentId::Dashboard);
    bus.register_component(ComponentId::CarSystem);
    bus.subscribe_all(ComponentId::Dashboard);
    bus.subscribe_all(ComponentId::CarSystem);
    let fault = CarMessage::ComponentError {
        component: "Engine".to_string(),
        error: "oil pressure".to_string(),
    };
    bus.publish(ComponentId::Engine, fault.clone());
    assert_eq!(bus.receive(ComponentId::Dashboard), Some(fault.clone()));
    assert_eq!(bus.receive(ComponentId::CarSystem), Some(fault));
}

#[test]
fn default_bus_is_empty() {
    let mut bus = MessageBus::default();
    assert_eq!(bus.total_pending(), 0);
    bus.publish(ComponentId::Engine, CarMessage::EngineStart);
    assert_eq!(bus.total_pending(), 0);
}
