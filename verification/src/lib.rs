//! A simulated real-time control framework for a small vehicle: a typed
//! publish/subscribe event bus, validated state machines, a fixed-tick
//! scheduler, a rule-based safety monitor and a sequential workflow engine,
//! together with the four domain components they coordinate, and a
//! structured log with levels.

pub mod text;
pub mod messages;
pub mod component;
pub mod brakes;
pub mod steering;
pub mod engine;
pub mod dashboard;
pub mod state_machine;
pub mod message_bus;
pub mod safety;
pub mod workflow;
pub mod event_loop;
pub mod system;
pub mod drive;
pub mod logging;
