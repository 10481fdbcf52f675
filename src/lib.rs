pub mod alert;
pub mod channel;
pub mod error;
pub mod escalation;
pub mod events;
pub mod group;
pub mod ids;
pub mod noise;
pub mod ports;
pub mod queue;
pub mod router;
pub mod schedule;
pub mod service;
pub mod text;
pub mod user;
pub mod worker;
