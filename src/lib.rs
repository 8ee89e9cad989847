//! Bridge between EG4/LXP solar inverters and downstream observers: the frame codec,
//! the command engine, the reply matcher, the register cache, the input snapshot store,
//! the coordinator's dispatch rules, the poll scheduler, the session decisions and the
//! MQTT command router.
pub mod cache;
pub mod codec;
pub mod commands;
pub mod config;
pub mod coordinator;
pub mod influx;
pub mod inputs;
pub mod matcher;
pub mod packet;
pub mod router;
pub mod scheduler;
pub mod serial;
pub mod serial_map;
pub mod session;
pub mod stats;
pub mod text;

pub use serial::Serial;
