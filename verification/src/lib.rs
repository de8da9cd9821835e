//! Restart-safe shared-memory channels: the decisions that a sender and a
//! receiver make around an iceoryx2 service and wincode-serialized messages.
//!
//! The library never touches shared memory, threads or the clock. It says what
//! has to be done next, takes back how that went, and says what comes after.
//! The names that a service may carry are checked by iceoryx2, and messages
//! for asynchronous consumers are handed to a tokio channel.

pub mod bridge;
pub mod channel;
pub mod config;
pub mod counters;
pub mod demo;
pub mod node;
pub mod polling;
pub mod receiver;
pub mod sender;
pub mod service;
pub mod text;

pub use crate::bridge::Bridge;
pub use crate::config::{IpcConfig, ServiceQos};
pub use crate::receiver::IpcReceiver;
pub use crate::sender::IpcSender;
