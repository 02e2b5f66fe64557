//! A small service that hands prompts to a language model through a
//! message broker: an HTTP front end publishes each prompt as a job and
//! waits for the reply on its own queue; a model handler takes the jobs,
//! asks the model server, and publishes the answers back.
//!
//! This crate holds what the processes decide, as plain values with
//! contracts: the settings they read, the queues they declare and consume,
//! the messages they publish and their JSON bodies, the table of requests
//! waiting for replies, and the handling of each job.

pub mod amqp;
pub mod connection;
pub mod frontend;
pub mod job;
pub mod json;
pub mod message;
pub mod number;
pub mod ollama;
pub mod pending;
pub mod producer;
pub mod service;
pub mod text;

pub use amqp::EXCHANGE;
pub use connection::{ConfigError, ConnectionConfig};
pub use message::{RequestMessage, ResponseMessage};
