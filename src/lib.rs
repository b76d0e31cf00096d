//! A gateway that puts chat-completion vendors behind one canonical
//! interface: request validation, a registry of adapters, error
//! translation, stream relaying and model-catalog aggregation.

pub mod auth;
pub mod catalog;
pub mod error;
pub mod gateway;
pub mod message;
pub mod normalize;
pub mod openai;
pub mod registry;
pub mod stream;
