//! Control of a data-acquisition network of front-end modules and one master trigger module:
//! the module state machine, the message bus between the controller and its envoys, the status
//! bookkeeping of every module, and the multi-module transition protocol.
pub mod codec;
pub mod command;
pub mod config;
pub mod constants;
pub mod ecc_envoy;
pub mod ecc_operation;
pub mod ecc_response;
pub mod embassy;
pub mod error;
pub mod frib_operation;
pub mod message;
pub mod sentry_envoy;
pub mod sentry_types;
pub mod status_manager;
pub mod surveyor_envoy;
pub mod text;
pub mod time_format;
pub mod transition;
