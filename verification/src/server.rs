//! What the gateway sends and expects back: outbound frames, the validator
//! of responses, the session registry and the operator workflows.

pub mod command_enums;
pub mod commands;
pub mod protocol;
pub mod handler;
pub mod registry;
pub mod workflow;
pub mod change_gear_handler;
pub mod change_headlight_handler;
pub mod lock_handler;
pub mod toggle_headlight_handler;
pub mod unlock_handler;
