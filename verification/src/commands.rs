//! The typed model of what scooters send, and the decoders that build it.

pub mod alarm_command;
pub mod beep_command;
pub mod hearbeat_command;
pub mod scooter_setting_command;
pub mod parser;
pub mod positioning_command;
pub mod scooter_command;
pub mod unlock_flow;
