//! Core logic of a desktop front end for bench multimeters and laboratory power supplies.

pub mod command_laws;
pub mod conversation_laws;
pub mod device_plugin;
pub mod display_laws;
pub mod double;
pub mod exact;
pub mod helpers;
pub mod identity_laws;
pub mod match_laws;
pub mod multimeter;
pub mod number;
pub mod plugins;
pub mod range_laws;
pub mod range_names;
pub mod ranges;
pub mod replies;
pub mod reply_laws;
pub mod serial;
pub mod serial_laws;
pub mod session;
pub mod session_laws;
pub mod settings;
pub mod table_laws;
pub mod tables;
pub mod text;
