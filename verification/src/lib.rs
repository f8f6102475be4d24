//! Network-facing runtime of a game-server process, modelled as verified
//! state machines: a per-connection session loop, the service accept/tick
//! loop, the one concrete wire format the session touches, and the logging
//! configuration rules.

pub mod auth_session;
pub mod banner;
pub mod level;
pub mod log_configuration;
pub mod log_console;
pub mod log_mgr;
pub mod log_util;
pub mod net;
pub mod packet;
pub mod service;
pub mod text;
