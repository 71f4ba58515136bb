//! Verified core of a small serial-port utility: validation of baud and
//! timeout arguments, port-transport classification and report formatting,
//! and the decision logic of the port-watch read loop.
pub mod decimal;
pub mod ports;
pub mod validate;
pub mod watch;
