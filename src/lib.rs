//! Control and telemetry core of a networked heater controller: an on/off
//! controller with separate minimum dwell times, a last-writer-wins telemetry
//! cell pair, the request/response contract of the operator console, and the
//! decisions of the line-oriented telemetry server.
pub mod console;
pub mod controller;
pub mod protocol;
pub mod telemetry;
