//! Rules of a treadmill bridge, with their proofs.
//!
//! The bridge follows a treadmill's hardware controller and serves what it
//! learns as a Bluetooth Fitness Machine Service; a sibling daemon follows
//! a heart-rate monitor. This library holds what the daemons decide and
//! compute: the binary codec of the service (`protocol`), the control-point
//! engine (`ftms_service`), the table of characteristics (`gatt`), the
//! backend state client (`treadmill`), the debug console's text forms
//! (`debug_server`), and the monitor daemon's rules (`hrm`). It performs
//! no I/O: the daemons hand it plain values and carry out what it plans.
//!
//! Calls into `serde_json`, `uuid` and `bluer`, and two of the standard
//! library's text functions, stand behind small functions whose contracts
//! are believed rather than proved; each says so.

pub mod debug_server;
pub mod ftms_service;
pub mod gatt;
pub mod hrm;
pub mod json;
pub mod protocol;
pub mod text;
pub mod treadmill;
