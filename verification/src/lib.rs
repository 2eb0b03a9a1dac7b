//! Session controller for an interactive service-management terminal session.
//!
//! The crate holds the verified core of the tool: the view filter that derives
//! the visible subset of services, the selection cursor with its clamping and
//! wraparound rules, the log-tail state with pausable auto-scroll, the timing
//! coordinator with its two cadences, and the session state machine that
//! dispatches operator input. The service directory (which runs the actual
//! control commands) and the renderer live outside the crate and talk to the
//! controller through plain values.

pub mod cursor;
pub mod directory;
pub mod logs;
pub mod model;
pub mod session;
pub mod timing;
pub mod view;
