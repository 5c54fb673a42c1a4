//! Gesture tracking and delayed-action dispatch engine.
//!
//! The library maps discrete touchpad gesture notifications (swipe, pinch,
//! hold) to shell command strings taken from user-configured bindings,
//! substituting live gesture deltas into command templates.  It is organised
//! as a pure state machine: callers feed it decoded input events and perform
//! the dispatch and timer effects it returns.  Motion quantities (deltas,
//! angles, scale ratios) are carried in thousandths, so `1500` stands for
//! one and a half units.

pub mod event_handler;
pub mod exec_handler;
pub mod gestures;
pub mod utils;
