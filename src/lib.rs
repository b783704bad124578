//! Turns note events from a musical keyboard into one bounded intensity
//! level, and plans the commands that carry it to haptic devices.

pub mod notes;
pub mod dispatch;
pub mod discovery;
pub mod ports;
