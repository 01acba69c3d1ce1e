//! Verified conversions between SDL2 events and their raw C representation.

pub mod controller;
pub mod custom;
pub mod event;
pub mod event_type;
pub mod joystick;
pub mod keyboard;
pub mod mouse;
pub mod raw;
pub mod subsystem;
pub mod text;
pub mod window;
