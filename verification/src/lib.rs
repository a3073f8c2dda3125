//! Capture core of an unattended two-microphone acquisition node: device
//! health codes, block liveness, the block relay, the rotating recording
//! writer and the per-device capture state machine.

pub mod capture;
pub mod health;
pub mod liveness;
pub mod power;
pub mod relay;
pub mod serial;
pub mod settings;
pub mod text;
pub mod window;
pub mod writer;
