//! Kernel mode-setting decisions: pairing connected outputs with display
//! controllers, negotiating a scan-out buffer step by step with guaranteed
//! rollback, and painting the animation frames.
//!
//! Every function here works on plain values. The caller owns the device,
//! performs each kernel request the library asks for, and hands the outcome
//! back.

pub mod kms;
pub mod mode;
pub mod orchestrator;
pub mod provision;
pub mod render;
pub mod session;
