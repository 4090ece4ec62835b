//! Core of an interactive 2D pan-and-zoom visualization: the camera state
//! model, its keyboard-driven controller, and the fixed-layout snapshot that
//! is uploaded to the renderer each frame.
//!
//! All scalar state is kept in signed 64-bit fixed point (micro-units, see
//! [`fx`]), so that every state transition has an exact contract.

pub mod camera;
pub mod frame;
pub mod fx;
