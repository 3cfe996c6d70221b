//! Core state machine of a real-time instanced 3D renderer.
//!
//! The renderer itself lives at the GPU boundary; this crate holds the
//! decisions that drive it: the camera controller's held-key state, the
//! instance grid layout, material resolution for loaded models, surface
//! (re)configuration, the per-frame draw plan, and the classification of
//! surface failures into recoverable, fatal and transient outcomes.

pub mod controller;
pub mod instances;
pub mod model;
pub mod state;
