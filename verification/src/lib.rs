//! Deterministic control core for a steppable 2D game session.
//!
//! The host engine owns rendering, physics integration and input polling;
//! this crate owns the two pieces of genuine decision logic layered on top:
//!
//! * [`clock`] — a step-clock controller that pauses, resumes and advances a
//!   physics timeline by fixed quanta on edge-triggered key presses;
//! * [`normalize`] — a one-shot coordinate normalizer that moves the camera
//!   and sprite anchors from the engine's centered convention to a
//!   top-left-origin pixel convention.
//!
//! Each frame the host samples its inputs and viewport into plain values,
//! hands them to these modules, and applies the resulting state back.

pub mod clock;
pub mod normalize;
