//! Per-output rendering and transition engine of a wallpaper daemon.
//!
//! The crate holds the decisions of the engine: transition timing, the
//! per-output surface state machine, the shared caches of compiled transition
//! programs and pooled textures, and the rules that pick what is drawn on a
//! tick. GPU objects are opaque to it: the caches and the surface state are
//! generic over the handle types, so the code that talks to the device owns
//! what is behind a handle and this crate owns when a handle is kept, handed
//! out or dropped.
//!
//! Time is a count of microseconds on a monotonic clock chosen by the caller.
//!
//! The engine proper:
//!
//! - [`timing`]: progress as a fraction, and the anchor of a transition;
//! - [`renderer`]: the state of one output and the rules of a tick;
//! - [`program_cache`], [`texture_pool`], [`resource_pool`]: what all outputs share;
//! - [`driver`]: rules of the loop around the outputs;
//! - [`guarantees`]: what holds across calls.
//!
//! What the engine is fed with:
//!
//! - [`transition`], [`shaders`], [`glsl`]: the effects, their sources and how they are compiled;
//! - [`config`]: the settings of an output;
//! - [`content`], [`queue`], [`schedule`]: what is shown, in which order, and for how long;
//! - [`geometry`]: sizes and what follows from them;
//! - [`metrics`], [`protocol`]: what is reported, and what is said over the control socket;
//! - [`patterns`]: the regular expressions that configuration and sources are read with.

mod chance;
pub mod config;
pub mod content;
pub mod driver;
pub mod geometry;
pub mod glsl;
pub mod guarantees;
pub mod metrics;
pub mod patterns;
pub mod program_cache;
pub mod protocol;
pub mod queue;
pub mod renderer;
pub mod resource_pool;
pub mod schedule;
pub mod shaders;
mod text;
pub mod texture_pool;
pub mod timing;
pub mod transition;
