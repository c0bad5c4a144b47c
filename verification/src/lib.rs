//! Asset readiness and scene activation for a cycle-stepped host.
//!
//! A host requests assets, reports their decode results, and steps the
//! readiness state once per cycle. On the single `Loading -> Loaded` edge the
//! scene is activated; from then on animated objects are bound to their clip
//! once each, and tagged objects are sampled for the telemetry overlay.

pub mod activation;
pub mod animation;
pub mod collection;
pub mod cycle;
pub mod error;
pub mod laws;
pub mod object;
pub mod overlay;
pub mod registry;
pub mod state;
pub mod tracker;

pub use crate::state::AssetLoadingState;
