//! Verified core of a small double-buffered GPU painting pipeline.
//!
//! The crate models the CPU-side orchestration of three fixed GPU stages:
//! a canvas stage that composites interactive brush strokes into a
//! persistent texture, a propagation stage that approximates light
//! transport from the drawn strokes by ray marching, and an optional
//! compute-based multi-step refinement of the propagated result.
//!
//! Every stage reads from and writes to a pair of same-sized images whose
//! roles alternate each pass ("ping-pong"), so a pass never reads the
//! texture it is writing.  Pipelines compile asynchronously, so a stage may
//! only run once its pipeline is ready and must be skipped, without
//! touching any buffer roles, while compilation is pending or after it has
//! failed.
//!
//! The host (window system, GPU device, asset loader) stays outside this
//! crate.  Each frame the host hands in a plain input record and receives
//! back the exact list of GPU submissions to perform; all decisions about
//! sources, destinations, parameters and role flips are made, and proved
//! correct, here.

pub mod buffers;
pub mod orchestrator;
pub mod passes;
pub mod readiness;
pub mod registry;
pub mod snapshot;
