//! Verified core logic of the Verbatim screen reader: per-window backend
//! arbitration, the supervisor's outpost policies, the speech pipeline's
//! settings, registry and priority lanes, the synthesizer drivers' pure parts,
//! and the text handling of the VM harness.

pub mod arbitration;
pub mod clock;
pub mod harness;
pub mod launch;
pub mod protocol;
pub mod query_pool;
pub mod runtime;
pub mod speech;
pub mod supervisor;
pub mod synth;
pub mod text;
pub mod uia;
