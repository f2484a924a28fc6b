//! A passive introspection engine built on timing observation and
//! differential dual-timeline execution.
//!
//! The engine infers what a target context holds by measuring how long
//! accesses take rather than by asking the platform, echoes the
//! reconstructed capability bits into an isolated shadow snapshot, runs
//! duplicated operations on two isolated timelines and diffs their
//! results, and reports gaps between a system's declared state and the
//! state that was directly measured. No operation signals failure: a
//! degraded measurement lowers a confidence score instead of raising an
//! error.

pub mod arena;
pub mod belief;
pub mod capability;
pub mod cells;
pub mod context;
pub mod distance;
pub mod evidence;
pub mod fingerprint;
pub mod operation;
pub mod probe;
pub mod timeline;
pub mod timing;

pub use arena::SnapshotArena;
pub use belief::{BeliefDetector, BeliefInconsistency, Primitive, RealityGapAnalyzer,
    SystemMindReader};
pub use capability::{CapabilityEcho, CapabilitySet};
pub use context::{ProbeFault, QuantumContext};
pub use evidence::QuantumEvidence;
pub use fingerprint::{collect_fingerprint, hash_behavior, BehavioralFingerprint};
pub use operation::Operation;
pub use probe::{CacheProbe, ExecutionContext};
pub use timeline::{race, ParadoxRecord, TemporalShadow, Timeline};
pub use timing::TimingSource;
