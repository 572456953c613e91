//! Adaptive baseline score evaluator: a per-participant reputation tracker
//! for consensus protocols. It keeps a bounded FIFO window of per-round
//! score vectors, remembers the most recently evicted vector as a reference,
//! derives a fault-tolerance-adjusted baseline threshold each round, and
//! answers trust queries by comparing reference scores against the baseline.

pub mod evaluator;
