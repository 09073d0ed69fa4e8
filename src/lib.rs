//! Verified core of a desktop front end that drives an external
//! photo-restoration worker: progress-line classification, the
//! per-run state machine, worker argument construction and the choice
//! of the final artifact.
pub mod latest;
pub mod layout;
pub mod run;
pub mod stage;
