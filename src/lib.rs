//! Object-storage command-line client: the decisions behind its commands.
//!
//! - `multipart`: the multipart-upload orchestrator, a state machine that
//!   tells its driver which remote call to make next and takes in the
//!   outcome of each call.
//! - `trace`: runs of the orchestrator over sequences of outcomes, and the
//!   laws that hold of every run.
//! - `line`: reading operator input lines and recognising the `END` sentinel.
//! - `region`: the location constraint of a new bucket.
pub mod line;
pub mod multipart;
pub mod region;
pub mod trace;
