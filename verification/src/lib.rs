//! Idempotent provisioning of a persistent (Elastic) IP address for the
//! compute instance the program runs on.
//!
//! The crate holds the decision logic of the provisioner: a record type for
//! an allocated address, the rule that decides whether an association call
//! is needed, the jittered startup delay, and the state machine that
//! sequences one full run. The surrounding process performs the cloud calls
//! and the file reads and writes, and feeds their outcomes back into the
//! machine as events.

pub mod eip;
pub mod flags;
pub mod jitter;
pub mod machine;
pub mod model;
