//! Decides whether the running process is in "secure execution": started
//! set-user-ID, set-group-ID or, on Linux, with file capabilities.
//!
//! The operating system is asked by the caller; this library holds what is
//! decided from the answer: how each platform's reading maps to a boolean
//! (`probe`), the process-wide tri-state cache in front of the probe
//! (`cache`), and the environment lookups that are suppressed while secure
//! execution is active (`gate`).

pub mod cache;
pub mod gate;
pub mod probe;
