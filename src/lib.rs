//! Supervision of a local backend server process: one owned child at a
//! time, duplicate detection before spawning, bounded readiness polling of a
//! health endpoint, and cleanup on stop. Every decision is made here; the
//! host performs the process and network work and reports back.

pub mod config;
pub mod endpoint;
pub mod launch;
pub mod navigation;
pub mod readiness;
pub mod supervisor;
