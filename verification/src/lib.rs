//! Verified core of the overclocking and system tweak tool: the catalogue of
//! tweaks, the options each one offers, and the decisions that read, apply and
//! revert them. Reading and writing the machine itself happens outside this
//! crate; the functions here compute what to read or write and what the
//! observations mean.
pub mod errors;
pub mod orchestrator;
pub mod indexed;
pub mod power;
pub mod session;
pub mod text;
pub mod tweaks;
