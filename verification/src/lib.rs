//! Deterministic adaptive-effort routing for codexdd Workers: the capability
//! ladder, outcome classification, the controller reduction, complexity and
//! budget floors, typed evidence, Worker authority, trusted runtime signals,
//! exactly-once successor admission, and the per-thread adaptive lifecycle,
//! each with its contract.
pub mod admission;
pub mod assignment;
pub mod bridge;
pub mod budget;
pub mod build_identity;
pub mod chat;
pub mod classification;
pub mod commands;
pub mod complexity;
pub mod controller;
pub mod effort;
pub mod evidence;
pub mod ingest;
pub mod lines;
pub mod policy;
pub mod refs;
pub mod session;
pub mod signal_handler;
pub mod text;
pub mod thread_text;
pub mod transport;
pub mod trusted;
pub mod worker;
