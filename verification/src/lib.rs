//! Userspace controller logic for a kernel-level network-identity
//! observability agent.
//!
//! The controller loads a precompiled kernel tracing image, extracts two
//! kernel-maintained event maps, pins them to durable filesystem paths,
//! attaches lifecycle probes and a traffic-control classifier, and drains
//! per-CPU event buffers until an interrupt arrives.  This crate holds the
//! decision logic of that lifecycle — which resources are required, in which
//! order phases run, which failures are fatal, how the link table and the
//! drain loops evolve — verified over an explicit model of the kernel-side
//! state.  The unverifiable edge (BPF syscalls, the async runtime, signal
//! handling) lives outside the library and drives these functions.

pub mod errors;
pub mod image;
pub mod pinner;
pub mod links;
pub mod attach;
pub mod drain;
pub mod shutdown;
pub mod controller;
