//! Startup core of a single-instance desktop shell.
//!
//! The library models and verifies the process-lifecycle logic of the shell:
//! single-instance arbitration (exactly one primary process per application
//! identity), forwarding of activation payloads from secondary launches,
//! show/focus coordination for the one window labeled "main", the
//! build-mode-gated debug tooling, and the named command bridge reachable
//! from the frontend. The windowing engine, the capability plugins and all
//! I/O live outside the library; they exchange plain values with it.

pub mod bootstrap;
pub mod bridge;
pub mod instance;
pub mod mode;
pub mod text;
pub mod window;
