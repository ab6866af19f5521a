//! Resolution logic for a focused-window macro dispatcher.
//!
//! A small launcher maps a caller-supplied macro identifier to a shell script
//! stored next to the running program.  Which script wins depends on the
//! executable that owns the currently focused window: an application-specific
//! script under `by-exe/<executable>/<id>.sh` takes priority, and
//! `default/<id>.sh` is the universal fallback.  This crate holds the verified
//! core of that launcher: interpreting the window utility's output, building
//! the candidate paths, planning which script to launch from the observed
//! filesystem state, and rendering the diagnostics reported when every
//! candidate fails.  The unverified binary around it performs the process,
//! filesystem and exec calls and feeds their outcomes to these functions as
//! plain values.

pub mod diag;
pub mod paths;
pub mod plan;
pub mod text;
pub mod window;
