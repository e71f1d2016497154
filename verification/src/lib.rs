//! Build-orchestration logic for collecting chip-specific static libraries
//! and header sets out of an installed embedded SDK.
//!
//! The library computes everything the tool decides: which chips are
//! processed, the environment preconditions of a run, the exact sequence
//! of filesystem and subprocess actions per chip, and the literal text
//! substitutions applied to copied headers. A thin unverified executable
//! interprets the resulting action plan against the real filesystem and
//! the external build tool.

pub mod action;
pub mod chip;
pub mod fsmodel;
pub mod headerplan;
pub mod libplan;
pub mod orchestrate;
pub mod strutil;
pub mod textpatch;
