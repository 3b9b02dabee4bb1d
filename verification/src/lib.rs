//! Version bookkeeping for projects that pin exact dependency versions in a
//! flat text file: a totally ordered version model, a matcher for range
//! constraints, and the extraction of release sections from changelogs.

pub mod buildout;
pub mod changelog;
pub mod cli;
pub mod config;
pub mod consolidated;
pub mod constraint;
pub mod error;
pub mod git;
pub mod laws;
pub mod manager;
pub mod metadata;
pub mod number;
pub mod precedence;
pub mod pypi;
pub mod python;
pub mod release;
pub mod sources;
pub mod text;
pub mod version;
