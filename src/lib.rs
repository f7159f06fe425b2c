//! Declarative profiles for remote filesystems mounted over SSH: the profile
//! model and its validation, the locations the tool keeps its state in, and
//! the reconciliation of stored profiles against what is currently mounted.
pub mod cli;
pub mod model;
pub mod model_sys;
pub mod state;
