//! The logic of a small command bridge: it decides whether an interpreter may be
//! launched on a script, and turns what the launched process reported (exit
//! status, captured standard output and standard error) into a result for the
//! caller. Launching the process and looking at the filesystem are left to the
//! host application, which hands the observations in as plain values.

pub mod outside;
pub mod bridge;
