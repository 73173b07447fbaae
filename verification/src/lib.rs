//! An in-process task scheduling engine: a registry of reusable task
//! factories, each of which can be instantiated repeatedly under a timing
//! policy (immediate, delayed, at an absolute time, or recurring), with
//! per-instance cancellation and a bounded result channel back to the caller.

pub mod cfg;
pub mod scheduler;
