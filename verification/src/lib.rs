//! Verified core of a smart-contract security auditor.
//!
//! The crate turns raw contract source text into a structural model
//! (functions, state variables, modifiers, events, imports, pragmas),
//! runs per-platform heuristic batteries over that model, orchestrates
//! static, dynamic and AI-assisted analysis passes, and normalizes every
//! result into a single finding taxonomy with deterministic scoring.

pub mod text;

pub mod finding;

pub mod errors;

pub mod model;

pub mod parser;

pub mod ids;

pub mod json;

pub mod analyzer;

pub mod ai;

pub mod fuzz;

pub mod poc;

pub mod report;

pub mod plugins;
