//! Deterministic core of the daily-digest inbox orchestrator.

pub mod llm;
pub mod text;
pub mod types;
pub mod classify;
pub mod enrich;
pub mod report;
pub mod discord;
pub mod policy;
pub mod util;
pub mod run;
pub mod api;
pub mod git;
pub mod execute;
