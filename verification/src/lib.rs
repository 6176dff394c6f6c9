//! MarketShield: competitive-position monitoring and a governed response
//! workflow for a life and investments insurer.
//!
//! This crate holds the rules of the service: the approval chain a response
//! must pass, what makes a decision or a competitor observation admissible,
//! which response templates apply to which product line and how their stress
//! tests settle a recommendation, the point-in-time view of the observation
//! history, the monitor's escalation rules, the command-line options of the
//! scheduled check, and the escaping used by the reports.

pub mod error;
pub mod approvals;
pub mod case_records;
pub mod cli;
pub mod comparison;
pub mod decisions;
pub mod models;
pub mod monitor;
pub mod observations;
pub mod orchestrator;
pub mod requests;
pub mod scenario;
mod ids;
pub mod text;
