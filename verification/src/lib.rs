//! Supervision core for an external FPGA programming tool: option tables,
//! output-line monitoring, DNA artifact parsing and status reconciliation.

pub mod cleanup;
pub mod decimal;
pub mod dna;
pub mod file_checker;
pub mod firmware;
pub mod firmware_discovery;
pub mod flow;
pub mod hex;
pub mod logger;
pub mod manager;
pub mod monitor;
pub mod outcome;
pub mod process;
pub mod progress;
pub mod reshaper;
pub mod text;
pub mod types;
