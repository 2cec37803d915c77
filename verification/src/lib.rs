//! Verified core of the SparkOS watchdog and MCP debugger: the audit
//! verdicts, the watchdog's failure bookkeeping, the MCP request routing and
//! response framing, the incident records and the one-shot check report.

pub mod text;
pub mod outside;
pub mod json;
pub mod audit;
pub mod watchdog;
pub mod mcp;
pub mod reporter;
pub mod cli;
