//! The rules of the benchmark harness that need no outside world: task
//! definitions, task filters, tool requirements, and the reading of tool
//! output.

pub mod annotation_scorer;
pub mod code_extractor;
pub mod compiler;
pub mod config;
pub mod corpus;
pub mod evaluator;
pub mod harness;
pub mod linter_adapter;
pub mod runner;
pub mod scorer;
pub mod task;
pub mod toolchain;
pub mod test_runner;
