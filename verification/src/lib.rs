pub mod builders;
pub mod config;
pub mod execution;
pub mod features;
pub mod graphs;
pub mod instructions;
pub mod laws;
pub mod llvm;
pub mod runtime;
