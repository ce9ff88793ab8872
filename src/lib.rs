//! Test-suite compiler for kernel-scheduler integration tests, together with
//! the decision logic of the processes and virtual machines that run them, and
//! the settings model of the `scxtop` monitor.

pub mod builder;
pub mod codegen;
pub mod config;
pub mod lifecycle;
pub mod suite;
pub mod topology;
pub mod vm;
