//! Benchmark targets and the locations of their reports.

use std::path::PathBuf;
use vstd::prelude::*;

verus! {

#[verifier::external_type_specification]
#[verifier::external_body]
pub struct ExPathBuf(std::path::PathBuf);

/// Benchmark of schema compatibility checking.
#[derive(Debug, Clone, Copy, PartialEq, Eq, Structural)]
pub struct CompatibilityBenchmark;

/// Benchmark of schema storage operations.
#[derive(Debug, Clone, Copy, PartialEq, Eq, Structural)]
pub struct StorageBenchmark;

/// Benchmark of schema validation across formats.
#[derive(Debug, Clone, Copy, PartialEq, Eq, Structural)]
pub struct ValidationBenchmark;

impl CompatibilityBenchmark {
    pub fn new() -> (r: Self)
        ensures
            r == CompatibilityBenchmark,
    {
        CompatibilityBenchmark
    }

    /// The target's identifier.
    pub fn id(&self) -> (r: &'static str)
        ensures
            r@ == "compatibility_operations"@,
    {
        "compatibility_operations"
    }

    /// What the target measures.
    pub fn description(&self) -> (r: &'static str)
        ensures
            r@ == "Benchmarks for schema compatibility checking (backward, forward, full, transitive)"@,
    {
        "Benchmarks for schema compatibility checking (backward, forward, full, transitive)"
    }
}

impl Default for CompatibilityBenchmark {
    fn default() -> (r: Self)
        ensures
            r == CompatibilityBenchmark,
    {
        CompatibilityBenchmark::new()
    }
}

impl StorageBenchmark {
    pub fn new() -> (r: Self)
        ensures
            r == StorageBenchmark,
    {
        StorageBenchmark
    }

    /// The target's identifier.
    pub fn id(&self) -> (r: &'static str)
        ensures
            r@ == "storage_operations"@,
    {
        "storage_operations"
    }

    /// What the target measures.
    pub fn description(&self) -> (r: &'static str)
        ensures
            r@ == "Benchmarks for schema storage operations (read, write, update)"@,
    {
        "Benchmarks for schema storage operations (read, write, update)"
    }
}

impl Default for StorageBenchmark {
    fn default() -> (r: Self)
        ensures
            r == StorageBenchmark,
    {
        StorageBenchmark::new()
    }
}

impl ValidationBenchmark {
    pub fn new() -> (r: Self)
        ensures
            r == ValidationBenchmark,
    {
        ValidationBenchmark
    }

    /// The target's identifier.
    pub fn id(&self) -> (r: &'static str)
        ensures
            r@ == "validation_operations"@,
    {
        "validation_operations"
    }

    /// What the target measures.
    pub fn description(&self) -> (r: &'static str)
        ensures
            r@ == "Benchmarks for schema validation across different formats (JSON, Avro, Protobuf)"@,
    {
        "Benchmarks for schema validation across different formats (JSON, Avro, Protobuf)"
    }
}

impl Default for ValidationBenchmark {
    fn default() -> (r: Self)
        ensures
            r == ValidationBenchmark,
    {
        ValidationBenchmark::new()
    }
}

/// Relies on `PathBuf::from` for a `&str`: the path made of that text.
#[verifier::external_body]
fn path_from(text: &str) -> PathBuf {
    PathBuf::from(text)
}

/// Relies on `Path::join`: `base` with `part` appended as one more component.
#[verifier::external_body]
fn path_join(base: &PathBuf, part: &str) -> PathBuf {
    base.join(part)
}

/// Where reports are written: `benchmarks/output`.
pub fn default_output_dir() -> PathBuf {
    path_from("benchmarks/output")
}

/// Where raw results are written: `raw` under the output directory.
pub fn raw_results_dir() -> PathBuf {
    path_join(&default_output_dir(), "raw")
}

/// A command of the benchmark tool.
#[derive(Debug, Clone, PartialEq, Eq)]
pub enum BenchmarkCommand {
    /// Run all benchmarks and write reports under `output_dir`, unless
    /// `dry_run` is set.
    Run { output_dir: String, dry_run: bool },
    /// List the benchmark targets.
    List,
}

} // verus!
