use schema_registry_core::{
    default_output_dir, raw_results_dir, BenchmarkCommand, CompatibilityBenchmark,
    StorageBenchmark, ValidationBenchmark,
};
use std::path::PathBuf;

#[test]
fn test_compatibility_benchmark_new() {
    let bench = CompatibilityBenchmark::new();
    assert_eq!(bench.id(), "compatibility_operations");
}

#[test]
fn test_compatibility_benchmark_default() {
    let bench = CompatibilityBenchmark::default();
    assert_eq!(bench.id(), "compatibility_operations");
}

#[test]
fn test_compatibility_benchmark_description() {
    let bench = CompatibilityBenchmark::new();
    assert!(!bench.description().is_empty());
    assert!(bench.description().contains("compatibility"));
}

#[test]
fn test_storage_benchmark_new() {
    let bench = StorageBenchmark::new();
    assert_eq!(bench.id(), "storage_operations");
}

#[test]
fn test_storage_benchmark_default() {
    let bench = StorageBenchmark::default();
    assert_eq!(bench.id(), "storage_operations");
}

#[test]
fn test_storage_benchmark_description() {
    let bench = StorageBenchmark::new();
    assert!(!bench.description().is_empty());
    assert!(bench.description().contains("storage"));
}

#[test]
fn test_validation_benchmark_new() {
    let bench = ValidationBenchmark::new();
    assert_eq!(bench.id(), "validation_operations");
}

#[test]
fn test_validation_benchmark_default() {
    let bench = ValidationBenchmark::default();
    assert_eq!(bench.id(), "validation_operations");
}

#[test]
fn test_validation_benchmark_description() {
    let bench = ValidationBenchmark::new();
    assert!(!bench.description().is_empty());
    assert!(bench.description().contains("validation"));
}

#[test]
fn test_default_output_dir() {
    let dir = default_output_dir();
    assert_eq!(dir, PathBuf::from("benchmarks/output"));
}

#[test]
fn test_raw_results_dir() {
    let dir = raw_results_dir();
    assert_eq!(dir, PathBuf::from("benchmarks/output/raw"));
}

#[test]
fn test_benchmark_command_variants() {
    // Test that command variants can be constructed
    let _run = BenchmarkCommand::Run {
        output_dir: "test".to_string(),
        dry_run: false,
    };
    let _list = BenchmarkCommand::List;
}

#[test]
fn target_ids_are_distinct() {
    let ids = [
        StorageBenchmark::new().id(),
        ValidationBenchmark::new().id(),
        CompatibilityBenchmark::new().id(),
    ];
    assert_ne!(ids[0], ids[1]);
    assert_ne!(ids[1], ids[2]);
    assert_ne!(ids[0], ids[2]);
}
