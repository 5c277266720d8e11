use schema_registry_core::{
    escape_table_cell, generate_compact_summary, generate_summary, generate_table,
    timestamped_name, ReportEntry,
};

fn entry(id: &str) -> ReportEntry {
    ReportEntry {
        target_id: id.to_string(),
        metrics_json: r#"{"duration_ms":100,"throughput":1000}"#.to_string(),
        metrics_pretty: "{\n  \"duration_ms\": 100,\n  \"throughput\": 1000\n}".to_string(),
        timestamp: "2024-01-02 03:04:05 UTC".to_string(),
        duration_ms: Some("100".to_string()),
    }
}

#[test]
fn test_generate_table_empty() {
    let results: Vec<ReportEntry> = vec![];
    let table = generate_table(&results);
    assert_eq!(table, "No benchmark results available.\n");
}

#[test]
fn test_generate_table_multiple_results() {
    let table = generate_table(&vec![entry("bench1"), entry("bench2")]);
    assert_eq!(
        table,
        "| Target ID | Metrics | Timestamp |\n|-----------|---------|----------|\n\
         | bench1 | `{\"duration_ms\":100,\"throughput\":1000}` | 2024-01-02 03:04:05 UTC |\n\
         | bench2 | `{\"duration_ms\":100,\"throughput\":1000}` | 2024-01-02 03:04:05 UTC |\n"
    );
    assert_eq!(table.matches("| bench").count(), 2);
}

#[test]
fn test_table_escapes_pipe_characters() {
    let mut e = entry("test");
    e.metrics_json = r#"{"key":"value|with|pipes"}"#.to_string();
    let table = generate_table(&vec![e]);
    assert!(table.contains(r#"value\|with\|pipes"#));
    assert_eq!(escape_table_cell("a|b||"), r"a\|b\|\|");
    assert_eq!(escape_table_cell(""), "");
    assert_eq!(escape_table_cell("ü|"), r"ü\|");
}

#[test]
fn test_generate_summary_structure() {
    let summary = generate_summary(&vec![entry("test")], "2024-01-02 03:04:05 UTC");
    assert!(summary.starts_with("# Schema Registry Benchmark Summary\n\n**Generated:** 2024-01-02 03:04:05 UTC\n\n"));
    assert!(summary.contains("**Total Benchmarks:** 1"));
    assert!(summary.contains("## Benchmark Results"));
    assert!(summary.contains("## Detailed Metrics"));
    assert!(summary.contains("### test\n\n**Timestamp:** 2024-01-02 03:04:05 UTC\n\n**Metrics:**\n\n```json\n{\n  \"duration_ms\": 100"));
    assert!(summary.ends_with("\n```\n\n"));
}

#[test]
fn test_summary_handles_empty_results() {
    let summary = generate_summary(&vec![], "now");
    assert!(summary.contains("**Total Benchmarks:** 0"));
    assert!(summary.contains("No benchmark results available"));
}

#[test]
fn compact_summary_lines() {
    let mut without = entry("other");
    without.duration_ms = None;
    let summary = generate_compact_summary(&vec![entry("test"), without], "2024-01-02 03:04:05");
    assert_eq!(
        summary,
        "# Benchmark Summary\n\nTotal: 2 | Generated: 2024-01-02 03:04:05\n\n- **test**: 100ms\n- **other**: see details\n"
    );
}

#[test]
fn raw_file_names() {
    assert_eq!(timestamped_name("bench", "20240102_030405", "txt"), "bench_20240102_030405.txt");
    let name = timestamped_name("test", "20240102_030405", "json");
    assert!(name.starts_with("test_"));
    assert!(name.ends_with(".json"));
    assert_eq!(name.split('_').count(), 3);
}

#[test]
fn test_generate_table_single_result() {
    let table = generate_table(&vec![entry("test_bench")]);
    assert!(table.contains("Target ID"));
    assert!(table.contains("Metrics"));
    assert!(table.contains("Timestamp"));
    assert!(table.contains("test_bench"));
}

#[test]
fn test_generate_summary_includes_json() {
    let summary = generate_summary(&vec![entry("test")], "2024-01-02 03:04:05 UTC");
    assert!(summary.contains("```json"));
    assert!(summary.contains("duration_ms"));
    assert!(summary.contains("throughput"));
}

#[test]
fn test_generate_compact_summary() {
    let summary = generate_compact_summary(&vec![entry("test")], "2024-01-02 03:04:05");
    assert!(summary.contains("# Benchmark Summary"));
    assert!(summary.contains("Total: 1"));
    assert!(summary.contains("test"));
    assert!(summary.contains("100ms"));
}
