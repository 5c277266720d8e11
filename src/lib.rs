//! Configuration snapshots, refresh management and policy enforcement for a
//! schema registry.

pub mod bench;
pub mod config;
pub mod json_tree;
pub mod policy;
pub mod refresh;
pub mod report;
pub mod startup;
pub mod text;

pub use bench::{
    default_output_dir, raw_results_dir, BenchmarkCommand, CompatibilityBenchmark,
    StorageBenchmark, ValidationBenchmark,
};
pub use config::{
    assemble_global_config, assemble_schema_policies, ConfigConsumer, ConfigError,
    ConfigUpdateListener, CustomPolicyRule, FieldNamingPolicy, GlobalConfig, SchemaPolicies,
    SecurityConfig, ServerConfig, StorageConfig, ValidationConfig,
};
pub use json_tree::JsonTree;
pub use policy::{
    custom_rule_finding, PolicyBasedValidationRule, SchemaFormat, Severity, ValidationEngineExt,
    ValidationError, ValidationRule,
};
pub use refresh::{
    notify_all, periodic_step, refresh_event, BackgroundTask, ConfigRefreshManager, LoggingConfigListener,
    PeriodicAction, PeriodicEvent, PeriodicPhase, RefreshStrategy,
};
pub use report::{
    escape_table_cell, generate_compact_summary, generate_summary, generate_table, timestamped_name,
    ReportEntry,
};
pub use startup::{initialize_with_consumer, settle_global_config, settle_schema_policies, StartupContext};
pub use text::{decimal_string, str_equal};
