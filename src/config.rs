//! The configuration data model: global settings, schema policies, their
//! defaults, and the capability interfaces through which they are loaded and
//! announced.

use std::collections::HashMap;
use vstd::prelude::*;

verus! {

#[verifier::external_type_specification]
#[verifier::external_body]
pub struct ExJsonError(serde_json::Error);

/// Server-specific configuration.
#[derive(Debug)]
pub struct ServerConfig {
    /// Server host.
    pub host: String,
    /// Server port.
    pub port: u16,
    /// Maximum request size in bytes.
    pub max_request_size: usize,
    /// Request timeout in seconds.
    pub timeout_seconds: u64,
}

/// Storage-specific configuration.
#[derive(Debug, Clone, Copy, PartialEq, Eq, Structural)]
pub struct StorageConfig {
    /// Database connection pool size.
    pub pool_size: u32,
    /// Cache TTL in seconds.
    pub cache_ttl_seconds: u64,
    /// Enable compression.
    pub enable_compression: bool,
}

/// Validation-specific configuration.
#[derive(Debug, Clone, Copy, PartialEq, Eq, Structural)]
pub struct ValidationConfig {
    /// Maximum schema size in bytes.
    pub max_schema_size: usize,
    /// Enable strict validation.
    pub strict_mode: bool,
    /// Enable performance validation.
    pub performance_checks: bool,
    /// Enable security validation.
    pub security_checks: bool,
}

/// Security-specific configuration.
#[derive(Debug, Clone, Copy, PartialEq, Eq, Structural)]
pub struct SecurityConfig {
    /// Enable authentication.
    pub enable_auth: bool,
    /// Enable TLS.
    pub enable_tls: bool,
    /// API rate limit (requests per second).
    pub rate_limit_rps: u32,
}

/// Global configuration of the registry.
#[derive(Debug)]
pub struct GlobalConfig {
    pub server: ServerConfig,
    pub storage: StorageConfig,
    pub validation: ValidationConfig,
    pub security: SecurityConfig,
    /// Additional metadata; the order of its entries carries no meaning.
    pub metadata: HashMap<String, String>,
}

/// What a `GlobalConfig` stands for: its sections and its metadata as a map.
pub ghost struct GlobalConfigView {
    pub server: ServerConfig,
    pub storage: StorageConfig,
    pub validation: ValidationConfig,
    pub security: SecurityConfig,
    pub metadata: Map<String, String>,
}

impl View for GlobalConfig {
    type V = GlobalConfigView;

    open spec fn view(&self) -> GlobalConfigView {
        GlobalConfigView {
            server: self.server,
            storage: self.storage,
            validation: self.validation,
            security: self.security,
            metadata: self.metadata@,
        }
    }
}

/// Field naming policy.
#[derive(Debug)]
pub struct FieldNamingPolicy {
    /// Naming convention: `snake_case`, `camelCase`, `PascalCase`, or any
    /// other text, which accepts every name.
    pub convention: String,
    /// Whether the convention is enforced.
    pub enforce: bool,
}

/// A policy rule given as a regular expression that schema text should match.
#[derive(Debug)]
pub struct CustomPolicyRule {
    pub name: String,
    pub description: String,
    /// Pattern to match (regular expression); a rule without one only
    /// documents a policy.
    pub pattern: Option<String>,
    /// Whether a schema that does not match is reported.
    pub mandatory: bool,
}

/// Schema validation policies.
#[derive(Debug)]
pub struct SchemaPolicies {
    pub field_naming: FieldNamingPolicy,
    pub type_restrictions: Vec<String>,
    pub required_metadata: Vec<String>,
    pub custom_rules: Vec<CustomPolicyRule>,
}

/// What a `SchemaPolicies` stands for: its lists as sequences.
pub ghost struct SchemaPoliciesView {
    pub field_naming: FieldNamingPolicy,
    pub type_restrictions: Seq<String>,
    pub required_metadata: Seq<String>,
    pub custom_rules: Seq<CustomPolicyRule>,
}

impl View for SchemaPolicies {
    type V = SchemaPoliciesView;

    open spec fn view(&self) -> SchemaPoliciesView {
        SchemaPoliciesView {
            field_naming: self.field_naming,
            type_restrictions: self.type_restrictions@,
            required_metadata: self.required_metadata@,
            custom_rules: self.custom_rules@,
        }
    }
}

/// Errors that can occur while consuming configuration.
#[derive(Debug)]
pub enum ConfigError {
    /// The upstream authority is unreachable or misconfigured.
    ConfigManager(String),
    /// A value is present but semantically invalid.
    InvalidConfig(String),
    /// A key is absent.
    NotFound(String),
    /// A stored value cannot be decoded into the target shape.
    Serialization(serde_json::Error),
}

// ---------------------------------------------------------------------------
// Defaults
// ---------------------------------------------------------------------------

pub open spec fn is_default_server(s: ServerConfig) -> bool {
    &&& s.host@ == "127.0.0.1"@
    &&& s.port == 8080
    &&& s.max_request_size == 10485760
    &&& s.timeout_seconds == 30
}

pub open spec fn default_storage() -> StorageConfig {
    StorageConfig { pool_size: 10, cache_ttl_seconds: 300, enable_compression: true }
}

pub open spec fn default_validation() -> ValidationConfig {
    ValidationConfig {
        max_schema_size: 1048576,
        strict_mode: false,
        performance_checks: true,
        security_checks: true,
    }
}

pub open spec fn default_security() -> SecurityConfig {
    SecurityConfig { enable_auth: false, enable_tls: false, rate_limit_rps: 100 }
}

pub open spec fn is_default_global(c: GlobalConfigView) -> bool {
    &&& is_default_server(c.server)
    &&& c.storage == default_storage()
    &&& c.validation == default_validation()
    &&& c.security == default_security()
    &&& c.metadata == Map::<String, String>::empty()
}

pub open spec fn is_default_naming(p: FieldNamingPolicy) -> bool {
    p.convention@ == "snake_case"@ && !p.enforce
}

pub open spec fn is_default_policies(p: SchemaPoliciesView) -> bool {
    &&& is_default_naming(p.field_naming)
    &&& p.type_restrictions.len() == 0
    &&& p.required_metadata.len() == 0
    &&& p.custom_rules.len() == 0
}

impl Default for ServerConfig {
    fn default() -> (r: Self)
        ensures
            is_default_server(r),
    {
        proof {
            reveal_strlit("127.0.0.1");
        }
        ServerConfig {
            host: String::from_str("127.0.0.1"),
            port: 8080,
            max_request_size: 10 * 1024 * 1024,
            timeout_seconds: 30,
        }
    }
}

impl Default for StorageConfig {
    fn default() -> (r: Self)
        ensures
            r == default_storage(),
    {
        StorageConfig { pool_size: 10, cache_ttl_seconds: 300, enable_compression: true }
    }
}

impl Default for ValidationConfig {
    fn default() -> (r: Self)
        ensures
            r == default_validation(),
    {
        ValidationConfig {
            max_schema_size: 1024 * 1024,
            strict_mode: false,
            performance_checks: true,
            security_checks: true,
        }
    }
}

impl Default for SecurityConfig {
    fn default() -> (r: Self)
        ensures
            r == default_security(),
    {
        SecurityConfig { enable_auth: false, enable_tls: false, rate_limit_rps: 100 }
    }
}

impl Default for GlobalConfig {
    fn default() -> (r: Self)
        ensures
            is_default_global(r@),
    {
        GlobalConfig {
            server: ServerConfig::default(),
            storage: StorageConfig::default(),
            validation: ValidationConfig::default(),
            security: SecurityConfig::default(),
            metadata: HashMap::new(),
        }
    }
}

impl Default for FieldNamingPolicy {
    fn default() -> (r: Self)
        ensures
            is_default_naming(r),
    {
        proof {
            reveal_strlit("snake_case");
        }
        FieldNamingPolicy { convention: String::from_str("snake_case"), enforce: false }
    }
}

impl Default for SchemaPolicies {
    fn default() -> (r: Self)
        ensures
            is_default_policies(r@),
    {
        SchemaPolicies {
            field_naming: FieldNamingPolicy::default(),
            type_restrictions: Vec::new(),
            required_metadata: Vec::new(),
            custom_rules: Vec::new(),
        }
    }
}

// ---------------------------------------------------------------------------
// Copies
// ---------------------------------------------------------------------------

impl Clone for ServerConfig {
    fn clone(&self) -> (r: Self)
        ensures
            r == *self,
    {
        ServerConfig {
            host: self.host.clone(),
            port: self.port,
            max_request_size: self.max_request_size,
            timeout_seconds: self.timeout_seconds,
        }
    }
}

impl Clone for GlobalConfig {
    fn clone(&self) -> (r: Self)
        ensures
            r@ == self@,
    {
        GlobalConfig {
            server: self.server.clone(),
            storage: self.storage,
            validation: self.validation,
            security: self.security,
            metadata: self.metadata.clone(),
        }
    }
}

impl Clone for FieldNamingPolicy {
    fn clone(&self) -> (r: Self)
        ensures
            r == *self,
    {
        FieldNamingPolicy { convention: self.convention.clone(), enforce: self.enforce }
    }
}

impl Clone for CustomPolicyRule {
    fn clone(&self) -> (r: Self)
        ensures
            r == *self,
    {
        let pattern = match &self.pattern {
            Some(p) => Some(p.clone()),
            None => None,
        };
        CustomPolicyRule {
            name: self.name.clone(),
            description: self.description.clone(),
            pattern,
            mandatory: self.mandatory,
        }
    }
}

fn clone_strings(v: &Vec<String>) -> (r: Vec<String>)
    ensures
        r@ == v@,
{
    let r = v.clone();
    assert(r@ =~= v@);
    r
}

fn clone_rules(v: &Vec<CustomPolicyRule>) -> (r: Vec<CustomPolicyRule>)
    ensures
        r@ == v@,
{
    let r = v.clone();
    assert(r@ =~= v@);
    r
}

impl Clone for SchemaPolicies {
    fn clone(&self) -> (r: Self)
        ensures
            r@ == self@,
    {
        SchemaPolicies {
            field_naming: self.field_naming.clone(),
            type_restrictions: clone_strings(&self.type_restrictions),
            required_metadata: clone_strings(&self.required_metadata),
            custom_rules: clone_rules(&self.custom_rules),
        }
    }
}

// ---------------------------------------------------------------------------
// Assembling loaded snapshots
// ---------------------------------------------------------------------------

/// Builds the global configuration from the sections that were found and
/// decoded upstream; each missing or undecodable section keeps its default.
pub fn assemble_global_config(
    server: Option<ServerConfig>,
    storage: Option<StorageConfig>,
    validation: Option<ValidationConfig>,
    security: Option<SecurityConfig>,
) -> (r: GlobalConfig)
    ensures
        server matches Some(s) ==> r.server == s,
        server is None ==> is_default_server(r.server),
        r.storage == (match storage {
            Some(s) => s,
            None => default_storage(),
        }),
        r.validation == (match validation {
            Some(v) => v,
            None => default_validation(),
        }),
        r.security == (match security {
            Some(s) => s,
            None => default_security(),
        }),
        r.metadata@ == Map::<String, String>::empty(),
{
    let mut config = GlobalConfig::default();
    if let Some(s) = server {
        config.server = s;
    }
    if let Some(s) = storage {
        config.storage = s;
    }
    if let Some(v) = validation {
        config.validation = v;
    }
    if let Some(s) = security {
        config.security = s;
    }
    config
}

/// Builds the schema policies from the aggregate policy document and the
/// finer-grained field-naming entry, each present only when it was found and
/// decoded upstream. The field-naming entry overrides the aggregate's.
pub fn assemble_schema_policies(
    aggregate: Option<SchemaPolicies>,
    field_naming: Option<FieldNamingPolicy>,
) -> (r: SchemaPolicies)
    ensures
        aggregate matches Some(a) ==> {
            &&& r.type_restrictions@ == a.type_restrictions@
            &&& r.required_metadata@ == a.required_metadata@
            &&& r.custom_rules@ == a.custom_rules@
        },
        aggregate is None ==> {
            &&& r.type_restrictions@.len() == 0
            &&& r.required_metadata@.len() == 0
            &&& r.custom_rules@.len() == 0
        },
        field_naming matches Some(f) ==> r.field_naming == f,
        field_naming is None ==> (match aggregate {
            Some(a) => r.field_naming == a.field_naming,
            None => is_default_naming(r.field_naming),
        }),
{
    let mut policies = match aggregate {
        Some(a) => a,
        None => SchemaPolicies::default(),
    };
    if let Some(f) = field_naming {
        policies.field_naming = f;
    }
    policies
}

// ---------------------------------------------------------------------------
// Capability interfaces
// ---------------------------------------------------------------------------

/// A source of configuration, such as an adapter to the upstream
/// configuration authority.
pub trait ConfigConsumer {
    /// Loads the global configuration; only a failure to reach the upstream
    /// authority is an error.
    fn load_global_config(&self) -> Result<GlobalConfig, ConfigError>;

    /// Loads the schema validation policies.
    fn load_schema_policies(&self) -> Result<SchemaPolicies, ConfigError>;

    /// Asks the upstream authority to reconcile its state; it does not touch
    /// any local cache.
    fn refresh(&self) -> Result<(), ConfigError>;
}

/// A subscriber to configuration changes.
pub trait ConfigUpdateListener {
    /// Called when the global configuration is updated.
    fn on_config_updated(&self, config: &GlobalConfig);

    /// Called when the schema policies are updated.
    fn on_policies_updated(&self, policies: &SchemaPolicies);
}

} // verus!
