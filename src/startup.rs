//! Start-up: turning the outcome of connecting to and loading from the
//! configuration authority into a ready context, strictly or leniently.

use crate::config::{
    is_default_global, is_default_policies, ConfigConsumer, ConfigError, GlobalConfig,
    SchemaPolicies,
};
use vstd::prelude::*;

verus! {

/// What the registry starts with: its configuration, its policies, and the
/// consumer to refresh them from, if one could be set up.
pub struct StartupContext<C> {
    pub global_config: GlobalConfig,
    pub schema_policies: SchemaPolicies,
    pub config_adapter: Option<C>,
}

impl<C> Default for StartupContext<C> {
    fn default() -> (r: Self)
        ensures
            is_default_global(r.global_config@),
            is_default_policies(r.schema_policies@),
            r.config_adapter is None,
    {
        StartupContext {
            global_config: GlobalConfig::default(),
            schema_policies: SchemaPolicies::default(),
            config_adapter: None,
        }
    }
}

impl<C: ConfigConsumer> StartupContext<C> {
    /// Asks the consumer, if there is one, to reconcile.
    pub fn refresh(&self) -> (r: Result<(), ConfigError>)
        ensures
            self.config_adapter is None ==> r is Ok,
    {
        match &self.config_adapter {
            Some(adapter) => adapter.refresh(),
            None => Ok(()),
        }
    }
}

/// The global configuration to start with, given what loading it gave: a
/// loaded one is kept; a failure is returned under strict start-up and
/// replaced by the default otherwise.
pub fn settle_global_config(
    loaded: Result<GlobalConfig, ConfigError>,
    require_config: bool,
) -> (r: Result<GlobalConfig, ConfigError>)
    ensures
        loaded is Ok || require_config ==> r == loaded,
        loaded is Err && !require_config ==> (r matches Ok(c) && is_default_global(c@)),
{
    match loaded {
        Ok(c) => Ok(c),
        Err(e) => if require_config {
            Err(e)
        } else {
            Ok(GlobalConfig::default())
        },
    }
}

/// The schema policies to start with, given what loading them gave, by the
/// same rule as the global configuration.
pub fn settle_schema_policies(
    loaded: Result<SchemaPolicies, ConfigError>,
    require_config: bool,
) -> (r: Result<SchemaPolicies, ConfigError>)
    ensures
        loaded is Ok || require_config ==> r == loaded,
        loaded is Err && !require_config ==> (r matches Ok(p) && is_default_policies(p@)),
{
    match loaded {
        Ok(p) => Ok(p),
        Err(e) => if require_config {
            Err(e)
        } else {
            Ok(SchemaPolicies::default())
        },
    }
}

/// Builds the start-up context from the outcome of setting up a consumer.
/// Under strict start-up (`require_config`) the first failure is returned;
/// otherwise start-up always succeeds, with defaults for whatever could not
/// be had, and with no consumer where none could be set up.
pub fn initialize_with_consumer<C: ConfigConsumer>(
    adapter: Result<C, ConfigError>,
    require_config: bool,
) -> (r: Result<StartupContext<C>, ConfigError>)
    ensures
        adapter is Err && require_config ==> r == Err::<StartupContext<C>, ConfigError>(
            adapter->Err_0,
        ),
        adapter is Err && !require_config ==> (r matches Ok(ctx) && is_default_global(
            ctx.global_config@,
        ) && is_default_policies(ctx.schema_policies@) && ctx.config_adapter is None),
        !require_config ==> r is Ok,
        adapter is Ok && r is Ok ==> r->Ok_0.config_adapter == Some(adapter->Ok_0),
{
    let adapter = match adapter {
        Ok(a) => a,
        Err(e) => {
            if require_config {
                return Err(e);
            } else {
                return Ok(StartupContext::default());
            }
        },
    };
    let global_config = settle_global_config(adapter.load_global_config(), require_config)?;
    let schema_policies = settle_schema_policies(adapter.load_schema_policies(), require_config)?;
    Ok(StartupContext { global_config, schema_policies, config_adapter: Some(adapter) })
}

} // verus!
