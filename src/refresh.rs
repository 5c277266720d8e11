//! The refresh manager: the cached configuration snapshot, its all-or-nothing
//! replacement, and the notification of listeners.

use crate::config::{
    ConfigConsumer, ConfigError, ConfigUpdateListener, GlobalConfig, GlobalConfigView,
    SchemaPolicies, SchemaPoliciesView,
};
use crate::text::{decimal, decimal_string};
use std::io::Write;
use std::time::Duration;
use vstd::prelude::*;

verus! {

/// When the cached configuration is refreshed.
#[derive(Debug, Clone, Copy, PartialEq, Eq)]
pub enum RefreshStrategy {
    /// Only on an explicit call.
    Manual,
    /// On a timer, at a fixed interval.
    Periodic(Duration),
    /// On change notifications from the upstream authority; accepted, but no
    /// background activity is started for it.
    EventDriven,
}

/// The cached pair of snapshots, as a mathematical value.
pub ghost struct SnapshotView {
    pub config: GlobalConfigView,
    pub policies: SchemaPoliciesView,
}

/// The snapshot pair after a refresh whose loads gave `loaded`: a failed
/// load leaves both snapshots as they were, a successful one replaces both.
pub open spec fn after_refresh(
    current: SnapshotView,
    loaded: Result<SnapshotView, ConfigError>,
) -> SnapshotView {
    match loaded {
        Ok(s) => s,
        Err(_) => current,
    }
}

/// Holds the current configuration and policies, replaces them on refresh,
/// and tells the registered listeners.
///
/// Both snapshots change together, in one `&mut` step; a caller that shares
/// the manager between threads puts it behind one reader-writer lock, so
/// that every reader sees both snapshots of one refresh generation.
pub struct ConfigRefreshManager<C, L> {
    adapter: C,
    global_config: GlobalConfig,
    schema_policies: SchemaPolicies,
    listeners: Vec<L>,
    strategy: RefreshStrategy,
}

impl<C: ConfigConsumer, L: ConfigUpdateListener> ConfigRefreshManager<C, L> {
    /// The cached snapshot pair.
    pub closed spec fn snapshot(&self) -> SnapshotView {
        SnapshotView { config: self.global_config@, policies: self.schema_policies@ }
    }

    /// The registered listeners, in registration order.
    pub closed spec fn listeners(&self) -> Seq<L> {
        self.listeners@
    }

    pub closed spec fn strategy(&self) -> RefreshStrategy {
        self.strategy
    }

    pub closed spec fn adapter(&self) -> C {
        self.adapter
    }

    /// Creates a manager that serves the given initial snapshots.
    pub fn new(
        adapter: C,
        initial_config: GlobalConfig,
        initial_policies: SchemaPolicies,
        strategy: RefreshStrategy,
    ) -> (r: Self)
        ensures
            r.snapshot() == (SnapshotView { config: initial_config@, policies: initial_policies@ }),
            r.listeners().len() == 0,
            r.strategy() == strategy,
            r.adapter() == adapter,
    {
        ConfigRefreshManager {
            adapter,
            global_config: initial_config,
            schema_policies: initial_policies,
            listeners: Vec::new(),
            strategy,
        }
    }

    /// Adds a listener after those already registered.
    pub fn register_listener(&mut self, listener: L)
        ensures
            final(self).listeners() == old(self).listeners().push(listener),
            final(self).snapshot() == old(self).snapshot(),
            final(self).strategy() == old(self).strategy(),
            final(self).adapter() == old(self).adapter(),
    {
        self.listeners.push(listener);
    }

    /// A copy of the current global configuration.
    pub fn get_global_config(&self) -> (r: GlobalConfig)
        ensures
            r@ == self.snapshot().config,
    {
        self.global_config.clone()
    }

    /// A copy of the current schema policies.
    pub fn get_schema_policies(&self) -> (r: SchemaPolicies)
        ensures
            r@ == self.snapshot().policies,
    {
        self.schema_policies.clone()
    }

    /// Asks the consumer to reconcile, then loads a new configuration and new
    /// policies; the first error stops the sequence and is returned. Nothing
    /// cached is touched.
    pub fn load_snapshot(&self) -> (r: Result<(GlobalConfig, SchemaPolicies), ConfigError>) {
        self.adapter.refresh()?;
        let config = self.adapter.load_global_config()?;
        let policies = self.adapter.load_schema_policies()?;
        Ok((config, policies))
    }

    /// Installs what a load gave: on success both snapshots are replaced and
    /// copies of the new values are returned for notification; on failure
    /// nothing changes and the error is returned.
    pub fn apply_loaded(
        &mut self,
        loaded: Result<(GlobalConfig, SchemaPolicies), ConfigError>,
    ) -> (r: Result<(GlobalConfig, SchemaPolicies), ConfigError>)
        ensures
            final(self).snapshot() == after_refresh(
                old(self).snapshot(),
                match loaded {
                    Ok((c, p)) => Ok(SnapshotView { config: c@, policies: p@ }),
                    Err(e) => Err(e),
                },
            ),
            match (loaded, r) {
                (Ok((c, p)), Ok((c2, p2))) => c2@ == c@ && p2@ == p@,
                (Err(e), Err(e2)) => e2 == e,
                _ => false,
            },
            final(self).listeners() == old(self).listeners(),
            final(self).strategy() == old(self).strategy(),
            final(self).adapter() == old(self).adapter(),
    {
        match loaded {
            Ok((config, policies)) => {
                let config_copy = config.clone();
                let policies_copy = policies.clone();
                self.global_config = config;
                self.schema_policies = policies;
                Ok((config_copy, policies_copy))
            },
            Err(e) => Err(e),
        }
    }

    /// Tells every listener, in registration order, of the new configuration
    /// and then of the new policies.
    pub fn notify_listeners(&self, config: &GlobalConfig, policies: &SchemaPolicies) {
        notify_all(&self.listeners, config, policies);
    }

    /// Refreshes the cache from the consumer: reconcile, load both
    /// snapshots, replace both, then notify the listeners. A failure at any
    /// step is returned and leaves the cache as it was.
    pub fn refresh(&mut self) -> (r: Result<(), ConfigError>)
        ensures
            r is Err ==> final(self).snapshot() == old(self).snapshot(),
            final(self).listeners() == old(self).listeners(),
            final(self).strategy() == old(self).strategy(),
            final(self).adapter() == old(self).adapter(),
    {
        let loaded = self.load_snapshot();
        match self.apply_loaded(loaded) {
            Ok((config, policies)) => {
                self.notify_listeners(&config, &policies);
                Ok(())
            },
            Err(e) => Err(e),
        }
    }

    /// The background activity that the strategy calls for.
    pub fn start_background_refresh(&self) -> (r: BackgroundTask)
        ensures
            r == background_task_for(self.strategy()),
    {
        match self.strategy {
            RefreshStrategy::Manual => BackgroundTask::Idle,
            RefreshStrategy::Periodic(interval) => BackgroundTask::Periodic(interval),
            RefreshStrategy::EventDriven => BackgroundTask::Watch,
        }
    }
}

impl<C: ConfigConsumer, L: ConfigUpdateListener + Clone> ConfigRefreshManager<C, L> {
    /// Copies of the registered listeners, in registration order, so that a
    /// caller can notify them without holding the manager.
    pub fn registered_listeners(&self) -> (r: Vec<L>)
        ensures
            r.len() == self.listeners().len(),
            forall|i: int| 0 <= i < r.len() ==> cloned::<L>(self.listeners()[i], #[trigger] r[i]),
    {
        self.listeners.clone()
    }
}

/// Tells each listener, in order, of the new configuration and then of the
/// new policies.
pub fn notify_all<L: ConfigUpdateListener>(
    listeners: &Vec<L>,
    config: &GlobalConfig,
    policies: &SchemaPolicies,
) {
    let mut i: usize = 0;
    while i < listeners.len()
        invariant
            i <= listeners.len(),
        decreases listeners.len() - i,
    {
        listeners[i].on_config_updated(config);
        listeners[i].on_policies_updated(policies);
        i = i + 1;
    }
}

/// What runs in the background for a strategy.
#[derive(Debug, Clone, Copy)]
pub enum BackgroundTask {
    /// Nothing: refresh happens only on request.
    Idle,
    /// A loop that refreshes once per interval.
    Periodic(Duration),
    /// Watching for upstream change notifications, which is not started.
    Watch,
}

pub open spec fn background_task_for(strategy: RefreshStrategy) -> BackgroundTask {
    match strategy {
        RefreshStrategy::Manual => BackgroundTask::Idle,
        RefreshStrategy::Periodic(interval) => BackgroundTask::Periodic(interval),
        RefreshStrategy::EventDriven => BackgroundTask::Watch,
    }
}

// ---------------------------------------------------------------------------
// A listener that writes a line per update
// ---------------------------------------------------------------------------

/// The line written when the configuration is updated.
pub open spec fn config_update_line(config: GlobalConfigView) -> Seq<char> {
    "Configuration updated: server="@ + config.server.host@ + ":"@ + decimal(
        config.server.port as nat,
    ) + ", max_schema_size="@ + decimal(config.validation.max_schema_size as nat) + " bytes"@
}

/// The line written when the policies are updated.
pub open spec fn policies_update_line(policies: SchemaPoliciesView) -> Seq<char> {
    "Policies updated: "@ + decimal(policies.custom_rules.len()) + " custom rules, field_naming="@
        + policies.field_naming.convention@
}

/// Relies on std::io::stderr and its Write impl: appends one line to the
/// process's standard error; a failed write is dropped.
#[verifier::external_body]
fn write_log_line(line: &str) {
    let _ = writeln!(std::io::stderr(), "{}", line);
}

/// A listener that writes one line to standard error for each update.
#[derive(Debug, Clone, Copy)]
pub struct LoggingConfigListener;

impl LoggingConfigListener {
    pub fn config_message(&self, config: &GlobalConfig) -> (r: String)
        ensures
            r@ == config_update_line(config@),
    {
        let mut s = String::from_str("Configuration updated: server=");
        s.append(config.server.host.as_str());
        s.append(":");
        let port = decimal_string(config.server.port as usize);
        s.append(port.as_str());
        s.append(", max_schema_size=");
        let size = decimal_string(config.validation.max_schema_size);
        s.append(size.as_str());
        s.append(" bytes");
        s
    }

    pub fn policies_message(&self, policies: &SchemaPolicies) -> (r: String)
        ensures
            r@ == policies_update_line(policies@),
    {
        let mut s = String::from_str("Policies updated: ");
        let count = decimal_string(policies.custom_rules.len());
        s.append(count.as_str());
        s.append(" custom rules, field_naming=");
        s.append(policies.field_naming.convention.as_str());
        s
    }
}

impl ConfigUpdateListener for LoggingConfigListener {
    fn on_config_updated(&self, config: &GlobalConfig) {
        let line = self.config_message(config);
        write_log_line(line.as_str());
    }

    fn on_policies_updated(&self, policies: &SchemaPolicies) {
        let line = self.policies_message(policies);
        write_log_line(line.as_str());
    }
}

// ---------------------------------------------------------------------------
// The periodic loop
// ---------------------------------------------------------------------------

/// Where the periodic loop stands.
#[derive(Debug, Clone, Copy, PartialEq, Eq, Structural)]
pub enum PeriodicPhase {
    /// Waiting for the next tick.
    Waiting,
    /// A refresh has been started and has not reported back.
    Refreshing,
}

/// What happens to the periodic loop.
#[derive(Debug, Clone, Copy, PartialEq, Eq, Structural)]
pub enum PeriodicEvent {
    Tick,
    RefreshSucceeded,
    RefreshFailed,
}

/// What the periodic loop does next.
#[derive(Debug, Clone, Copy, PartialEq, Eq, Structural)]
pub enum PeriodicAction {
    /// Call `refresh`.
    Refresh,
    /// Record that the refresh succeeded, and wait for the next tick.
    ReportSuccess,
    /// Record that the refresh failed, and wait for the next tick.
    ReportFailure,
    /// Nothing to do.
    Nothing,
}

pub open spec fn periodic_next(phase: PeriodicPhase, event: PeriodicEvent) -> (PeriodicPhase, PeriodicAction) {
    match (phase, event) {
        (PeriodicPhase::Waiting, PeriodicEvent::Tick) => (PeriodicPhase::Refreshing, PeriodicAction::Refresh),
        (PeriodicPhase::Refreshing, PeriodicEvent::RefreshSucceeded) => (PeriodicPhase::Waiting, PeriodicAction::ReportSuccess),
        (PeriodicPhase::Refreshing, PeriodicEvent::RefreshFailed) => (PeriodicPhase::Waiting, PeriodicAction::ReportFailure),
        _ => (phase, PeriodicAction::Nothing),
    }
}

/// One step of the periodic loop: a tick while waiting starts a refresh; the
/// outcome of a refresh, success or failure, is reported and the loop goes
/// back to waiting. The loop has no state in which it stops.
pub fn periodic_step(phase: PeriodicPhase, event: PeriodicEvent) -> (r: (PeriodicPhase, PeriodicAction))
    ensures
        r == periodic_next(phase, event),
{
    match (phase, event) {
        (PeriodicPhase::Waiting, PeriodicEvent::Tick) => (PeriodicPhase::Refreshing, PeriodicAction::Refresh),
        (PeriodicPhase::Refreshing, PeriodicEvent::RefreshSucceeded) => (PeriodicPhase::Waiting, PeriodicAction::ReportSuccess),
        (PeriodicPhase::Refreshing, PeriodicEvent::RefreshFailed) => (PeriodicPhase::Waiting, PeriodicAction::ReportFailure),
        _ => (phase, PeriodicAction::Nothing),
    }
}

/// The event that a refresh outcome reports to the periodic loop.
pub fn refresh_event(outcome: &Result<(), ConfigError>) -> (r: PeriodicEvent)
    ensures
        r == (if outcome is Ok { PeriodicEvent::RefreshSucceeded } else { PeriodicEvent::RefreshFailed }),
{
    match outcome {
        Ok(()) => PeriodicEvent::RefreshSucceeded,
        Err(_) => PeriodicEvent::RefreshFailed,
    }
}

// ---------------------------------------------------------------------------
// Laws
// ---------------------------------------------------------------------------

/// A refresh whose load fails leaves both cached snapshots as they were.
pub proof fn lemma_failed_refresh_keeps_snapshot(current: SnapshotView, e: ConfigError)
    ensures
        after_refresh(current, Err(e)) == current,
{
}

/// Two successful refreshes that load the same values leave the cache as
/// one does, and hand the listeners equal values both times.
pub proof fn lemma_refresh_idempotent(current: SnapshotView, loaded: SnapshotView)
    ensures
        after_refresh(after_refresh(current, Ok(loaded)), Ok(loaded)) == after_refresh(current, Ok(loaded)),
        after_refresh(current, Ok(loaded)) == loaded,
{
}

/// A refresh replaces both snapshots from one load or neither: the cache is
/// never left with a configuration of one generation and policies of another.
pub proof fn lemma_refresh_never_mixes(
    current: SnapshotView,
    loaded: Result<SnapshotView, ConfigError>,
)
    ensures
        after_refresh(current, loaded) == current || (loaded matches Ok(s) && after_refresh(current, loaded) == s),
{
}

/// Whatever a periodic refresh gives, the loop goes back to waiting, and the
/// next tick calls `refresh` again.
pub proof fn lemma_periodic_loop_continues(outcome: Result<(), ConfigError>)
    ensures
        ({
            let event = if outcome is Ok { PeriodicEvent::RefreshSucceeded } else { PeriodicEvent::RefreshFailed };
            let after = periodic_next(PeriodicPhase::Refreshing, event);
            &&& after.0 == PeriodicPhase::Waiting
            &&& after.1 != PeriodicAction::Nothing
            &&& periodic_next(after.0, PeriodicEvent::Tick) == (PeriodicPhase::Refreshing, PeriodicAction::Refresh)
        }),
{
}

} // verus!
