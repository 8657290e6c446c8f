//! System health: results of component health checks, error and recovery
//! counts per component, and the response to a component's failure.
use crate::names::NameTable;
use crate::opaque::{duration_debug, duration_debug_text, duration_ge, instant_elapsed, instant_now, instant_since, system_time_now};
use crate::recovery::{
    default_essential, default_optional, shutdown_required, spec_health_of, spec_shutdown_required,
    spec_system_health, ComponentHealth, GracefulDegradation, HealthMonitor,
};
use crate::text::{decimal, push_decimal};
use std::time::{Duration, Instant, SystemTime};
use vstd::prelude::*;

verus! {

/// A component that can check its own health.
pub trait HealthChecker {
    /// Check the component's health.
    fn check_health(&self) -> ComponentHealth;

    /// The component's name.
    fn component_name(&self) -> &'static str;
}

/// Result of a component health check.
#[derive(Debug, Clone)]
pub struct HealthCheckResult {
    pub component: String,
    pub health: ComponentHealth,
    pub details: Option<String>,
    pub timestamp: SystemTime,
}

impl HealthCheckResult {
    /// A result without details, stamped now.
    pub fn new(component: String, health: ComponentHealth) -> (r: Self)
        ensures
            r.component@ == component@,
            r.health == health,
            r.details is None,
    {
        HealthCheckResult { component, health, details: None, timestamp: system_time_now() }
    }

    /// A result with details, stamped now.
    pub fn with_details(component: String, health: ComponentHealth, details: String) -> (r: Self)
        ensures
            r.component@ == component@,
            r.health == health,
            r.details matches Some(d) && d@ == details@,
    {
        HealthCheckResult { component, health, details: Some(details), timestamp: system_time_now() }
    }
}

/// A count in a table of counts (0 when absent).
pub open spec fn count_of(m: Map<Seq<char>, u64>, k: Seq<char>) -> u64 {
    if m.dom().contains(k) {
        m[k]
    } else {
        0
    }
}

/// Errors and recoveries counted per component since the last reset.
pub struct SystemMetrics {
    component_error_counts: NameTable<u64>,
    component_recovery_counts: NameTable<u64>,
    last_reset: Instant,
}

impl Default for SystemMetrics {
    fn default() -> (m: Self)
        ensures
            m.wf(),
            m.errors() == Map::<Seq<char>, u64>::empty(),
            m.recoveries() == Map::<Seq<char>, u64>::empty(),
    {
        Self::new()
    }
}

impl SystemMetrics {
    /// Error counts by component.
    pub closed spec fn errors(&self) -> Map<Seq<char>, u64> {
        self.component_error_counts@
    }

    /// Recovery counts by component.
    pub closed spec fn recoveries(&self) -> Map<Seq<char>, u64> {
        self.component_recovery_counts@
    }

    /// Well-formedness.
    pub closed spec fn wf(&self) -> bool {
        self.component_error_counts.wf() && self.component_recovery_counts.wf()
    }

    /// The components with errors, in the order first counted.
    pub closed spec fn error_names(&self) -> Seq<Seq<char>> {
        self.component_error_counts.name_seq()
    }

    /// Their error counts.
    pub closed spec fn error_values(&self) -> Seq<u64> {
        self.component_error_counts.value_seq()
    }

    /// The components with recoveries, in the order first counted.
    pub closed spec fn recovery_names(&self) -> Seq<Seq<char>> {
        self.component_recovery_counts.name_seq()
    }

    /// Their recovery counts.
    pub closed spec fn recovery_values(&self) -> Seq<u64> {
        self.component_recovery_counts.value_seq()
    }

    /// Metrics with nothing counted, reset now.
    pub fn new() -> (m: Self)
        ensures
            m.wf(),
            m.errors() == Map::<Seq<char>, u64>::empty(),
            m.recoveries() == Map::<Seq<char>, u64>::empty(),
    {
        SystemMetrics {
            component_error_counts: NameTable::new(),
            component_recovery_counts: NameTable::new(),
            last_reset: instant_now(),
        }
    }

    /// Count an error of a component.
    pub fn record_error(&mut self, component: &str)
        requires
            old(self).wf(),
            count_of(old(self).errors(), component@) < u64::MAX,
        ensures
            final(self).wf(),
            final(self).errors() == old(self).errors().insert(component@, (count_of(old(self).errors(), component@) + 1) as u64),
            final(self).recoveries() == old(self).recoveries(),
    {
        let n = match self.component_error_counts.get(component) {
            Some(c) => c,
            None => 0,
        };
        self.component_error_counts.set(component, n + 1);
    }

    /// Count a successful recovery of a component.
    pub fn record_recovery(&mut self, component: &str)
        requires
            old(self).wf(),
            count_of(old(self).recoveries(), component@) < u64::MAX,
        ensures
            final(self).wf(),
            final(self).recoveries() == old(self).recoveries().insert(component@, (count_of(old(self).recoveries(), component@) + 1) as u64),
            final(self).errors() == old(self).errors(),
    {
        let n = match self.component_recovery_counts.get(component) {
            Some(c) => c,
            None => 0,
        };
        self.component_recovery_counts.set(component, n + 1);
    }

    /// Errors counted for a component.
    pub fn get_error_count(&self, component: &str) -> (n: u64)
        requires
            self.wf(),
        ensures
            n == count_of(self.errors(), component@),
    {
        match self.component_error_counts.get(component) {
            Some(c) => c,
            None => 0,
        }
    }

    /// Recoveries counted for a component.
    pub fn get_recovery_count(&self, component: &str) -> (n: u64)
        requires
            self.wf(),
        ensures
            n == count_of(self.recoveries(), component@),
    {
        match self.component_recovery_counts.get(component) {
            Some(c) => c,
            None => 0,
        }
    }

    /// Forget all counts and restart the clock.
    pub fn reset(&mut self)
        requires
            old(self).wf(),
        ensures
            final(self).wf(),
            final(self).errors() == Map::<Seq<char>, u64>::empty(),
            final(self).recoveries() == Map::<Seq<char>, u64>::empty(),
    {
        self.component_error_counts.clear();
        self.component_recovery_counts.clear();
        self.last_reset = instant_now();
    }

    /// When the metrics were made or last reset.
    pub closed spec fn reset_instant(&self) -> Instant {
        self.last_reset
    }

    /// Time since the last reset, as of the moment of the call.
    pub fn time_since_reset(&self) -> (d: Duration)
        ensures
            exists|now: Instant| d == #[trigger] instant_since(now, self.reset_instant()),
    {
        let d = instant_elapsed(&self.last_reset);
        proof {
            let now = choose|now: Instant| d == #[trigger] instant_since(now, self.last_reset);
            assert(d == instant_since(now, self.reset_instant()));
        }
        d
    }

    /// A text report: the time since the reset, then each component's error
    /// count, then each component's recovery count.
    pub fn generate_report(&self) -> (report: String)
        requires
            self.wf(),
        ensures
            exists|elapsed: Duration|
                report@ == spec_report(
                    #[trigger] duration_debug(elapsed),
                    self.error_names(),
                    self.error_values(),
                    self.recovery_names(),
                    self.recovery_values(),
                ),
    {
        let elapsed = self.time_since_reset();
        self.report_since(&elapsed)
    }

    /// The text report, given the time since the reset.
    pub fn report_since(&self, elapsed: &Duration) -> (report: String)
        requires
            self.wf(),
        ensures
            report@ == spec_report(
                duration_debug(*elapsed),
                self.error_names(),
                self.error_values(),
                self.recovery_names(),
                self.recovery_values(),
            ),
    {
        let mut report = "=== System Metrics Report ===\n".to_owned();
        report.append("Time since reset: ");
        let t = duration_debug_text(elapsed);
        report.append(t.as_str());
        report.append("\n");
        report.append("\nError Counts:\n");
        append_count_lines(&mut report, &self.component_error_counts);
        report.append("\nRecovery Counts:\n");
        append_count_lines(&mut report, &self.component_recovery_counts);
        report.append("=== End Metrics Report ===");
        assert(report@ =~= spec_report(
            t@,
            self.error_names(),
            self.error_values(),
            self.recovery_names(),
            self.recovery_values(),
        ));
        report
    }
}

/// One line of a count listing.
pub open spec fn count_line(name: Seq<char>, count: u64) -> Seq<char> {
    "  "@ + name + ": "@ + decimal(count as nat) + "\n"@
}

/// The lines of the first `n` entries of a count listing.
pub open spec fn count_lines(names: Seq<Seq<char>>, counts: Seq<u64>, n: nat) -> Seq<char>
    decreases n,
{
    if n == 0 {
        Seq::empty()
    } else {
        count_lines(names, counts, (n - 1) as nat) + count_line(names[n - 1], counts[n - 1])
    }
}

/// The metrics report, given the text of the time since the reset.
pub open spec fn spec_report(t: Seq<char>, en: Seq<Seq<char>>, ec: Seq<u64>, rn: Seq<Seq<char>>, rc: Seq<u64>) -> Seq<char> {
    "=== System Metrics Report ===\n"@ + "Time since reset: "@ + t + "\n"@ + "\nError Counts:\n"@
        + count_lines(en, ec, en.len()) + "\nRecovery Counts:\n"@ + count_lines(rn, rc, rn.len())
        + "=== End Metrics Report ==="@
}

fn append_count_lines(report: &mut String, table: &NameTable<u64>)
    requires
        table.wf(),
    ensures
        final(report)@ == old(report)@ + count_lines(table.name_seq(), table.value_seq(), table.name_seq().len()),
{
    proof {
        table.lemma_entries();
    }
    let n = table.len();
    let mut i: usize = 0;
    while i < n
        invariant
            table.wf(),
            n == table.name_seq().len(),
            n == table.value_seq().len(),
            i <= n,
            report@ == old(report)@ + count_lines(table.name_seq(), table.value_seq(), i as nat),
        decreases n - i,
    {
        let name = table.name_at(i);
        let count = table.value_at(i);
        report.append("  ");
        report.append(name.as_str());
        report.append(": ");
        push_decimal(report, count);
        report.append("\n");
        assert(report@ =~= old(report)@ + count_lines(table.name_seq(), table.value_seq(), (i + 1) as nat));
        i = i + 1;
    }
}

/// How the system responds to a component's new health.
#[derive(Debug, Clone, Copy, PartialEq, Eq, Structural)]
pub enum FailureResponse {
    /// Nothing to do.
    NoResponse,
    /// An essential component failed: the system must shut down, and a
    /// system error is published.
    ShutdownRequired,
    /// An optional component failed: the system continues degraded.
    ContinueDegraded,
}

/// The response to a component's new health: only a failure calls for one;
/// shutdown for an essential component, degraded operation for an optional
/// one.
pub open spec fn spec_failure_response(essential: Set<Seq<char>>, optional: Set<Seq<char>>, component: Seq<char>, health: ComponentHealth) -> FailureResponse {
    if health != ComponentHealth::Failed {
        FailureResponse::NoResponse
    } else if essential.contains(component) {
        FailureResponse::ShutdownRequired
    } else if optional.contains(component) {
        FailureResponse::ContinueDegraded
    } else {
        FailureResponse::NoResponse
    }
}

/// The response to a component's new health.
pub fn failure_response(degradation: &GracefulDegradation, component: &str, health: ComponentHealth) -> (r: FailureResponse)
    requires
        degradation.wf(),
    ensures
        r == spec_failure_response(degradation.essential(), degradation.optional(), component@, health),
{
    if health != ComponentHealth::Failed {
        FailureResponse::NoResponse
    } else if degradation.should_shutdown_on_failure(component) {
        FailureResponse::ShutdownRequired
    } else if degradation.is_optional_component(component) {
        FailureResponse::ContinueDegraded
    } else {
        FailureResponse::NoResponse
    }
}

/// The error text published when an essential component fails.
pub fn essential_failure_message(component: &str) -> (m: String)
    ensures
        m@ == "Essential component "@ + component@ + " failed"@,
{
    let mut m = "Essential component ".to_owned();
    m.append(component);
    m.append(" failed");
    m
}

/// How a component's line in the health report is logged.
#[derive(Debug, Clone, Copy, PartialEq, Eq, Structural)]
pub enum ReportLevel {
    Debug,
    Warn,
    Error,
}

/// The level of a component's health report line: healthy components at
/// debug level, failed ones as errors, degraded and unknown ones as
/// warnings.
pub open spec fn spec_report_level(h: ComponentHealth) -> ReportLevel {
    match h {
        ComponentHealth::Healthy => ReportLevel::Debug,
        ComponentHealth::Degraded => ReportLevel::Warn,
        ComponentHealth::Failed => ReportLevel::Error,
        ComponentHealth::Unknown => ReportLevel::Warn,
    }
}

/// The level of a component's health report line.
pub fn report_level(h: ComponentHealth) -> (l: ReportLevel)
    ensures
        l == spec_report_level(h),
{
    match h {
        ComponentHealth::Healthy => ReportLevel::Debug,
        ComponentHealth::Degraded => ReportLevel::Warn,
        ComponentHealth::Failed => ReportLevel::Error,
        ComponentHealth::Unknown => ReportLevel::Warn,
    }
}

/// The health of every component and the roles that decide what a failure
/// means for the system.
pub struct SystemHealthManager {
    monitor: HealthMonitor,
    degradation: GracefulDegradation,
}

impl SystemHealthManager {
    #[verifier::type_invariant]
    closed spec fn inv(&self) -> bool {
        self.monitor.wf() && self.degradation.wf()
    }

    /// Health by component.
    pub closed spec fn statuses(&self) -> Map<Seq<char>, ComponentHealth> {
        self.monitor.statuses()
    }

    /// The essential components.
    pub closed spec fn essential(&self) -> Set<Seq<char>> {
        self.degradation.essential()
    }

    /// The optional components.
    pub closed spec fn optional(&self) -> Set<Seq<char>> {
        self.degradation.optional()
    }

    /// No component known; the default essential and optional components.
    pub fn new() -> (m: Self)
        ensures
            m.statuses() == Map::<Seq<char>, ComponentHealth>::empty(),
            m.essential() == default_essential(),
            m.optional() == default_optional(),
    {
        SystemHealthManager { monitor: HealthMonitor::new(), degradation: GracefulDegradation::new() }
    }

    /// Record a component's health, and say what its failure requires: a
    /// shutdown (and a published system error) for an essential component,
    /// degraded operation for an optional one.
    pub fn update_component_health(&mut self, component: &str, health: ComponentHealth) -> (r: FailureResponse)
        ensures
            final(self).statuses() == old(self).statuses().insert(component@, health),
            final(self).essential() == old(self).essential(),
            final(self).optional() == old(self).optional(),
            final(self).last_check() == old(self).last_check(),
            final(self).check_interval() == old(self).check_interval(),
            r == spec_failure_response(old(self).essential(), old(self).optional(), component@, health),
    {
        proof {
            use_type_invariant(&*self);
        }
        let mut monitor = HealthMonitor::new();
        std::mem::swap(&mut monitor, &mut self.monitor);
        monitor.update_component_health(component, health);
        self.monitor = monitor;
        failure_response(&self.degradation, component, health)
    }

    /// Overall health of the system.
    pub fn get_system_health(&self) -> (h: ComponentHealth)
        ensures
            h == spec_system_health(self.statuses()),
    {
        proof {
            use_type_invariant(self);
        }
        self.monitor.get_system_health()
    }

    /// A component's health (unknown when never recorded).
    pub fn get_component_health(&self, component: &str) -> (h: ComponentHealth)
        ensures
            h == spec_health_of(self.statuses(), component@),
    {
        proof {
            use_type_invariant(self);
        }
        self.monitor.get_component_health(component)
    }

    /// Whether an essential component has failed.
    pub fn should_shutdown(&self) -> (b: bool)
        ensures
            b == spec_shutdown_required(self.statuses(), self.essential()),
    {
        proof {
            use_type_invariant(self);
        }
        shutdown_required(&self.monitor, &self.degradation)
    }

    /// When the last health check was completed (or the manager made).
    pub closed spec fn last_check(&self) -> Instant {
        self.monitor.last_check()
    }

    /// The time between health checks.
    pub closed spec fn check_interval(&self) -> Duration {
        self.monitor.check_interval()
    }

    /// Whether a health check is due: the check interval has passed since the
    /// last check, as of the moment of the call.
    pub fn health_check_due(&self) -> (b: bool)
        ensures
            exists|now: Instant| b == duration_ge(#[trigger] instant_since(now, self.last_check()), self.check_interval()),
    {
        let b = self.monitor.should_check_health();
        proof {
            let now = choose|now: Instant|
                b == duration_ge(#[trigger] instant_since(now, self.monitor.last_check()), self.monitor.check_interval());
            assert(b == duration_ge(instant_since(now, self.last_check()), self.check_interval()));
        }
        b
    }

    /// Record a completed health check: the event bus is healthy when a test
    /// event could be published and failed otherwise; the ring buffer is
    /// taken as healthy.
    pub fn record_health_check(&mut self, event_bus_published: bool)
        ensures
            final(self).statuses() == old(self).statuses().insert(
                "event_bus"@,
                if event_bus_published {
                    ComponentHealth::Healthy
                } else {
                    ComponentHealth::Failed
                },
            ).insert("ring_buffer"@, ComponentHealth::Healthy),
            final(self).essential() == old(self).essential(),
            final(self).optional() == old(self).optional(),
            final(self).check_interval() == old(self).check_interval(),
    {
        proof {
            use_type_invariant(&*self);
        }
        let mut monitor = HealthMonitor::new();
        std::mem::swap(&mut monitor, &mut self.monitor);
        let h = if event_bus_published {
            ComponentHealth::Healthy
        } else {
            ComponentHealth::Failed
        };
        monitor.update_component_health("event_bus", h);
        monitor.update_component_health("ring_buffer", ComponentHealth::Healthy);
        monitor.mark_health_check_completed();
        self.monitor = monitor;
    }

    /// The overall health and each component's health, for the periodic
    /// report.
    pub fn health_report(&self) -> (r: (ComponentHealth, NameTable<ComponentHealth>))
        ensures
            r.0 == spec_system_health(self.statuses()),
            r.1.wf(),
            r.1@ == self.statuses(),
    {
        proof {
            use_type_invariant(self);
        }
        (self.monitor.get_system_health(), self.monitor.get_all_component_status().copy())
    }
}


/// How a component's new health is answered: only a failure calls for a
/// response; a failed essential component requires a shutdown, a failed
/// optional component that is not essential lets the system continue
/// degraded.
pub proof fn law_failure_response(essential: Set<Seq<char>>, optional: Set<Seq<char>>, component: Seq<char>, health: ComponentHealth)
    ensures
        health != ComponentHealth::Failed ==> spec_failure_response(essential, optional, component, health)
            == FailureResponse::NoResponse,
        health == ComponentHealth::Failed && essential.contains(component) ==> spec_failure_response(
            essential,
            optional,
            component,
            health,
        ) == FailureResponse::ShutdownRequired,
        health == ComponentHealth::Failed && !essential.contains(component) && optional.contains(component)
            ==> spec_failure_response(essential, optional, component, health) == FailureResponse::ContinueDegraded,
        spec_failure_response(essential, optional, component, health) == FailureResponse::ShutdownRequired ==> (
        health == ComponentHealth::Failed && essential.contains(component)),
{
}

/// Report lines: failed components are errors, healthy ones debug, and
/// degraded or unknown ones warnings.
pub proof fn law_report_levels(h: ComponentHealth)
    ensures
        spec_report_level(h) == ReportLevel::Error <==> h == ComponentHealth::Failed,
        spec_report_level(h) == ReportLevel::Debug <==> h == ComponentHealth::Healthy,
{
}

} // verus!
