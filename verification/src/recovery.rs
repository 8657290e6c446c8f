//! Error recovery policy: retry budgets with exponential backoff per
//! component, camera and touch recovery, component health monitoring and
//! graceful degradation.
use crate::error::{spec_is_recoverable, CameraError, DoorcamError, TouchError};
use crate::names::NameTable;
use crate::opaque::{duration_at_least, duration_from_secs, duration_ge, duration_of_secs, instant_elapsed, instant_now, instant_since};
use std::time::{Duration, Instant};
use vstd::arithmetic::power2::*;
use vstd::prelude::*;

verus! {

/// What to do after an error.
#[derive(Debug, Clone, Copy, PartialEq, Eq, Structural)]
pub enum RecoveryAction {
    /// Retry the operation immediately.
    Retry,
    /// Retry after a delay, in milliseconds.
    RetryAfterDelay(u64),
    /// Continue operation without the failed component.
    Continue,
    /// Shut the system down gracefully.
    Shutdown,
    /// No recovery needed.
    NoAction,
}

/// Retry policy.
#[derive(Debug, Clone, Copy, PartialEq, Eq, Structural)]
pub struct RecoveryConfig {
    /// Maximum number of retry attempts.
    pub max_retries: u32,
    /// Base delay for exponential backoff, in milliseconds.
    pub base_delay_ms: u64,
    /// Maximum delay between retries, in milliseconds.
    pub max_delay_ms: u64,
    /// Whether the delay doubles with each retry.
    pub exponential_backoff: bool,
}

impl Default for RecoveryConfig {
    /// Five retries, starting at one second, doubling up to a minute.
    fn default() -> (c: Self)
        ensures
            c == spec_default_recovery_config(),
    {
        RecoveryConfig {
            max_retries: 5,
            base_delay_ms: 1000,
            max_delay_ms: 60_000,
            exponential_backoff: true,
        }
    }
}

/// The default retry policy.
pub open spec fn spec_default_recovery_config() -> RecoveryConfig {
    RecoveryConfig {
        max_retries: 5,
        base_delay_ms: 1000,
        max_delay_ms: 60_000,
        exponential_backoff: true,
    }
}

/// The delay before retry number `count + 1`: without exponential backoff
/// the base delay, whatever the maximum; under it, the base delay doubled
/// `count` times, capped at the maximum.
pub open spec fn spec_retry_delay(c: RecoveryConfig, count: u32) -> u64 {
    if !c.exponential_backoff {
        c.base_delay_ms
    } else {
        let d = c.base_delay_ms * pow2(count as nat);
        if d > c.max_delay_ms {
            c.max_delay_ms
        } else {
            d as u64
        }
    }
}

/// The delay for `count` can be computed in 64 bits: without exponential
/// backoff always; with it, when `2^count` and the doubled base delay fit.
pub open spec fn delay_defined(c: RecoveryConfig, count: u32) -> bool {
    !c.exponential_backoff || (count < 64 && c.base_delay_ms * pow2(count as nat) <= u64::MAX)
}

/// A component's retry count in a table of counts (0 when absent).
pub open spec fn spec_count(m: Map<Seq<char>, u32>, component: Seq<char>) -> u32 {
    if m.dom().contains(component) {
        m[component]
    } else {
        0
    }
}

/// Components whose loss the system survives once their retries are spent.
pub open spec fn survivable(component: Seq<char>) -> bool {
    component == "camera"@ || component == "display"@ || component == "touch"@ || component
        == "stream"@
}

/// The action for an error of a component, given whether the error is
/// recoverable and the component's retry count: shut down for an
/// unrecoverable error; once the retries are spent, continue without a
/// survivable component and shut down for any other; else retry after the
/// backoff delay.
pub open spec fn spec_action(c: RecoveryConfig, component: Seq<char>, recoverable: bool, count: u32) -> RecoveryAction {
    if !recoverable {
        RecoveryAction::Shutdown
    } else if count >= c.max_retries {
        if survivable(component) {
            RecoveryAction::Continue
        } else {
            RecoveryAction::Shutdown
        }
    } else {
        RecoveryAction::RetryAfterDelay(spec_retry_delay(c, count))
    }
}

/// The retry counts after an error: one more for the component when a retry
/// is scheduled, unchanged otherwise.
pub open spec fn spec_counts_after(c: RecoveryConfig, m: Map<Seq<char>, u32>, component: Seq<char>, recoverable: bool) -> Map<Seq<char>, u32> {
    let count = spec_count(m, component);
    if recoverable && count < c.max_retries {
        m.insert(component, (count + 1) as u32)
    } else {
        m
    }
}

/// Per-component retry bookkeeping.
pub struct RecoveryManager {
    config: RecoveryConfig,
    retry_counts: NameTable<u32>,
}

impl RecoveryManager {
    /// The retry policy.
    pub closed spec fn spec_config(&self) -> RecoveryConfig {
        self.config
    }

    /// Retry counts by component.
    pub closed spec fn counts(&self) -> Map<Seq<char>, u32> {
        self.retry_counts@
    }

    /// Well-formedness.
    pub closed spec fn wf(&self) -> bool {
        self.retry_counts.wf()
    }

    /// A manager with the default policy and no retries counted.
    pub fn new() -> (m: Self)
        ensures
            m.wf(),
            m.spec_config() == spec_default_recovery_config(),
            m.counts() == Map::<Seq<char>, u32>::empty(),
    {
        Self::with_config(RecoveryConfig::default())
    }

    /// A manager with the given policy and no retries counted.
    pub fn with_config(config: RecoveryConfig) -> (m: Self)
        ensures
            m.wf(),
            m.spec_config() == config,
            m.counts() == Map::<Seq<char>, u32>::empty(),
    {
        RecoveryManager { config, retry_counts: NameTable::new() }
    }

    /// The retry policy.
    pub fn config(&self) -> (c: RecoveryConfig)
        ensures
            c == self.spec_config(),
    {
        self.config
    }

    /// The action for an error of a component that is or is not
    /// recoverable, counting a scheduled retry.
    pub fn handle_error_kind(&mut self, component: &str, recoverable: bool) -> (a: RecoveryAction)
        requires
            old(self).wf(),
            spec_count(old(self).counts(), component@) < old(self).spec_config().max_retries
                ==> delay_defined(old(self).spec_config(), spec_count(old(self).counts(), component@)),
        ensures
            final(self).wf(),
            final(self).spec_config() == old(self).spec_config(),
            a == spec_action(old(self).spec_config(), component@, recoverable, spec_count(old(self).counts(), component@)),
            final(self).counts() == spec_counts_after(old(self).spec_config(), old(self).counts(), component@, recoverable),
    {
        let retry_count = match self.retry_counts.get(component) {
            Some(c) => c,
            None => 0,
        };
        if !recoverable {
            return RecoveryAction::Shutdown;
        }
        if retry_count >= self.config.max_retries {
            proof {
                reveal_strlit("camera");
                reveal_strlit("display");
                reveal_strlit("touch");
                reveal_strlit("stream");
            }
            return if is_survivable(component) {
                RecoveryAction::Continue
            } else {
                RecoveryAction::Shutdown
            };
        }
        self.retry_counts.set(component, retry_count + 1);
        let delay = self.calculate_delay(retry_count);
        RecoveryAction::RetryAfterDelay(delay)
    }

    /// The action for an error of a component, counting a scheduled retry.
    pub fn handle_error(&mut self, component: &str, error: &DoorcamError) -> (a: RecoveryAction)
        requires
            old(self).wf(),
            spec_count(old(self).counts(), component@) < old(self).spec_config().max_retries
                ==> delay_defined(old(self).spec_config(), spec_count(old(self).counts(), component@)),
        ensures
            final(self).wf(),
            final(self).spec_config() == old(self).spec_config(),
            a == spec_action(old(self).spec_config(), component@, spec_is_recoverable(*error), spec_count(old(self).counts(), component@)),
            final(self).counts() == spec_counts_after(old(self).spec_config(), old(self).counts(), component@, spec_is_recoverable(*error)),
    {
        let recoverable = error.is_recoverable();
        self.handle_error_kind(component, recoverable)
    }

    /// Forget a component's retries after it recovered.
    pub fn reset_retry_count(&mut self, component: &str)
        requires
            old(self).wf(),
        ensures
            final(self).wf(),
            final(self).spec_config() == old(self).spec_config(),
            final(self).counts() == old(self).counts().remove(component@),
    {
        self.retry_counts.remove(component);
    }

    /// The backoff delay before retry number `retry_count + 1`.
    fn calculate_delay(&self, retry_count: u32) -> (d: u64)
        requires
            delay_defined(self.config, retry_count),
        ensures
            d == spec_retry_delay(self.config, retry_count),
    {
        if !self.config.exponential_backoff {
            return self.config.base_delay_ms;
        }
        let base = self.config.base_delay_ms;
        let mut d: u64 = base;
        let mut i: u32 = 0;
        proof {
            lemma2_to64();
        }
        while i < retry_count
            invariant
                i <= retry_count,
                retry_count < 64,
                d == base * pow2(i as nat),
                base * pow2(retry_count as nat) <= u64::MAX,
            decreases retry_count - i,
        {
            proof {
                lemma_pow2_unfold((i + 1) as nat);
                if i + 1 < retry_count {
                    lemma_pow2_strictly_increases((i + 1) as nat, retry_count as nat);
                }
                let p1 = pow2((i + 1) as nat);
                let pc = pow2(retry_count as nat);
                assert(base * p1 <= base * pc) by (nonlinear_arith)
                    requires
                        p1 <= pc,
                ;
                assert(base * p1 == 2 * (base * pow2(i as nat))) by (nonlinear_arith)
                    requires
                        p1 == 2 * pow2(i as nat),
                ;
            }
            d = d * 2;
            i = i + 1;
        }
        if d > self.config.max_delay_ms {
            self.config.max_delay_ms
        } else {
            d
        }
    }

    /// A component's retry count (0 when none are counted).
    pub fn get_retry_count(&self, component: &str) -> (n: u32)
        requires
            self.wf(),
        ensures
            n == spec_count(self.counts(), component@),
    {
        match self.retry_counts.get(component) {
            Some(c) => c,
            None => 0,
        }
    }

    /// Whether a component has used up its retries.
    pub fn has_exceeded_retry_limit(&self, component: &str) -> (b: bool)
        requires
            self.wf(),
        ensures
            b == (spec_count(self.counts(), component@) >= self.spec_config().max_retries),
    {
        self.get_retry_count(component) >= self.config.max_retries
    }
}

/// Whether a component may be lost once its retries are spent.
fn is_survivable(component: &str) -> (b: bool)
    ensures
        b == survivable(component@),
{
    let c = component.to_owned();
    c == "camera".to_owned() || c == "display".to_owned() || c == "touch".to_owned() || c
        == "stream".to_owned()
}


/// Whether a camera error is recoverable (as a `DoorcamError::Camera`).
pub fn camera_error_recoverable(e: &CameraError) -> (b: bool)
    ensures
        b == spec_is_recoverable(DoorcamError::Camera(*e)),
{
    match e {
        CameraError::Disconnected => true,
        CameraError::DeviceOpen { .. } => true,
        CameraError::DeviceOpenWithSource { .. } => true,
        CameraError::FrameTimeout { .. } => true,
        _ => false,
    }
}

/// Whether a touch error is recoverable (as a `DoorcamError::Touch`).
pub fn touch_error_recoverable(e: &TouchError) -> (b: bool)
    ensures
        b == spec_is_recoverable(DoorcamError::Touch(*e)),
{
    match e {
        TouchError::DeviceOpen { .. } => true,
        TouchError::DeviceRead { .. } => true,
        _ => false,
    }
}

/// Under the default policy every retry delay can be computed.
proof fn lemma_default_delays_defined(count: u32)
    requires
        count < spec_default_recovery_config().max_retries,
    ensures
        delay_defined(spec_default_recovery_config(), count),
{
    lemma2_to64();
}

/// What a recovery loop does after a reconnection attempt.
#[derive(Debug)]
pub enum RecoveryStep {
    /// Stop: recovered, or continuing without the component (`Ok`), or
    /// recovery failed (`Err`).
    Done(Result<(), DoorcamError>),
    /// Wait this many milliseconds, then try again.
    RetryAfter(u64),
    /// Try again at once.
    RetryNow,
}

/// The step a recovery loop takes after an action: wait and retry, retry,
/// or stop (failing only on shutdown).
pub open spec fn spec_step(a: RecoveryAction, component: Seq<char>, attempts: u32, s: RecoveryStep) -> bool {
    match a {
        RecoveryAction::RetryAfterDelay(d) => s == RecoveryStep::RetryAfter(d),
        RecoveryAction::Retry => s == RecoveryStep::RetryNow,
        RecoveryAction::Shutdown => s matches RecoveryStep::Done(Err(DoorcamError::RecoveryFailed { component: c, attempts: n }))
            && c@ == component && n == attempts,
        _ => s matches RecoveryStep::Done(Ok(())),
    }
}

/// The action for a camera error: continue without the camera when it is not
/// available, else the retry policy's action.
pub open spec fn spec_camera_action(counts: Map<Seq<char>, u32>, e: CameraError) -> RecoveryAction {
    if e is NotAvailable {
        RecoveryAction::Continue
    } else {
        spec_action(spec_default_recovery_config(), "camera"@, spec_is_recoverable(DoorcamError::Camera(e)), spec_count(counts, "camera"@))
    }
}

/// The action for a touch error: continue without touch input when it is
/// not available, else the retry policy's action.
pub open spec fn spec_touch_action(counts: Map<Seq<char>, u32>, e: TouchError) -> RecoveryAction {
    if e is NotAvailable {
        RecoveryAction::Continue
    } else {
        spec_action(spec_default_recovery_config(), "touch"@, spec_is_recoverable(DoorcamError::Touch(e)), spec_count(counts, "touch"@))
    }
}

/// Camera recovery: the default retry policy applied to the camera.
pub struct CameraRecovery {
    recovery_manager: RecoveryManager,
}

impl CameraRecovery {
    /// Retry counts by component.
    pub closed spec fn counts(&self) -> Map<Seq<char>, u32> {
        self.recovery_manager.counts()
    }

    /// Well-formedness.
    pub closed spec fn wf(&self) -> bool {
        &&& self.recovery_manager.wf()
        &&& self.recovery_manager.spec_config() == spec_default_recovery_config()
    }

    /// Camera recovery with no retries counted.
    pub fn new() -> (r: Self)
        ensures
            r.wf(),
            r.counts() == Map::<Seq<char>, u32>::empty(),
    {
        CameraRecovery { recovery_manager: RecoveryManager::new() }
    }

    /// The action for a camera error, counting a scheduled retry.
    pub fn handle_camera_error(&mut self, error: &CameraError) -> (a: RecoveryAction)
        requires
            old(self).wf(),
        ensures
            final(self).wf(),
            a == spec_camera_action(old(self).counts(), *error),
            final(self).counts() == spec_counts_after(spec_default_recovery_config(), old(self).counts(), "camera"@, spec_is_recoverable(DoorcamError::Camera(*error))),
    {
        proof {
            let c = spec_count(self.counts(), "camera"@);
            if c < 5 {
                lemma_default_delays_defined(c);
            }
        }
        let recoverable = camera_error_recoverable(error);
        let action = self.recovery_manager.handle_error_kind("camera", recoverable);
        match error {
            CameraError::NotAvailable => RecoveryAction::Continue,
            _ => action,
        }
    }

    /// Forget the camera's retries after it reconnected.
    pub fn reset(&mut self)
        requires
            old(self).wf(),
        ensures
            final(self).wf(),
            final(self).counts() == old(self).counts().remove("camera"@),
    {
        self.recovery_manager.reset_retry_count("camera");
    }

    /// The step of the camera recovery loop after a reconnection attempt:
    /// on success the retries are forgotten and the loop stops; on an error
    /// the action decides.
    pub fn after_reconnect_attempt(&mut self, attempt: Result<(), CameraError>) -> (s: RecoveryStep)
        requires
            old(self).wf(),
        ensures
            final(self).wf(),
            match attempt {
                Ok(()) => final(self).counts() == old(self).counts().remove("camera"@) && s matches RecoveryStep::Done(Ok(())),
                Err(e) => {
                    &&& final(self).counts() == spec_counts_after(spec_default_recovery_config(), old(self).counts(), "camera"@, spec_is_recoverable(DoorcamError::Camera(e)))
                    &&& spec_step(spec_camera_action(old(self).counts(), e), "camera"@, spec_count(final(self).counts(), "camera"@), s)
                },
            },
    {
        match attempt {
            Ok(()) => {
                self.reset();
                RecoveryStep::Done(Ok(()))
            },
            Err(error) => {
                let action = self.handle_camera_error(&error);
                match action {
                    RecoveryAction::RetryAfterDelay(delay) => RecoveryStep::RetryAfter(delay),
                    RecoveryAction::Retry => RecoveryStep::RetryNow,
                    RecoveryAction::Continue => RecoveryStep::Done(Ok(())),
                    RecoveryAction::Shutdown => {
                        let n = self.recovery_manager.get_retry_count("camera");
                        RecoveryStep::Done(Err(DoorcamError::recovery_failed("camera", n)))
                    },
                    RecoveryAction::NoAction => RecoveryStep::Done(Ok(())),
                }
            },
        }
    }
}

/// Touch input recovery: the default retry policy applied to touch input.
pub struct TouchRecovery {
    recovery_manager: RecoveryManager,
}

impl TouchRecovery {
    /// Retry counts by component.
    pub closed spec fn counts(&self) -> Map<Seq<char>, u32> {
        self.recovery_manager.counts()
    }

    /// Well-formedness.
    pub closed spec fn wf(&self) -> bool {
        &&& self.recovery_manager.wf()
        &&& self.recovery_manager.spec_config() == spec_default_recovery_config()
    }

    /// Touch recovery with no retries counted.
    pub fn new() -> (r: Self)
        ensures
            r.wf(),
            r.counts() == Map::<Seq<char>, u32>::empty(),
    {
        TouchRecovery { recovery_manager: RecoveryManager::new() }
    }

    /// The action for a touch error, counting a scheduled retry.
    pub fn handle_touch_error(&mut self, error: &TouchError) -> (a: RecoveryAction)
        requires
            old(self).wf(),
        ensures
            final(self).wf(),
            a == spec_touch_action(old(self).counts(), *error),
            final(self).counts() == spec_counts_after(spec_default_recovery_config(), old(self).counts(), "touch"@, spec_is_recoverable(DoorcamError::Touch(*error))),
    {
        proof {
            let c = spec_count(self.counts(), "touch"@);
            if c < 5 {
                lemma_default_delays_defined(c);
            }
        }
        let recoverable = touch_error_recoverable(error);
        let action = self.recovery_manager.handle_error_kind("touch", recoverable);
        match error {
            TouchError::NotAvailable => RecoveryAction::Continue,
            _ => action,
        }
    }

    /// Forget the touch input's retries after it reconnected.
    pub fn reset(&mut self)
        requires
            old(self).wf(),
        ensures
            final(self).wf(),
            final(self).counts() == old(self).counts().remove("touch"@),
    {
        self.recovery_manager.reset_retry_count("touch");
    }

    /// The step of the touch recovery loop after a reconnection attempt.
    pub fn after_reconnect_attempt(&mut self, attempt: Result<(), TouchError>) -> (s: RecoveryStep)
        requires
            old(self).wf(),
        ensures
            final(self).wf(),
            match attempt {
                Ok(()) => final(self).counts() == old(self).counts().remove("touch"@) && s matches RecoveryStep::Done(Ok(())),
                Err(e) => {
                    &&& final(self).counts() == spec_counts_after(spec_default_recovery_config(), old(self).counts(), "touch"@, spec_is_recoverable(DoorcamError::Touch(e)))
                    &&& spec_step(spec_touch_action(old(self).counts(), e), "touch"@, spec_count(final(self).counts(), "touch"@), s)
                },
            },
    {
        match attempt {
            Ok(()) => {
                self.reset();
                RecoveryStep::Done(Ok(()))
            },
            Err(error) => {
                let action = self.handle_touch_error(&error);
                match action {
                    RecoveryAction::RetryAfterDelay(delay) => RecoveryStep::RetryAfter(delay),
                    RecoveryAction::Retry => RecoveryStep::RetryNow,
                    RecoveryAction::Continue => RecoveryStep::Done(Ok(())),
                    RecoveryAction::Shutdown => {
                        let n = self.recovery_manager.get_retry_count("touch");
                        RecoveryStep::Done(Err(DoorcamError::recovery_failed("touch", n)))
                    },
                    RecoveryAction::NoAction => RecoveryStep::Done(Ok(())),
                }
            },
        }
    }
}


/// Health of a component.
#[derive(Debug, Clone, Copy, PartialEq, Eq, Structural)]
pub enum ComponentHealth {
    Healthy,
    Degraded,
    Failed,
    Unknown,
}

/// The health of a component in a table (unknown when absent).
pub open spec fn spec_health_of(m: Map<Seq<char>, ComponentHealth>, component: Seq<char>) -> ComponentHealth {
    if m.dom().contains(component) {
        m[component]
    } else {
        ComponentHealth::Unknown
    }
}

/// Whether some component has health `h`.
pub open spec fn some_component_is(m: Map<Seq<char>, ComponentHealth>, h: ComponentHealth) -> bool {
    exists|k: Seq<char>| #[trigger] m.dom().contains(k) && m[k] == h
}

/// Overall health: unknown when no component is known, failed when one has
/// failed, degraded when one is degraded or unknown, else healthy.
pub open spec fn spec_system_health(m: Map<Seq<char>, ComponentHealth>) -> ComponentHealth {
    if m.dom().len() == 0 {
        ComponentHealth::Unknown
    } else if some_component_is(m, ComponentHealth::Failed) {
        ComponentHealth::Failed
    } else if some_component_is(m, ComponentHealth::Degraded) || some_component_is(
        m,
        ComponentHealth::Unknown,
    ) {
        ComponentHealth::Degraded
    } else {
        ComponentHealth::Healthy
    }
}

/// Health of each component and when it was last checked.
pub struct HealthMonitor {
    component_status: NameTable<ComponentHealth>,
    last_health_check: Instant,
    health_check_interval: Duration,
}

impl HealthMonitor {
    /// Health by component.
    pub closed spec fn statuses(&self) -> Map<Seq<char>, ComponentHealth> {
        self.component_status@
    }

    /// Well-formedness.
    pub closed spec fn wf(&self) -> bool {
        self.component_status.wf()
    }

    /// A monitor that knows no component, checked now, due every 30 seconds.
    pub fn new() -> (m: Self)
        ensures
            m.wf(),
            m.statuses() == Map::<Seq<char>, ComponentHealth>::empty(),
            m.check_interval() == duration_of_secs(30),
    {
        HealthMonitor {
            component_status: NameTable::new(),
            last_health_check: instant_now(),
            health_check_interval: duration_from_secs(30),
        }
    }

    /// Record a component's health.
    pub fn update_component_health(&mut self, component: &str, health: ComponentHealth)
        requires
            old(self).wf(),
        ensures
            final(self).wf(),
            final(self).statuses() == old(self).statuses().insert(component@, health),
            final(self).last_check() == old(self).last_check(),
            final(self).check_interval() == old(self).check_interval(),
    {
        self.component_status.set(component, health);
    }

    /// A component's health (unknown when never recorded).
    pub fn get_component_health(&self, component: &str) -> (h: ComponentHealth)
        requires
            self.wf(),
        ensures
            h == spec_health_of(self.statuses(), component@),
    {
        match self.component_status.get(component) {
            Some(h) => h,
            None => ComponentHealth::Unknown,
        }
    }

    /// Overall health of the system.
    pub fn get_system_health(&self) -> (h: ComponentHealth)
        requires
            self.wf(),
        ensures
            h == spec_system_health(self.statuses()),
    {
        proof {
            self.component_status.lemma_entries();
        }
        let n = self.component_status.len();
        if n == 0 {
            return ComponentHealth::Unknown;
        }
        let ghost names = self.component_status.name_seq();
        let ghost values = self.component_status.value_seq();
        let mut has_failed = false;
        let mut has_degraded = false;
        let mut i: usize = 0;
        while i < n
            invariant
                self.wf(),
                n == names.len(),
                names == self.component_status.name_seq(),
                values == self.component_status.value_seq(),
                names.len() == values.len(),
                i <= n,
                has_failed == exists|j: int| 0 <= j < i && values[j] == ComponentHealth::Failed,
                has_degraded == exists|j: int|
                    0 <= j < i && (values[j] == ComponentHealth::Degraded || values[j]
                        == ComponentHealth::Unknown),
            decreases n - i,
        {
            let h = self.component_status.value_at(i);
            match h {
                ComponentHealth::Failed => {
                    has_failed = true;
                },
                ComponentHealth::Degraded => {
                    has_degraded = true;
                },
                ComponentHealth::Unknown => {
                    has_degraded = true;
                },
                ComponentHealth::Healthy => {},
            }
            i = i + 1;
        }
        proof {
            self.component_status.lemma_entries();
            let m = self.statuses();
            if has_failed {
                let j = choose|j: int| 0 <= j < n && values[j] == ComponentHealth::Failed;
                assert(m.dom().contains(names[j]));
            } else {
                assert forall|k: Seq<char>| #[trigger] m.dom().contains(k) implies m[k]
                    != ComponentHealth::Failed by {
                    let j = choose|j: int| 0 <= j < names.len() && names[j] == k;
                    assert(m[names[j]] == values[j]);
                }
            }
            if has_degraded {
                let j = choose|j: int|
                    0 <= j < n && (values[j] == ComponentHealth::Degraded || values[j]
                        == ComponentHealth::Unknown);
                assert(m.dom().contains(names[j]));
            } else {
                assert forall|k: Seq<char>| #[trigger] m.dom().contains(k) implies m[k]
                    != ComponentHealth::Degraded && m[k] != ComponentHealth::Unknown by {
                    let j = choose|j: int| 0 <= j < names.len() && names[j] == k;
                    assert(m[names[j]] == values[j]);
                }
            }
        }
        if has_failed {
            ComponentHealth::Failed
        } else if has_degraded {
            ComponentHealth::Degraded
        } else {
            ComponentHealth::Healthy
        }
    }

    /// The time between health checks: 30 seconds.
    pub closed spec fn check_interval(&self) -> Duration {
        self.health_check_interval
    }

    /// When the last health check was completed (or the monitor made).
    pub closed spec fn last_check(&self) -> Instant {
        self.last_health_check
    }

    /// Whether a health check is due: the check interval has passed since the
    /// last check, as of the moment of the call.
    pub fn should_check_health(&self) -> (b: bool)
        ensures
            exists|now: Instant| b == duration_ge(#[trigger] instant_since(now, self.last_check()), self.check_interval()),
    {
        let elapsed = instant_elapsed(&self.last_health_check);
        let b = duration_at_least(&elapsed, &self.health_check_interval);
        proof {
            let now = choose|now: Instant| elapsed == #[trigger] instant_since(now, self.last_health_check);
            assert(b == duration_ge(instant_since(now, self.last_check()), self.check_interval()));
        }
        b
    }

    /// Note that a health check was just completed: the last check becomes
    /// the current instant; the interval and the statuses stay.
    pub fn mark_health_check_completed(&mut self)
        requires
            old(self).wf(),
        ensures
            final(self).wf(),
            final(self).statuses() == old(self).statuses(),
            final(self).check_interval() == old(self).check_interval(),
    {
        self.last_health_check = instant_now();
    }

    /// The health of every component.
    pub fn get_all_component_status(&self) -> (t: &NameTable<ComponentHealth>)
        requires
            self.wf(),
        ensures
            t.wf(),
            t@ == self.statuses(),
    {
        &self.component_status
    }
}

/// Which components the system needs and which it can do without.
pub struct GracefulDegradation {
    essential_components: NameTable<()>,
    optional_components: NameTable<()>,
}

/// The components the system cannot run without.
pub open spec fn default_essential() -> Set<Seq<char>> {
    set!["ring_buffer"@, "event_bus"@]
}

/// The components the system can run without.
pub open spec fn default_optional() -> Set<Seq<char>> {
    set!["camera"@, "display"@, "touch"@, "stream"@, "analyzer"@, "capture"@]
}

impl GracefulDegradation {
    /// Essential component names.
    pub closed spec fn essential(&self) -> Set<Seq<char>> {
        self.essential_components@.dom()
    }

    /// Optional component names.
    pub closed spec fn optional(&self) -> Set<Seq<char>> {
        self.optional_components@.dom()
    }

    /// Well-formedness.
    pub closed spec fn wf(&self) -> bool {
        self.essential_components.wf() && self.optional_components.wf()
    }

    /// The ring buffer and event bus are essential; camera, display, touch,
    /// stream, analyzer and capture are optional.
    pub fn new() -> (g: Self)
        ensures
            g.wf(),
            g.essential() == default_essential(),
            g.optional() == default_optional(),
    {
        let mut essential = NameTable::new();
        essential.set("ring_buffer", ());
        essential.set("event_bus", ());
        let mut optional = NameTable::new();
        optional.set("camera", ());
        optional.set("display", ());
        optional.set("touch", ());
        optional.set("stream", ());
        optional.set("analyzer", ());
        optional.set("capture", ());
        let g = GracefulDegradation { essential_components: essential, optional_components: optional };
        assert(g.essential() =~= default_essential());
        assert(g.optional() =~= default_optional());
        g
    }

    /// Whether the failure of a component requires a shutdown: it does for
    /// an essential component.
    pub fn should_shutdown_on_failure(&self, component: &str) -> (b: bool)
        requires
            self.wf(),
        ensures
            b == self.essential().contains(component@),
    {
        self.essential_components.get(component).is_some()
    }

    /// Whether a component is optional.
    pub fn is_optional_component(&self, component: &str) -> (b: bool)
        requires
            self.wf(),
        ensures
            b == self.optional().contains(component@),
    {
        self.optional_components.get(component).is_some()
    }

    /// Make a component essential.
    pub fn add_essential_component(&mut self, component: String)
        requires
            old(self).wf(),
        ensures
            final(self).wf(),
            final(self).essential() == old(self).essential().insert(component@),
            final(self).optional() == old(self).optional(),
    {
        self.essential_components.set(component.as_str(), ());
        assert(self.essential() =~= old(self).essential().insert(component@));
    }

    /// Make a component optional.
    pub fn add_optional_component(&mut self, component: String)
        requires
            old(self).wf(),
        ensures
            final(self).wf(),
            final(self).optional() == old(self).optional().insert(component@),
            final(self).essential() == old(self).essential(),
    {
        self.optional_components.set(component.as_str(), ());
        assert(self.optional() =~= old(self).optional().insert(component@));
    }
}

/// Whether the system must shut down: some essential component has failed.
pub open spec fn spec_shutdown_required(statuses: Map<Seq<char>, ComponentHealth>, essential: Set<Seq<char>>) -> bool {
    exists|k: Seq<char>| #[trigger] statuses.dom().contains(k) && statuses[k] == ComponentHealth::Failed && essential.contains(k)
}

/// Whether the system must shut down because an essential component failed.
pub fn shutdown_required(monitor: &HealthMonitor, degradation: &GracefulDegradation) -> (b: bool)
    requires
        monitor.wf(),
        degradation.wf(),
    ensures
        b == spec_shutdown_required(monitor.statuses(), degradation.essential()),
{
    let table = monitor.get_all_component_status();
    proof {
        table.lemma_entries();
    }
    let n = table.len();
    let ghost names = table.name_seq();
    let ghost values = table.value_seq();
    let mut i: usize = 0;
    while i < n
        invariant
            table.wf(),
            table@ == monitor.statuses(),
            degradation.wf(),
            n == names.len(),
            names == table.name_seq(),
            values == table.value_seq(),
            names.len() == values.len(),
            i <= n,
            forall|j: int| 0 <= j < i ==> !(values[j] == ComponentHealth::Failed && degradation.essential().contains(names[j])),
        decreases n - i,
    {
        let h = table.value_at(i);
        if h == ComponentHealth::Failed {
            let name = table.name_at(i);
            if degradation.should_shutdown_on_failure(name.as_str()) {
                proof {
                    table.lemma_entries();
                    assert(table@.dom().contains(names[i as int]));
                    assert(table@[names[i as int]] == values[i as int]);
                    assert(values[i as int] == ComponentHealth::Failed);
                    assert(name@ == names[i as int]);
                    assert(monitor.statuses().dom().contains(names[i as int]) && monitor.statuses()[names[i as int]] == ComponentHealth::Failed && degradation.essential().contains(names[i as int]));
                }
                return true;
            }
        }
        i = i + 1;
    }
    proof {
        table.lemma_entries();
        let m = table@;
        assert forall|k: Seq<char>| #[trigger] m.dom().contains(k) implies !(m[k] == ComponentHealth::Failed && degradation.essential().contains(k)) by {
            let j = choose|j: int| 0 <= j < names.len() && names[j] == k;
            assert(m[names[j]] == values[j]);
        }
    }
    false
}

/// Retry counts stay within the retry budget: when every count is at most
/// `max_retries`, so is every count after handling another error.
pub proof fn law_retry_count_bounded(c: RecoveryConfig, m: Map<Seq<char>, u32>, component: Seq<char>, recoverable: bool)
    requires
        forall|k: Seq<char>| #[trigger] m.dom().contains(k) ==> m[k] <= c.max_retries,
    ensures
        forall|k: Seq<char>|
            #[trigger] spec_counts_after(c, m, component, recoverable).dom().contains(k) ==> spec_counts_after(
                c,
                m,
                component,
                recoverable,
            )[k] <= c.max_retries,
{
}

/// A reset forgets a component's retries: its count is 0 afterwards, and
/// the counts of the other components are unchanged.
pub proof fn law_reset_forgets(m: Map<Seq<char>, u32>, component: Seq<char>, other: Seq<char>)
    requires
        other != component,
    ensures
        spec_count(m.remove(component), component) == 0,
        spec_count(m.remove(component), other) == spec_count(m, other),
{
}

/// The retry counts after `n` recoverable errors of one component, starting
/// from `m`.
pub open spec fn counts_after_errors(c: RecoveryConfig, m: Map<Seq<char>, u32>, component: Seq<char>, n: nat) -> Map<
    Seq<char>,
    u32,
>
    decreases n,
{
    if n == 0 {
        m
    } else {
        spec_counts_after(c, counts_after_errors(c, m, component, (n - 1) as nat), component, true)
    }
}

/// After `n` recoverable errors of a component with no retries counted (a
/// new manager, or one just reset for it), its count is `n`, but never more
/// than `max_retries`; and it has used up its retries exactly when `n` has
/// reached `max_retries`.
pub proof fn law_count_after_errors(c: RecoveryConfig, component: Seq<char>, n: nat)
    ensures
        spec_count(counts_after_errors(c, Map::empty(), component, n), component) == if n < c.max_retries {
            n
        } else {
            c.max_retries as nat
        },
        (spec_count(counts_after_errors(c, Map::empty(), component, n), component) >= c.max_retries) <==> n
            >= c.max_retries,
    decreases n,
{
    if n > 0 {
        law_count_after_errors(c, component, (n - 1) as nat);
    }
}

/// A run of recoverable errors of one component on a manager: from a
/// manager with no retries counted for the component (a new one, or one just
/// reset for it), each next state is what `handle_error` leaves after a
/// recoverable error of that component, with no reset in between. After `n`
/// such calls the component's retry count is `min(n, max_retries)`, and it
/// has exceeded its retry limit exactly when `n >= max_retries`.
pub proof fn law_retry_count_over_calls(ms: Seq<RecoveryManager>, component: Seq<char>)
    requires
        ms.len() >= 1,
        spec_count(ms[0].counts(), component) == 0,
        forall|i: int|
            0 <= i < ms.len() - 1 ==> (#[trigger] ms[i + 1]).spec_config() == ms[i].spec_config() && ms[i
                + 1].counts() == spec_counts_after(ms[i].spec_config(), ms[i].counts(), component, true),
    ensures
        spec_count(ms.last().counts(), component) == if ms.len() - 1 < ms[0].spec_config().max_retries {
            (ms.len() - 1) as nat
        } else {
            ms[0].spec_config().max_retries as nat
        },
        (spec_count(ms.last().counts(), component) >= ms.last().spec_config().max_retries) <==> ms.len() - 1
            >= ms[0].spec_config().max_retries,
    decreases ms.len(),
{
    let c = ms[0].spec_config();
    if ms.len() > 1 {
        let prefix = ms.drop_last();
        assert forall|i: int| 0 <= i < prefix.len() - 1 implies (#[trigger] prefix[i + 1]).spec_config()
            == prefix[i].spec_config() && prefix[i + 1].counts() == spec_counts_after(
            prefix[i].spec_config(),
            prefix[i].counts(),
            component,
            true,
        ) by {
            assert(ms[i + 1].spec_config() == ms[i].spec_config());
        }
        law_retry_count_over_calls(prefix, component);
        let k = ms.len() - 2;
        assert(ms[k + 1].spec_config() == ms[k].spec_config());
        assert(prefix.last() == ms[k]);
        lemma_config_constant(ms, component, k);
    }
}

/// Along such a run the policy does not change.
proof fn lemma_config_constant(ms: Seq<RecoveryManager>, component: Seq<char>, k: int)
    requires
        0 <= k < ms.len(),
        forall|i: int|
            0 <= i < ms.len() - 1 ==> (#[trigger] ms[i + 1]).spec_config() == ms[i].spec_config() && ms[i
                + 1].counts() == spec_counts_after(ms[i].spec_config(), ms[i].counts(), component, true),
    ensures
        ms[k].spec_config() == ms[0].spec_config(),
    decreases k,
{
    if k > 0 {
        let j = k - 1;
        lemma_config_constant(ms, component, j);
        assert(ms[j + 1].spec_config() == ms[j].spec_config());
    }
}

/// Once a survivable component has had `max_retries` recoverable errors,
/// the next one is answered by continuing without it (and an essential
/// component by a shutdown): no further retry is scheduled.
pub proof fn law_spent_retries_continue(c: RecoveryConfig, component: Seq<char>, n: nat)
    requires
        n >= c.max_retries,
    ensures
        spec_action(c, component, true, spec_count(counts_after_errors(c, Map::empty(), component, n), component))
            == if survivable(component) {
            RecoveryAction::Continue
        } else {
            RecoveryAction::Shutdown
        },
{
    law_count_after_errors(c, component, n);
}

/// Under exponential backoff the delay never exceeds the maximum delay, and
/// it never shrinks as the retry count grows.
pub proof fn law_backoff_delay_bounded_and_growing(c: RecoveryConfig, a: u32, b: u32)
    requires
        c.exponential_backoff,
        a <= b,
        delay_defined(c, a),
        delay_defined(c, b),
    ensures
        spec_retry_delay(c, a) <= c.max_delay_ms,
        spec_retry_delay(c, b) <= c.max_delay_ms,
        spec_retry_delay(c, a) <= spec_retry_delay(c, b),
{
    if a < b {
        lemma_pow2_strictly_increases(a as nat, b as nat);
    }
    let pa = pow2(a as nat);
    let pb = pow2(b as nat);
    assert(c.base_delay_ms * pa <= c.base_delay_ms * pb) by (nonlinear_arith)
        requires
            pa <= pb,
    ;
}

/// One failed component makes the whole system failed.
pub proof fn law_failed_component_fails_system(m: Map<Seq<char>, ComponentHealth>, component: Seq<char>)
    requires
        m.dom().finite(),
    ensures
        spec_system_health(m.insert(component, ComponentHealth::Failed)) == ComponentHealth::Failed,
{
    let m2 = m.insert(component, ComponentHealth::Failed);
    assert(m2.dom().contains(component));
    assert(m2.dom().finite());
    vstd::set_lib::lemma_set_empty_equivalency_len(m2.dom());
    assert(some_component_is(m2, ComponentHealth::Failed));
}

/// By default no component is both essential and optional.
pub proof fn law_default_roles_disjoint()
    ensures
        default_essential().disjoint(default_optional()),
{
    reveal_strlit("ring_buffer");
    reveal_strlit("event_bus");
    reveal_strlit("camera");
    reveal_strlit("display");
    reveal_strlit("touch");
    reveal_strlit("stream");
    reveal_strlit("analyzer");
    reveal_strlit("capture");
    assert forall|k: Seq<char>| default_essential().contains(k) implies !default_optional().contains(k) by {
        if k == "ring_buffer"@ {
            assert(k[0] == 'r');
        } else {
            assert(k[0] == 'e');
        }
    }
}


/// What a recoverable error is answered with once a component's retries
/// are spent: the system goes on without the camera, the display, touch
/// input or the stream server, and shuts down for any other component.
pub proof fn law_spent_retries_by_component(c: RecoveryConfig, component: Seq<char>, count: u32)
    requires
        count >= c.max_retries,
    ensures
        component == "camera"@ ==> spec_action(c, component, true, count) == RecoveryAction::Continue,
        component == "display"@ ==> spec_action(c, component, true, count) == RecoveryAction::Continue,
        component == "touch"@ ==> spec_action(c, component, true, count) == RecoveryAction::Continue,
        component == "stream"@ ==> spec_action(c, component, true, count) == RecoveryAction::Continue,
        component != "camera"@ && component != "display"@ && component != "touch"@ && component != "stream"@
            ==> spec_action(c, component, true, count) == RecoveryAction::Shutdown,
{
}


/// Without exponential backoff every retry waits the base delay; with it
/// the first retry waits the base delay (when that is within the maximum)
/// and the delay doubles with each retry until it reaches the maximum.
pub proof fn law_retry_delays(c: RecoveryConfig, count: u32)
    ensures
        !c.exponential_backoff ==> spec_retry_delay(c, count) == c.base_delay_ms,
        c.exponential_backoff && c.base_delay_ms <= c.max_delay_ms ==> spec_retry_delay(c, 0) == c.base_delay_ms,
        c.exponential_backoff && delay_defined(c, count) && delay_defined(c, (count + 1) as u32) && count < u32::MAX
            && 2 * spec_retry_delay(c, count) <= c.max_delay_ms ==> spec_retry_delay(c, (count + 1) as u32) == 2
            * spec_retry_delay(c, count),
{
    lemma_pow2_unfold(1);
    lemma2_to64();
    if c.exponential_backoff && delay_defined(c, count) && delay_defined(c, (count + 1) as u32) && count < u32::MAX {
        lemma_pow2_unfold((count + 1) as nat);
        let p = pow2(count as nat);
        assert(c.base_delay_ms * (2 * p) == 2 * (c.base_delay_ms * p)) by (nonlinear_arith);
    }
}

/// The system is healthy exactly when some component is known and every
/// known component is healthy; it is failed exactly when a component has
/// failed.
pub proof fn law_system_health(m: Map<Seq<char>, ComponentHealth>)
    requires
        m.dom().finite(),
    ensures
        spec_system_health(m) == ComponentHealth::Healthy <==> (m.dom().len() > 0 && forall|k: Seq<char>|
            #[trigger] m.dom().contains(k) ==> m[k] == ComponentHealth::Healthy),
        m.dom().len() > 0 ==> (spec_system_health(m) == ComponentHealth::Failed <==> exists|k: Seq<char>|
            #[trigger] m.dom().contains(k) && m[k] == ComponentHealth::Failed),
{
    if m.dom().len() > 0 {
        if forall|k: Seq<char>| #[trigger] m.dom().contains(k) ==> m[k] == ComponentHealth::Healthy {
            assert(!some_component_is(m, ComponentHealth::Failed));
            assert(!some_component_is(m, ComponentHealth::Degraded));
            assert(!some_component_is(m, ComponentHealth::Unknown));
        }
    }
}

} // verus!
