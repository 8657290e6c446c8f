//! Lifecycle bookkeeping of the orchestrator: the state of each component,
//! the order in which components start and stop, and what a stop attempt
//! leaves behind.
use crate::error::DoorcamError;
use crate::names::NameTable;
use crate::text::concat;
use vstd::prelude::*;

verus! {

/// Component lifecycle states.
#[derive(Debug, Clone, Copy, PartialEq, Eq, Structural)]
pub enum ComponentState {
    Stopped,
    Starting,
    Running,
    Stopping,
    Failed,
}

/// Why the system shuts down.
#[derive(Debug, Clone)]
pub enum ShutdownReason {
    Signal(String),
    Error(String),
    UserRequest,
    HealthCheck,
}

/// The components that are registered at initialization, in order; the
/// keyboard handler only when it is enabled.
pub open spec fn registered_components(keyboard_enabled: bool) -> Seq<Seq<char>> {
    if keyboard_enabled {
        seq!["camera"@, "analyzer"@, "display"@, "capture"@, "storage"@, "keyboard"@, "streaming"@]
    } else {
        seq!["camera"@, "analyzer"@, "display"@, "capture"@, "storage"@, "streaming"@]
    }
}

/// The order in which components start; the keyboard handler last, and only
/// when it is enabled.
pub open spec fn start_order(keyboard_enabled: bool) -> Seq<Seq<char>> {
    if keyboard_enabled {
        seq!["camera"@, "streaming"@, "analyzer"@, "display"@, "capture"@, "storage"@, "keyboard"@]
    } else {
        seq!["camera"@, "streaming"@, "analyzer"@, "display"@, "capture"@, "storage"@]
    }
}

/// The order in which components stop: against their dependencies, the
/// keyboard handler first when it is enabled, storage last.
pub open spec fn stop_order(keyboard_enabled: bool) -> Seq<Seq<char>> {
    if keyboard_enabled {
        seq!["keyboard"@, "streaming"@, "capture"@, "display"@, "analyzer"@, "camera"@, "storage"@]
    } else {
        seq!["streaming"@, "capture"@, "display"@, "analyzer"@, "camera"@, "storage"@]
    }
}

/// The names of a list of component names.
pub open spec fn name_views(v: Seq<&'static str>) -> Seq<Seq<char>> {
    v.map_values(|s: &'static str| s@)
}

/// A list of static names from `names`.
fn name_list(keyboard_enabled: bool, with: &'static str, without: Vec<&'static str>, at: usize) -> (v: Vec<&'static str>)
    requires
        at <= without@.len(),
    ensures
        keyboard_enabled ==> name_views(v@) == name_views(without@).insert(at as int, with@),
        !keyboard_enabled ==> name_views(v@) == name_views(without@),
{
    let mut v = without;
    if keyboard_enabled {
        let ghost before = v@;
        v.insert(at, with);
        assert(name_views(v@) =~= name_views(before).insert(at as int, with@));
    }
    v
}

/// The components that `ComponentStates::initialize` registers, in order.
pub fn registered_component_names(keyboard_enabled: bool) -> (v: Vec<&'static str>)
    ensures
        name_views(v@) == registered_components(keyboard_enabled),
{
    let v = name_list(
        keyboard_enabled,
        "keyboard",
        vec!["camera", "analyzer", "display", "capture", "storage", "streaming"],
        5,
    );
    proof {
        assert(name_views(seq!["camera", "analyzer", "display", "capture", "storage", "streaming"])
            =~= seq!["camera"@, "analyzer"@, "display"@, "capture"@, "storage"@, "streaming"@]);
        assert(registered_components(keyboard_enabled) =~= name_views(v@));
    }
    v
}

/// The components in the order in which they start.
pub fn startup_sequence(keyboard_enabled: bool) -> (v: Vec<&'static str>)
    ensures
        name_views(v@) == start_order(keyboard_enabled),
{
    let v = name_list(
        keyboard_enabled,
        "keyboard",
        vec!["camera", "streaming", "analyzer", "display", "capture", "storage"],
        6,
    );
    proof {
        assert(name_views(seq!["camera", "streaming", "analyzer", "display", "capture", "storage"])
            =~= seq!["camera"@, "streaming"@, "analyzer"@, "display"@, "capture"@, "storage"@]);
        assert(start_order(keyboard_enabled) =~= name_views(v@));
    }
    v
}

/// The components in the order in which they stop.
pub fn shutdown_sequence(keyboard_enabled: bool) -> (v: Vec<&'static str>)
    ensures
        name_views(v@) == stop_order(keyboard_enabled),
{
    let v = name_list(
        keyboard_enabled,
        "keyboard",
        vec!["streaming", "capture", "display", "analyzer", "camera", "storage"],
        0,
    );
    proof {
        assert(name_views(seq!["streaming", "capture", "display", "analyzer", "camera", "storage"])
            =~= seq!["streaming"@, "capture"@, "display"@, "analyzer"@, "camera"@, "storage"@]);
        assert(stop_order(keyboard_enabled) =~= name_views(v@));
    }
    v
}

/// How an attempt to stop a component ended.
#[derive(Debug)]
pub enum StopOutcome {
    /// The component stopped.
    Stopped,
    /// The component reported an error while stopping.
    Failed(DoorcamError),
    /// The component did not stop within its time limit.
    TimedOut,
}

/// The message of a stop that timed out.
pub open spec fn stop_timeout_message(component: Seq<char>) -> Seq<char> {
    component + " component stop timeout"@
}

/// The exit code of a shutdown: 1 when any component failed to stop, else 0.
pub open spec fn spec_exit_code(stopped: Seq<bool>) -> i32 {
    if exists|i: int| 0 <= i < stopped.len() && !(#[trigger] stopped[i]) {
        1
    } else {
        0
    }
}

/// The exit code of a shutdown, given whether each component stopped.
pub fn shutdown_exit_code(stopped: &Vec<bool>) -> (code: i32)
    ensures
        code == spec_exit_code(stopped@),
{
    let mut i: usize = 0;
    while i < stopped.len()
        invariant
            i <= stopped@.len(),
            forall|j: int| 0 <= j < i ==> #[trigger] stopped@[j],
        decreases stopped@.len() - i,
    {
        if !stopped[i] {
            assert(!stopped@[i as int]);
            return 1;
        }
        i = i + 1;
    }
    0
}

/// The lifecycle state of each component, by name.
#[derive(Debug)]
pub struct ComponentStates {
    states: NameTable<ComponentState>,
}

impl ComponentStates {
    #[verifier::type_invariant]
    closed spec fn inv(&self) -> bool {
        self.states.wf()
    }

    /// The state of each named component.
    pub closed spec fn view(&self) -> Map<Seq<char>, ComponentState> {
        self.states@
    }

    /// No component known yet.
    pub fn new() -> (s: Self)
        ensures
            s.view() == Map::<Seq<char>, ComponentState>::empty(),
    {
        ComponentStates { states: NameTable::new() }
    }

    /// Record the state of a component.
    pub fn set_component_state(&mut self, component: &str, state: ComponentState)
        ensures
            final(self).view() == old(self).view().insert(component@, state),
    {
        proof {
            use_type_invariant(&*self);
        }
        let mut states = NameTable::new();
        std::mem::swap(&mut states, &mut self.states);
        states.set(component, state);
        self.states = states;
    }

    /// The state of a component, if it is known.
    pub fn get_component_state(&self, component: &str) -> (r: Option<ComponentState>)
        ensures
            r == (if self.view().dom().contains(component@) {
                Some(self.view()[component@])
            } else {
                None
            }),
    {
        proof {
            use_type_invariant(self);
        }
        self.states.get(component)
    }

    /// Every known component with its state.
    pub fn get_all_component_states(&self) -> (t: NameTable<ComponentState>)
        ensures
            t.wf(),
            t@ == self.view(),
    {
        proof {
            use_type_invariant(self);
        }
        self.states.copy()
    }

    /// Register the components as stopped (the keyboard handler only when
    /// it is enabled).
    pub fn initialize(&mut self, keyboard_enabled: bool)
        ensures
            forall|k: Seq<char>|
                #![trigger final(self).view().dom().contains(k)]
                registered_components(keyboard_enabled).contains(k) ==> final(self).view().dom().contains(k)
                    && final(self).view()[k] == ComponentState::Stopped,
            forall|k: Seq<char>|
                !registered_components(keyboard_enabled).contains(k) ==> (#[trigger] final(self).view().dom().contains(k)
                    <==> old(self).view().dom().contains(k)) && (old(self).view().dom().contains(k)
                    ==> final(self).view()[k] == old(self).view()[k]),
    {
        let names = registered_component_names(keyboard_enabled);
        let ghost reg = registered_components(keyboard_enabled);
        let ghost start = self.view();
        let mut i: usize = 0;
        while i < names.len()
            invariant
                name_views(names@) == reg,
                i <= names@.len(),
                forall|k: Seq<char>|
                    #![trigger self.view().dom().contains(k)]
                    reg.take(i as int).contains(k) ==> self.view().dom().contains(k) && self.view()[k]
                        == ComponentState::Stopped,
                forall|k: Seq<char>|
                    !reg.take(i as int).contains(k) ==> (#[trigger] self.view().dom().contains(k)
                        <==> start.dom().contains(k)) && (start.dom().contains(k) ==> self.view()[k]
                        == start[k]),
            decreases names@.len() - i,
        {
            let ghost before = self.view();
            self.set_component_state(names[i], ComponentState::Stopped);
            proof {
                let t = reg.take(i as int);
                let t2 = reg.take(i as int + 1);
                let x = reg[i as int];
                assert(names@[i as int]@ == x);
                assert(t2 =~= t.push(x));
                assert forall|k: Seq<char>| t2.contains(k) implies self.view().dom().contains(k)
                    && self.view()[k] == ComponentState::Stopped by {
                    if k != x {
                        let j = choose|j: int| 0 <= j < t2.len() && t2[j] == k;
                        assert(j < i);
                        assert(t[j] == k);
                        assert(t.contains(k));
                        assert(before.dom().contains(k));
                    }
                }
                assert forall|k: Seq<char>| !t2.contains(k) implies (self.view().dom().contains(k)
                    <==> start.dom().contains(k)) && (start.dom().contains(k) ==> self.view()[k]
                    == start[k]) by {
                    assert(t2[i as int] == x);
                    if t.contains(k) {
                        let j = choose|j: int| 0 <= j < t.len() && t[j] == k;
                        assert(t2[j] == k);
                    }
                }
            }
            i = i + 1;
        }
        proof {
            assert(name_views(names@).len() == names@.len());
            assert(reg.take(names@.len() as int) =~= reg);
            assert forall|k: Seq<char>| reg.contains(k) implies self.view().dom().contains(k)
                && self.view()[k] == ComponentState::Stopped by {
                assert(i == names@.len());
                assert(reg.take(i as int).contains(k));
                assert(self.view().dom().contains(k));
            }
        }
    }

    /// Record the outcome of stopping a component: stopped, or failed, with
    /// the error to report (a system error for a stop that timed out).
    pub fn record_stop(&mut self, component: &str, outcome: StopOutcome) -> (r: Result<(), DoorcamError>)
        ensures
            match outcome {
                StopOutcome::Stopped => r is Ok && final(self).view() == old(self).view().insert(
                    component@,
                    ComponentState::Stopped,
                ),
                StopOutcome::Failed(e) => r == Err::<(), DoorcamError>(e) && final(self).view()
                    == old(self).view().insert(component@, ComponentState::Failed),
                StopOutcome::TimedOut => (r matches Err(DoorcamError::System { message }) && message@
                    == stop_timeout_message(component@)) && final(self).view() == old(
                    self,
                ).view().insert(component@, ComponentState::Failed),
            },
    {
        match outcome {
            StopOutcome::Stopped => {
                self.set_component_state(component, ComponentState::Stopped);
                Ok(())
            },
            StopOutcome::Failed(e) => {
                self.set_component_state(component, ComponentState::Failed);
                Err(e)
            },
            StopOutcome::TimedOut => {
                self.set_component_state(component, ComponentState::Failed);
                Err(DoorcamError::System { message: concat(component, " component stop timeout") })
            },
        }
    }
}

/// Every component that is registered is started and stopped, and no
/// component is started or stopped that is not registered.
pub proof fn law_started_components_are_stopped(keyboard_enabled: bool)
    ensures
        start_order(keyboard_enabled).to_set() == registered_components(keyboard_enabled).to_set(),
        stop_order(keyboard_enabled).to_set() == registered_components(keyboard_enabled).to_set(),
        stop_order(keyboard_enabled).len() == start_order(keyboard_enabled).len(),
{
    reveal_strlit("camera");
    reveal_strlit("analyzer");
    reveal_strlit("display");
    reveal_strlit("capture");
    reveal_strlit("storage");
    reveal_strlit("keyboard");
    reveal_strlit("streaming");
    let r = registered_components(keyboard_enabled);
    let a = start_order(keyboard_enabled);
    let b = stop_order(keyboard_enabled);
    assert(a.to_set() =~= r.to_set()) by {
        assert forall|k: Seq<char>| a.contains(k) <==> r.contains(k) by {
            if a.contains(k) {
                let i = choose|i: int| 0 <= i < a.len() && a[i] == k;
            }
            if r.contains(k) {
                let i = choose|i: int| 0 <= i < r.len() && r[i] == k;
            }
        }
    }
    assert(b.to_set() =~= r.to_set()) by {
        assert forall|k: Seq<char>| b.contains(k) <==> r.contains(k) by {
            if b.contains(k) {
                let i = choose|i: int| 0 <= i < b.len() && b[i] == k;
            }
            if r.contains(k) {
                let i = choose|i: int| 0 <= i < r.len() && r[i] == k;
            }
        }
    }
}


/// A shutdown exits with 0 exactly when every component stopped, and with
/// 1 as soon as one did not.
pub proof fn law_exit_code(stopped: Seq<bool>)
    ensures
        spec_exit_code(stopped) == 0 <==> forall|i: int| 0 <= i < stopped.len() ==> #[trigger] stopped[i],
        spec_exit_code(stopped) == 0 || spec_exit_code(stopped) == 1,
        forall|i: int| 0 <= i < stopped.len() && !#[trigger] stopped[i] ==> spec_exit_code(stopped) == 1,
{
}

} // verus!
