//! Events exchanged between the components, event filters, event metrics
//! and a bounded event history for debugging.
use crate::error::EventBusError;
use crate::names::NameTable;
use crate::text::{decimal, push_decimal};
use crate::opaque::{system_time_now, time_before, time_ge, time_minus, time_not_before};
use std::time::{Duration, SystemTime};
use vstd::prelude::*;

verus! {

/// Events of the door camera.
///
/// The contour area of a motion is a real number; it is held as the bits
/// of its `f64` value (`f64::to_bits`).
#[derive(Debug, Clone)]
pub enum DoorcamEvent {
    /// Motion was detected in the camera feed.
    MotionDetected { contour_area_bits: u64, timestamp: SystemTime },
    /// A new frame is ready in the ring buffer.
    FrameReady { frame_id: u64, timestamp: SystemTime },
    /// Touch input was detected on the display.
    TouchDetected { timestamp: SystemTime },
    /// Video capture started for a motion event.
    CaptureStarted { event_id: String },
    /// Video capture completed.
    CaptureCompleted { event_id: String, file_count: u32 },
    /// A system error occurred in a component.
    SystemError { component: String, error: String },
    /// Display activation requested.
    DisplayActivate { timestamp: SystemTime, duration_seconds: u32 },
    /// Display deactivation requested.
    DisplayDeactivate { timestamp: SystemTime },
    /// Camera connection status changed.
    CameraStatusChanged { connected: bool, timestamp: SystemTime },
    /// System shutdown requested.
    ShutdownRequested { timestamp: SystemTime, reason: String },
}

/// The type name of an event, used for filtering.
pub open spec fn spec_event_type(e: DoorcamEvent) -> Seq<char> {
    match e {
        DoorcamEvent::MotionDetected { .. } => "motion_detected"@,
        DoorcamEvent::FrameReady { .. } => "frame_ready"@,
        DoorcamEvent::TouchDetected { .. } => "touch_detected"@,
        DoorcamEvent::CaptureStarted { .. } => "capture_started"@,
        DoorcamEvent::CaptureCompleted { .. } => "capture_completed"@,
        DoorcamEvent::SystemError { .. } => "system_error"@,
        DoorcamEvent::DisplayActivate { .. } => "display_activate"@,
        DoorcamEvent::DisplayDeactivate { .. } => "display_deactivate"@,
        DoorcamEvent::CameraStatusChanged { .. } => "camera_status_changed"@,
        DoorcamEvent::ShutdownRequested { .. } => "shutdown_requested"@,
    }
}

/// Whether an event carries its own timestamp (the others are stamped when
/// asked).
pub open spec fn has_own_timestamp(e: DoorcamEvent) -> bool {
    !(e is CaptureStarted || e is CaptureCompleted || e is SystemError)
}

/// The timestamp an event carries.
pub open spec fn own_timestamp(e: DoorcamEvent) -> SystemTime
    recommends
        has_own_timestamp(e),
{
    match e {
        DoorcamEvent::MotionDetected { timestamp, .. } => timestamp,
        DoorcamEvent::FrameReady { timestamp, .. } => timestamp,
        DoorcamEvent::TouchDetected { timestamp } => timestamp,
        DoorcamEvent::DisplayActivate { timestamp, .. } => timestamp,
        DoorcamEvent::DisplayDeactivate { timestamp } => timestamp,
        DoorcamEvent::CameraStatusChanged { timestamp, .. } => timestamp,
        DoorcamEvent::ShutdownRequested { timestamp, .. } => timestamp,
        _ => arbitrary(),
    }
}

impl DoorcamEvent {
    /// The event's timestamp; events without one are stamped now.
    pub fn timestamp(&self) -> (t: SystemTime)
        ensures
            has_own_timestamp(*self) ==> t == own_timestamp(*self),
    {
        match self {
            DoorcamEvent::MotionDetected { timestamp, .. } => *timestamp,
            DoorcamEvent::FrameReady { timestamp, .. } => *timestamp,
            DoorcamEvent::TouchDetected { timestamp } => *timestamp,
            DoorcamEvent::CaptureStarted { .. } => system_time_now(),
            DoorcamEvent::CaptureCompleted { .. } => system_time_now(),
            DoorcamEvent::SystemError { .. } => system_time_now(),
            DoorcamEvent::DisplayActivate { timestamp, .. } => *timestamp,
            DoorcamEvent::DisplayDeactivate { timestamp } => *timestamp,
            DoorcamEvent::CameraStatusChanged { timestamp, .. } => *timestamp,
            DoorcamEvent::ShutdownRequested { timestamp, .. } => *timestamp,
        }
    }

    /// The event's type name.
    pub fn event_type(&self) -> (s: &'static str)
        ensures
            s@ == spec_event_type(*self),
    {
        match self {
            DoorcamEvent::MotionDetected { .. } => "motion_detected",
            DoorcamEvent::FrameReady { .. } => "frame_ready",
            DoorcamEvent::TouchDetected { .. } => "touch_detected",
            DoorcamEvent::CaptureStarted { .. } => "capture_started",
            DoorcamEvent::CaptureCompleted { .. } => "capture_completed",
            DoorcamEvent::SystemError { .. } => "system_error",
            DoorcamEvent::DisplayActivate { .. } => "display_activate",
            DoorcamEvent::DisplayDeactivate { .. } => "display_deactivate",
            DoorcamEvent::CameraStatusChanged { .. } => "camera_status_changed",
            DoorcamEvent::ShutdownRequested { .. } => "shutdown_requested",
        }
    }
}

/// Selects events.
#[derive(Debug, Clone)]
pub enum EventFilter {
    /// Every event.
    All,
    /// Events of the listed types.
    EventTypes(Vec<&'static str>),
    /// System errors of the listed components.
    Components(Vec<String>),
}

/// Whether a type name is among `types`.
pub open spec fn type_listed(types: Seq<&'static str>, ty: Seq<char>) -> bool {
    exists|i: int| 0 <= i < types.len() && (#[trigger] types[i])@ == ty
}

/// Whether a component name is among `components`.
pub open spec fn component_listed(components: Seq<String>, c: Seq<char>) -> bool {
    exists|i: int| 0 <= i < components.len() && (#[trigger] components[i])@ == c
}

/// Whether a filter selects an event.
pub open spec fn spec_matches(f: EventFilter, e: DoorcamEvent) -> bool {
    match f {
        EventFilter::All => true,
        EventFilter::EventTypes(types) => type_listed(types@, spec_event_type(e)),
        EventFilter::Components(components) => match e {
            DoorcamEvent::SystemError { component, .. } => component_listed(components@, component@),
            _ => false,
        },
    }
}

impl EventFilter {
    /// Whether this filter selects the event.
    pub fn matches(&self, event: &DoorcamEvent) -> (b: bool)
        ensures
            b == spec_matches(*self, *event),
    {
        match self {
            EventFilter::All => true,
            EventFilter::EventTypes(types) => {
                let t = event.event_type().to_owned();
                let mut i: usize = 0;
                while i < types.len()
                    invariant
                        i <= types@.len(),
                        *self == EventFilter::EventTypes(*types),
                        t@ == spec_event_type(*event),
                        forall|j: int| 0 <= j < i ==> (#[trigger] types@[j])@ != spec_event_type(*event),
                    decreases types@.len() - i,
                {
                    let candidate = types[i].to_owned();
                    if candidate == t {
                        assert((types@[i as int])@ == spec_event_type(*event));
                        assert(type_listed(types@, spec_event_type(*event)));
                        return true;
                    }
                    i = i + 1;
                }
                false
            },
            EventFilter::Components(components) => match event {
                DoorcamEvent::SystemError { component, .. } => {
                    let mut i: usize = 0;
                    while i < components.len()
                        invariant
                            i <= components@.len(),
                            *self == EventFilter::Components(*components),
                            *event matches DoorcamEvent::SystemError { component: c, .. } && c == *component,
                            forall|j: int| 0 <= j < i ==> (#[trigger] components@[j])@ != component@,
                        decreases components@.len() - i,
                    {
                        if components[i] == *component {
                            assert((components@[i as int])@ == component@);
                            assert(component_listed(components@, component@));
                            return true;
                        }
                        i = i + 1;
                    }
                    false
                },
                _ => false,
            },
        }
    }
}

/// `tokio::sync::broadcast::Sender`: the sending half of the event
/// channel, carried opaquely.
#[verifier::external_type_specification]
#[verifier::external_body]
#[verifier::reject_recursive_types(T)]
pub struct ExBroadcastSender<T>(tokio::sync::broadcast::Sender<T>);

/// `tokio::sync::broadcast::Receiver`: a receiving half of the event
/// channel, carried opaquely.
#[verifier::external_type_specification]
#[verifier::external_body]
#[verifier::reject_recursive_types(T)]
pub struct ExBroadcastReceiver<T>(tokio::sync::broadcast::Receiver<T>);

/// `<Sender as Clone>::clone`: another handle on the same channel. Nothing
/// is claimed of it: a sender has no view.
pub assume_specification<T>[ <tokio::sync::broadcast::Sender<T> as std::clone::Clone>::clone ](
    s: &tokio::sync::broadcast::Sender<T>,
) -> tokio::sync::broadcast::Sender<T>;

/// The capacity that a broadcast channel was made with: how many events it
/// keeps for receivers that have not read them yet (tokio rounds it up to a
/// power of two inside; the name is the capacity asked for).
pub uninterp spec fn channel_capacity(sender: tokio::sync::broadcast::Sender<DoorcamEvent>) -> usize;

/// Calls `tokio::sync::broadcast::channel` and keeps the sender; the
/// channel's first receiver is dropped. The sender's channel is made with
/// the given capacity. `requires` leaves out the capacities for which
/// `channel` panics (0, and more than `usize::MAX / 2`).
#[verifier::external_body]
fn broadcast_sender(capacity: usize) -> (s: tokio::sync::broadcast::Sender<DoorcamEvent>)
    requires
        0 < capacity <= usize::MAX / 2,
    ensures
        channel_capacity(s) == capacity,
{
    tokio::sync::broadcast::channel(capacity).0
}

/// Calls `Sender::subscribe`: a new receiver of every event sent from now
/// on.
#[verifier::external_body]
fn subscribe_to(sender: &tokio::sync::broadcast::Sender<DoorcamEvent>) -> tokio::sync::broadcast::Receiver<DoorcamEvent> {
    sender.subscribe()
}

/// Calls `Sender::send` on the bus's sender with `event`, which is the one
/// place where the bus's log of sent events grows, by that event. The send
/// succeeds with the number of receivers, which is at least one, and fails
/// when there is none; the error's text is "channel closed" (tokio's
/// `Display` of `SendError`). Which of the two happens rests on the
/// receivers alive at the time. The sender and the bus's settings stay.
#[verifier::external_body]
fn send_event(bus: &mut EventBus, event: DoorcamEvent) -> (r: Result<usize, String>)
    ensures
        final(bus).sent_log() == old(bus).sent_log().push(event),
        final(bus).sender == old(bus).sender,
        final(bus).debug_logging == old(bus).debug_logging,
        r matches Ok(n) ==> n >= 1,
        r matches Err(m) ==> m@ == "channel closed"@,
{
    bus.sender.send(event).map_err(|e| e.to_string())
}

/// Calls `Sender::receiver_count`. Nothing is claimed of the count: it rests
/// on the receivers alive at the time.
#[verifier::external_body]
fn receiver_count_of(sender: &tokio::sync::broadcast::Sender<DoorcamEvent>) -> usize {
    sender.receiver_count()
}

/// Delivers every published event to every subscriber.
#[derive(Clone)]
pub struct EventBus {
    sender: tokio::sync::broadcast::Sender<DoorcamEvent>,
    debug_logging: bool,
    sent: Ghost<Seq<DoorcamEvent>>,
}

impl EventBus {
    /// Whether every published event is logged at debug level.
    pub closed spec fn logs_debug(&self) -> bool {
        self.debug_logging
    }

    /// The capacity that the bus's channel was made with.
    pub closed spec fn capacity(&self) -> usize {
        channel_capacity(self.sender)
    }

    /// The events that this handle has handed to the channel, oldest first.
    pub closed spec fn sent_log(&self) -> Seq<DoorcamEvent> {
        self.sent@
    }

    /// A bus that holds up to `capacity` events for slow subscribers.
    pub fn new(capacity: usize) -> (b: Self)
        requires
            0 < capacity <= usize::MAX / 2,
        ensures
            !b.logs_debug(),
            b.capacity() == capacity,
            b.sent_log() == Seq::<DoorcamEvent>::empty(),
    {
        EventBus { sender: broadcast_sender(capacity), debug_logging: false, sent: Ghost(Seq::empty()) }
    }

    /// A bus that also logs every published event at debug level.
    pub fn with_debug_logging(capacity: usize) -> (b: Self)
        requires
            0 < capacity <= usize::MAX / 2,
        ensures
            b.logs_debug(),
            b.capacity() == capacity,
            b.sent_log() == Seq::<DoorcamEvent>::empty(),
    {
        EventBus { sender: broadcast_sender(capacity), debug_logging: true, sent: Ghost(Seq::empty()) }
    }

    /// Whether every published event is logged at debug level.
    pub fn debug_logging(&self) -> (b: bool)
        ensures
            b == self.logs_debug(),
    {
        self.debug_logging
    }

    /// A new receiver of every event published from now on.
    pub fn subscribe(&self) -> tokio::sync::broadcast::Receiver<DoorcamEvent> {
        subscribe_to(&self.sender)
    }

    /// Publish an event to all subscribers: the event is handed to the
    /// channel; the result is the number of subscribers that will see it,
    /// or a failed publish when there is none.
    pub fn publish(&mut self, event: DoorcamEvent) -> (r: Result<usize, EventBusError>)
        ensures
            final(self).sent_log() == old(self).sent_log().push(event),
            final(self).capacity() == old(self).capacity(),
            final(self).logs_debug() == old(self).logs_debug(),
            r matches Ok(n) ==> n >= 1,
            r matches Err(e) ==> (e matches EventBusError::PublishFailed { details } && details@ == "channel closed"@),
    {
        match send_event(self, event) {
            Ok(n) => Ok(n),
            Err(details) => Err(EventBusError::PublishFailed { details }),
        }
    }

    /// The number of subscribers.
    pub fn subscriber_count(&self) -> usize {
        receiver_count_of(&self.sender)
    }

    /// Whether anyone subscribes.
    pub fn has_subscribers(&self) -> bool {
        receiver_count_of(&self.sender) > 0
    }
}

/// The positions, in order, of the filters that select an event.
pub open spec fn spec_matching(filters: Seq<EventFilter>, e: DoorcamEvent, upto: int) -> Seq<usize>
    decreases upto,
{
    if upto <= 0 {
        Seq::empty()
    } else if spec_matches(filters[upto - 1], e) {
        spec_matching(filters, e, upto - 1).push((upto - 1) as usize)
    } else {
        spec_matching(filters, e, upto - 1)
    }
}

/// The routes whose filters select an event, by position, in the order of
/// the routes.
pub fn matching_routes(filters: &Vec<EventFilter>, event: &DoorcamEvent) -> (r: Vec<usize>)
    ensures
        r@ == spec_matching(filters@, *event, filters@.len() as int),
{
    let mut out: Vec<usize> = Vec::new();
    let mut i: usize = 0;
    while i < filters.len()
        invariant
            i <= filters@.len(),
            out@ == spec_matching(filters@, *event, i as int),
        decreases filters@.len() - i,
    {
        if filters[i].matches(event) {
            out.push(i);
        }
        i = i + 1;
    }
    out
}

/// Forward an event to another bus when a filter selects it: the event is
/// published on the target; nothing is done for another event; a failed
/// publish is reported.
pub fn forward_event(target: &mut EventBus, filter: &EventFilter, event: DoorcamEvent) -> (r: Result<(), EventBusError>)
    ensures
        final(target).sent_log() == if spec_matches(*filter, event) {
            old(target).sent_log().push(event)
        } else {
            old(target).sent_log()
        },
        final(target).capacity() == old(target).capacity(),
        final(target).logs_debug() == old(target).logs_debug(),
        !spec_matches(*filter, event) ==> r is Ok,
        r matches Err(e) ==> (e matches EventBusError::PublishFailed { details } && details@ == "channel closed"@),
{
    if filter.matches(&event) {
        match target.publish(event) {
            Ok(_) => Ok(()),
            Err(e) => Err(e),
        }
    } else {
        Ok(())
    }
}

/// What a broadcast channel gave a receiver.
#[derive(Debug, Clone)]
pub enum ChannelOutcome {
    /// An event.
    Event(DoorcamEvent),
    /// No event is waiting (only when not waiting for one).
    Empty,
    /// The receiver fell behind and this many events were lost.
    Lagged(u64),
    /// Every sender is gone.
    Closed,
}

/// What a filtered receiver does with a channel outcome.
#[derive(Debug)]
pub enum ReceiveStep {
    /// Hand the event to the component.
    Deliver(DoorcamEvent),
    /// The filter does not select the event: receive again.
    Skip,
    /// No event is waiting.
    Nothing,
    /// Report an error.
    Fail(EventBusError),
}

/// The message of a receiver that fell behind.
pub open spec fn lag_message(n: u64) -> Seq<char> {
    "Receiver lagged behind by "@ + decimal(n as nat) + " events"@
}

/// The step for a channel outcome: a selected event is delivered and any
/// other skipped; a lag is reported as a failed publish with the number of
/// events lost; a closed channel as such.
pub fn receive_step(filter: &EventFilter, outcome: ChannelOutcome) -> (r: ReceiveStep)
    ensures
        match outcome {
            ChannelOutcome::Event(e) => if spec_matches(*filter, e) {
                r == ReceiveStep::Deliver(e)
            } else {
                r is Skip
            },
            ChannelOutcome::Empty => r is Nothing,
            ChannelOutcome::Lagged(n) => r matches ReceiveStep::Fail(EventBusError::PublishFailed { details })
                && details@ == lag_message(n),
            ChannelOutcome::Closed => r matches ReceiveStep::Fail(EventBusError::ChannelClosed),
        },
{
    match outcome {
        ChannelOutcome::Event(e) => if filter.matches(&e) {
            ReceiveStep::Deliver(e)
        } else {
            ReceiveStep::Skip
        },
        ChannelOutcome::Empty => ReceiveStep::Nothing,
        ChannelOutcome::Lagged(n) => {
            let mut details = "Receiver lagged behind by ".to_owned();
            push_decimal(&mut details, n);
            details.append(" events");
            ReceiveStep::Fail(EventBusError::PublishFailed { details })
        },
        ChannelOutcome::Closed => ReceiveStep::Fail(EventBusError::ChannelClosed),
    }
}

/// Counts of events, by type, and of errors.
#[derive(Debug)]
pub struct EventMetrics {
    pub total_events: u64,
    pub events_by_type: NameTable<u64>,
    pub errors: u64,
    pub last_event_time: Option<SystemTime>,
}

/// A count in a table of counts (0 when absent).
pub open spec fn type_count(m: Map<Seq<char>, u64>, k: Seq<char>) -> u64 {
    if m.dom().contains(k) {
        m[k]
    } else {
        0
    }
}

impl Default for EventMetrics {
    fn default() -> (m: Self)
        ensures
            m.total_events == 0,
            m.errors == 0,
            m.events_by_type.wf(),
            m.events_by_type@ == Map::<Seq<char>, u64>::empty(),
            m.last_event_time is None,
    {
        EventMetrics { total_events: 0, events_by_type: NameTable::new(), errors: 0, last_event_time: None }
    }
}

impl EventMetrics {
    /// Count an event under its type and remember its time.
    pub fn record_event(&mut self, event: &DoorcamEvent)
        requires
            old(self).events_by_type.wf(),
            old(self).total_events < u64::MAX,
            type_count(old(self).events_by_type@, spec_event_type(*event)) < u64::MAX,
        ensures
            final(self).events_by_type.wf(),
            final(self).total_events == old(self).total_events + 1,
            final(self).events_by_type@ == old(self).events_by_type@.insert(
                spec_event_type(*event),
                (type_count(old(self).events_by_type@, spec_event_type(*event)) + 1) as u64,
            ),
            final(self).errors == old(self).errors,
            final(self).last_event_time is Some,
            has_own_timestamp(*event) ==> final(self).last_event_time == Some(own_timestamp(*event)),
    {
        self.total_events = self.total_events + 1;
        let t = event.event_type();
        let n = match self.events_by_type.get(t) {
            Some(c) => c,
            None => 0,
        };
        self.events_by_type.set(t, n + 1);
        self.last_event_time = Some(event.timestamp());
    }

    /// Count an error.
    pub fn record_error(&mut self)
        requires
            old(self).errors < u64::MAX,
        ensures
            final(self).errors == old(self).errors + 1,
            final(self).total_events == old(self).total_events,
            final(self).events_by_type@ == old(self).events_by_type@,
            final(self).events_by_type.wf() == old(self).events_by_type.wf(),
            final(self).last_event_time == old(self).last_event_time,
    {
        self.errors = self.errors + 1;
    }

    /// Zero all counts and forget the last event time.
    pub fn reset(&mut self)
        ensures
            final(self).total_events == 0,
            final(self).errors == 0,
            final(self).events_by_type.wf(),
            final(self).events_by_type@ == Map::<Seq<char>, u64>::empty(),
            final(self).last_event_time is None,
    {
        self.total_events = 0;
        self.events_by_type.clear();
        self.errors = 0;
        self.last_event_time = None;
    }
}

/// The events of a history.
pub open spec fn history_events(h: Seq<(SystemTime, DoorcamEvent)>) -> Seq<DoorcamEvent> {
    h.map_values(|p: (SystemTime, DoorcamEvent)| p.1)
}

/// The events of type `ty` in `h[i..]`, newest first.
pub open spec fn newest_of_type(h: Seq<DoorcamEvent>, ty: Seq<char>, i: int) -> Seq<DoorcamEvent>
    decreases h.len() - i,
{
    if i >= h.len() || i < 0 {
        Seq::empty()
    } else if spec_event_type(h[i]) == ty {
        newest_of_type(h, ty, i + 1).push(h[i])
    } else {
        newest_of_type(h, ty, i + 1)
    }
}

/// Looking further back only appends older matches.
pub proof fn lemma_newest_prefix(h: Seq<DoorcamEvent>, ty: Seq<char>, i: int, j: int)
    requires
        0 <= i <= j <= h.len(),
    ensures
        newest_of_type(h, ty, j).len() <= newest_of_type(h, ty, i).len(),
        newest_of_type(h, ty, i).take(newest_of_type(h, ty, j).len() as int) == newest_of_type(h, ty, j),
    decreases j - i,
{
    if i < j {
        lemma_newest_prefix(h, ty, i + 1, j);
        let a = newest_of_type(h, ty, i + 1);
        let b = newest_of_type(h, ty, j);
        assert(a.take(b.len() as int) == b);
        if spec_event_type(h[i]) == ty {
            assert(newest_of_type(h, ty, i).take(b.len() as int) =~= a.take(b.len() as int));
        }
    } else {
        let b = newest_of_type(h, ty, j);
        assert(b.take(b.len() as int) =~= b);
    }
}

/// The events of a history stamped no earlier than `cutoff` (all of them
/// when there is no cutoff), oldest first.
pub open spec fn events_not_before(h: Seq<(SystemTime, DoorcamEvent)>, cutoff: Option<SystemTime>) -> Seq<DoorcamEvent>
    decreases h.len(),
{
    if h.len() == 0 {
        Seq::empty()
    } else {
        let rest = events_not_before(h.drop_last(), cutoff);
        let keep = match cutoff {
            Some(c) => time_ge(h.last().0, c),
            None => true,
        };
        if keep {
            rest.push(h.last().1)
        } else {
            rest
        }
    }
}

/// The most recent events, bounded in number, and event metrics.
pub struct EventDebugger {
    event_history: Vec<(SystemTime, DoorcamEvent)>,
    max_history: usize,
    metrics: EventMetrics,
}

impl EventDebugger {
    /// Recorded (time, event) pairs, oldest first.
    pub closed spec fn history(&self) -> Seq<(SystemTime, DoorcamEvent)> {
        self.event_history@
    }

    /// The most events kept.
    pub closed spec fn capacity(&self) -> nat {
        self.max_history as nat
    }

    /// The metrics of every event recorded.
    pub closed spec fn spec_metrics(&self) -> &EventMetrics {
        &self.metrics
    }

    /// Well-formedness: no more events than the capacity.
    pub closed spec fn wf(&self) -> bool {
        &&& self.event_history@.len() <= self.max_history
        &&& self.metrics.events_by_type.wf()
    }

    /// A debugger that keeps up to `max_history` events.
    pub fn new(max_history: usize) -> (d: Self)
        ensures
            d.wf(),
            d.capacity() == max_history,
            d.history() == Seq::<(SystemTime, DoorcamEvent)>::empty(),
            d.spec_metrics().total_events == 0,
            d.spec_metrics().errors == 0,
            d.spec_metrics().events_by_type@ == Map::<Seq<char>, u64>::empty(),
    {
        EventDebugger { event_history: Vec::new(), max_history, metrics: EventMetrics::default() }
    }

    /// Record an event, stamped now; the oldest event is dropped when the
    /// history is over capacity.
    pub fn record_event(&mut self, event: DoorcamEvent)
        requires
            old(self).wf(),
            old(self).spec_metrics().total_events < u64::MAX,
            type_count(old(self).spec_metrics().events_by_type@, spec_event_type(event)) < u64::MAX,
        ensures
            final(self).wf(),
            final(self).capacity() == old(self).capacity(),
            final(self).history().len() > 0 || old(self).capacity() == 0,
            history_events(final(self).history()) == (if old(self).history().len() + 1 > old(self).capacity() {
                history_events(old(self).history()).push(event).drop_first()
            } else {
                history_events(old(self).history()).push(event)
            }),
            final(self).spec_metrics().total_events == old(self).spec_metrics().total_events + 1,
            final(self).spec_metrics().errors == old(self).spec_metrics().errors,
            final(self).spec_metrics().events_by_type@ == old(self).spec_metrics().events_by_type@.insert(
                spec_event_type(event),
                (type_count(old(self).spec_metrics().events_by_type@, spec_event_type(event)) + 1) as u64,
            ),
    {
        let timestamp = system_time_now();
        self.metrics.record_event(&event);
        let ghost before = self.event_history@;
        let ghost max0 = self.max_history;
        let ghost metrics0 = self.metrics;
        self.event_history.push((timestamp, event));
        assert(history_events(self.event_history@) =~= history_events(before).push(event));
        while self.event_history.len() > self.max_history
            invariant
                self.max_history == max0,
                self.metrics == metrics0,
                self.event_history@.len() <= before.len() + 1,
                before.len() <= self.max_history,
                self.metrics.events_by_type.wf(),
                self.event_history@.len() == before.len() + 1 ==> history_events(self.event_history@) == history_events(before).push(event),
                self.event_history@.len() == before.len() ==> history_events(self.event_history@) == history_events(before).push(event).drop_first(),
                self.event_history@.len() >= before.len(),
                self.event_history@.len() == before.len() ==> before.len() + 1 > self.max_history,
            decreases self.event_history@.len(),
        {
            let ghost prev = self.event_history@;
            self.event_history.remove(0);
            assert(history_events(self.event_history@) =~= history_events(prev).drop_first());
        }
    }

    /// Up to `count` recorded events of a type, newest first.
    pub fn get_recent_events(&self, event_type: &str, count: usize) -> (r: Vec<&DoorcamEvent>)
        ensures
            r@.map_values(|e: &DoorcamEvent| *e) == newest_of_type(history_events(self.history()), event_type@, 0).take(
                if count < newest_of_type(history_events(self.history()), event_type@, 0).len() {
                    count as int
                } else {
                    newest_of_type(history_events(self.history()), event_type@, 0).len() as int
                },
            ),
    {
        let ghost h = history_events(self.event_history@);
        let ty = event_type.to_owned();
        let mut out: Vec<&DoorcamEvent> = Vec::new();
        let mut i: usize = self.event_history.len();
        while i > 0 && out.len() < count
            invariant
                h == history_events(self.event_history@),
                ty@ == event_type@,
                i <= h.len(),
                out@.len() <= count,
                out@.map_values(|e: &DoorcamEvent| *e) == newest_of_type(h, event_type@, i as int),
            decreases i,
        {
            let ghost prev = out@;
            let e = &self.event_history[i - 1].1;
            assert(*e == h[i - 1]);
            if e.event_type().to_owned() == ty {
                out.push(e);
                assert(out@.map_values(|e: &DoorcamEvent| *e) =~= prev.map_values(|e: &DoorcamEvent| *e).push(*e));
            }
            i = i - 1;
        }
        proof {
            let all = newest_of_type(h, event_type@, 0);
            lemma_newest_prefix(h, event_type@, 0, i as int);
            let got = newest_of_type(h, event_type@, i as int);
            if i == 0 {
                assert(all.take(all.len() as int) =~= all);
            }
        }
        out
    }

    /// The recorded events stamped no earlier than `cutoff` (all of them
    /// when there is no cutoff), oldest first.
    pub fn events_since_cutoff(&self, cutoff: Option<SystemTime>) -> (r: Vec<&DoorcamEvent>)
        ensures
            r@.map_values(|e: &DoorcamEvent| *e) == events_not_before(self.history(), cutoff),
    {
        let mut out: Vec<&DoorcamEvent> = Vec::new();
        let mut i: usize = 0;
        while i < self.event_history.len()
            invariant
                i <= self.event_history@.len(),
                out@.map_values(|e: &DoorcamEvent| *e) == events_not_before(self.event_history@.take(i as int), cutoff),
            decreases self.event_history@.len() - i,
        {
            let ghost prev = out@;
            let keep = match &cutoff {
                Some(c) => time_not_before(&self.event_history[i].0, c),
                None => true,
            };
            proof {
                assert(self.event_history@.take(i as int + 1).drop_last() =~= self.event_history@.take(i as int));
            }
            if keep {
                out.push(&self.event_history[i].1);
                assert(out@.map_values(|e: &DoorcamEvent| *e) =~= prev.map_values(|e: &DoorcamEvent| *e).push(
                    self.event_history@[i as int].1,
                ));
            }
            i = i + 1;
        }
        assert(self.event_history@.take(self.event_history@.len() as int) =~= self.event_history@);
        out
    }

    /// The recorded events stamped no earlier than `duration` before now,
    /// oldest first (all of them when that time is before the earliest
    /// representable time).
    pub fn get_events_since(&self, duration: Duration) -> (r: Vec<&DoorcamEvent>)
        ensures
            exists|now: SystemTime|
                r@.map_values(|e: &DoorcamEvent| *e) == events_not_before(self.history(), #[trigger] time_minus(now, duration)),
    {
        let now = system_time_now();
        let cutoff = time_before(now, duration);
        self.events_since_cutoff(cutoff)
    }

    /// The metrics of every event recorded.
    pub fn metrics(&self) -> (m: &EventMetrics)
        ensures
            m == self.spec_metrics(),
    {
        &self.metrics
    }

    /// The number of events in the history.
    pub fn history_len(&self) -> (n: usize)
        ensures
            n == self.history().len(),
    {
        self.event_history.len()
    }
}


/// What a filter selects: `All` every event; `EventTypes` the events whose
/// type is one of the listed types, at any position; `Components` the
/// system errors whose component is one of the listed components, at any
/// position, and no other event.
pub proof fn law_filter_selects_listed(f: EventFilter, e: DoorcamEvent)
    ensures
        f is All ==> spec_matches(f, e),
        f matches EventFilter::EventTypes(types) ==> (spec_matches(f, e) <==> exists|i: int|
            0 <= i < types@.len() && (#[trigger] types@[i])@ == spec_event_type(e)),
        f matches EventFilter::Components(cs) ==> (spec_matches(f, e) <==> (e matches DoorcamEvent::SystemError {
            component,
            ..
        } && exists|i: int| 0 <= i < cs@.len() && (#[trigger] cs@[i])@ == component@)),
{
}


/// Each kind of event has a type name of its own: two events with the same
/// type name are of the same kind, so a type filter never confuses kinds.
pub proof fn law_event_types_distinct(a: DoorcamEvent, b: DoorcamEvent)
    ensures
        spec_event_type(a) == spec_event_type(b) ==> ((a is MotionDetected) <==> (b is MotionDetected)),
        spec_event_type(a) == spec_event_type(b) ==> ((a is FrameReady) <==> (b is FrameReady)),
        spec_event_type(a) == spec_event_type(b) ==> ((a is TouchDetected) <==> (b is TouchDetected)),
        spec_event_type(a) == spec_event_type(b) ==> ((a is CaptureStarted) <==> (b is CaptureStarted)),
        spec_event_type(a) == spec_event_type(b) ==> ((a is CaptureCompleted) <==> (b is CaptureCompleted)),
        spec_event_type(a) == spec_event_type(b) ==> ((a is SystemError) <==> (b is SystemError)),
        spec_event_type(a) == spec_event_type(b) ==> ((a is DisplayActivate) <==> (b is DisplayActivate)),
        spec_event_type(a) == spec_event_type(b) ==> ((a is DisplayDeactivate) <==> (b is DisplayDeactivate)),
        spec_event_type(a) == spec_event_type(b) ==> ((a is CameraStatusChanged) <==> (b is CameraStatusChanged)),
        spec_event_type(a) == spec_event_type(b) ==> ((a is ShutdownRequested) <==> (b is ShutdownRequested)),
{
    reveal_strlit("motion_detected");
    reveal_strlit("frame_ready");
    reveal_strlit("touch_detected");
    reveal_strlit("capture_started");
    reveal_strlit("capture_completed");
    reveal_strlit("system_error");
    reveal_strlit("display_activate");
    reveal_strlit("display_deactivate");
    reveal_strlit("camera_status_changed");
    reveal_strlit("shutdown_requested");
    if spec_event_type(a) == spec_event_type(b) {
        let sa = spec_event_type(a);
        let sb = spec_event_type(b);
        assert(sa.len() == sb.len());
        assert(sa[0] == sb[0]);
    }
}

} // verus!
