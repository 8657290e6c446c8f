use doorcam::error::EventBusError;
use doorcam::events::{receive_step, ChannelOutcome, ReceiveStep};
use doorcam::events::{DoorcamEvent, EventDebugger, EventFilter, EventMetrics};
use std::time::{Duration, SystemTime};

fn motion() -> DoorcamEvent {
    DoorcamEvent::MotionDetected { contour_area_bits: 1500.0f64.to_bits(), timestamp: SystemTime::now() }
}

fn touch() -> DoorcamEvent {
    DoorcamEvent::TouchDetected { timestamp: SystemTime::now() }
}

#[test]
fn event_types() {
    assert_eq!(motion().event_type(), "motion_detected");
    assert_eq!(touch().event_type(), "touch_detected");
    assert_eq!(DoorcamEvent::CaptureStarted { event_id: "e".to_string() }.event_type(), "capture_started");
    assert_eq!(
        DoorcamEvent::SystemError { component: "camera".to_string(), error: "x".to_string() }.event_type(),
        "system_error"
    );
}

#[test]
fn filters_select_events() {
    let filter = EventFilter::EventTypes(vec!["motion_detected", "touch_detected"]);
    assert!(filter.matches(&motion()));
    assert!(filter.matches(&touch()));
    assert!(!filter.matches(&DoorcamEvent::CaptureStarted { event_id: "e".to_string() }));
    assert!(EventFilter::All.matches(&touch()));

    let by_component = EventFilter::Components(vec!["camera".to_string()]);
    assert!(by_component
        .matches(&DoorcamEvent::SystemError { component: "camera".to_string(), error: "x".to_string() }));
    assert!(!by_component
        .matches(&DoorcamEvent::SystemError { component: "display".to_string(), error: "x".to_string() }));
    assert!(!by_component.matches(&motion()));
}

#[test]
fn metrics_count_events_by_type() {
    let mut metrics = EventMetrics::default();
    metrics.record_event(&motion());
    metrics.record_event(&motion());
    metrics.record_event(&touch());
    metrics.record_error();
    assert_eq!(metrics.total_events, 3);
    assert_eq!(metrics.errors, 1);
    assert_eq!(metrics.events_by_type.get("motion_detected"), Some(2));
    assert_eq!(metrics.events_by_type.get("touch_detected"), Some(1));
    assert!(metrics.last_event_time.is_some());
    metrics.reset();
    assert_eq!(metrics.total_events, 0);
    assert_eq!(metrics.events_by_type.get("motion_detected"), None);
    assert!(metrics.last_event_time.is_none());
}

#[test]
fn debugger_keeps_a_bounded_history() {
    let mut debugger = EventDebugger::new(3);
    for _ in 0..5 {
        debugger.record_event(motion());
    }
    debugger.record_event(touch());
    assert_eq!(debugger.history_len(), 3);
    assert_eq!(debugger.metrics().total_events, 6);
    assert_eq!(debugger.get_recent_events("motion_detected", 10).len(), 2);
    assert_eq!(debugger.get_recent_events("touch_detected", 10).len(), 1);
    assert_eq!(debugger.get_recent_events("motion_detected", 1).len(), 1);
    assert_eq!(debugger.get_events_since(Duration::from_secs(60)).len(), 3);
}

#[test]
fn recent_events_come_newest_first() {
    let mut debugger = EventDebugger::new(10);
    debugger.record_event(DoorcamEvent::CaptureStarted { event_id: "first".to_string() });
    debugger.record_event(DoorcamEvent::CaptureStarted { event_id: "second".to_string() });
    let recent = debugger.get_recent_events("capture_started", 2);
    match recent[0] {
        DoorcamEvent::CaptureStarted { event_id } => assert_eq!(event_id, "second"),
        _ => panic!("wrong event"),
    }
}

#[test]
fn zero_capacity_keeps_nothing() {
    let mut debugger = EventDebugger::new(0);
    debugger.record_event(touch());
    assert_eq!(debugger.history_len(), 0);
    assert_eq!(debugger.metrics().total_events, 1);
}

#[test]
fn receive_steps() {
    let filter = EventFilter::EventTypes(vec!["touch_detected"]);
    assert!(matches!(receive_step(&filter, ChannelOutcome::Event(touch())), ReceiveStep::Deliver(_)));
    assert!(matches!(receive_step(&filter, ChannelOutcome::Event(motion())), ReceiveStep::Skip));
    assert!(matches!(receive_step(&filter, ChannelOutcome::Empty), ReceiveStep::Nothing));
    match receive_step(&filter, ChannelOutcome::Lagged(4)) {
        ReceiveStep::Fail(EventBusError::PublishFailed { details }) => {
            assert_eq!(details, "Receiver lagged behind by 4 events")
        }
        _ => panic!("expected a lag failure"),
    }
    assert!(matches!(
        receive_step(&filter, ChannelOutcome::Closed),
        ReceiveStep::Fail(EventBusError::ChannelClosed)
    ));
}

#[test]
fn events_since_a_cutoff() {
    let mut debugger = EventDebugger::new(5);
    debugger.record_event(touch());
    assert_eq!(debugger.events_since_cutoff(None).len(), 1);
    let future = SystemTime::now() + Duration::from_secs(3600);
    assert_eq!(debugger.events_since_cutoff(Some(future)).len(), 0);
}

#[test]
fn event_bus_delivers_to_subscribers() {
    let mut bus = doorcam::events::EventBus::new(16);
    assert!(!bus.has_subscribers());
    match bus.publish(touch()) {
        Err(doorcam::error::EventBusError::PublishFailed { details }) => assert_eq!(details, "channel closed"),
        _ => panic!("expected a failed publish without subscribers"),
    }
    let mut rx = bus.subscribe();
    assert_eq!(bus.subscriber_count(), 1);
    assert_eq!(bus.publish(touch()).unwrap(), 1);
    assert!(matches!(rx.try_recv(), Ok(DoorcamEvent::TouchDetected { .. })));
    let logged = doorcam::events::EventBus::with_debug_logging(4);
    assert!(logged.debug_logging());
    assert!(!bus.debug_logging());
}

#[test]
fn routes_are_chosen_by_filter() {
    let filters = vec![
        EventFilter::EventTypes(vec!["motion_detected"]),
        EventFilter::All,
        EventFilter::EventTypes(vec!["touch_detected"]),
    ];
    assert_eq!(doorcam::events::matching_routes(&filters, &motion()), vec![0, 1]);
    assert_eq!(doorcam::events::matching_routes(&filters, &touch()), vec![1, 2]);
    let frame = DoorcamEvent::FrameReady { frame_id: 1, timestamp: SystemTime::now() };
    assert_eq!(doorcam::events::matching_routes(&filters, &frame), vec![1]);
    assert!(doorcam::events::matching_routes(&Vec::new(), &frame).is_empty());
}

#[test]
fn forwarding_passes_only_selected_events() {
    let mut target = doorcam::events::EventBus::new(10);
    let mut rx = target.subscribe();
    let filter = EventFilter::EventTypes(vec!["motion_detected"]);
    assert!(doorcam::events::forward_event(&mut target, &filter, motion()).is_ok());
    assert!(doorcam::events::forward_event(&mut target, &filter, touch()).is_ok());
    assert!(matches!(rx.try_recv(), Ok(DoorcamEvent::MotionDetected { .. })));
    assert!(rx.try_recv().is_err());
    drop(rx);
    match doorcam::events::forward_event(&mut target, &filter, motion()) {
        Err(EventBusError::PublishFailed { details }) => assert_eq!(details, "channel closed"),
        _ => panic!("expected a failed forward without subscribers"),
    }
}
