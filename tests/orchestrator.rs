use orbiq_system_monitor::config::DaemonConfig;
use orbiq_system_monitor::orchestrator::{Action, Event, PublishOrchestrator, PublishState, Purpose};
use orbiq_system_monitor::sensors::{Reading, SystemSensor, SystemSensorType};

fn config(name: &str) -> DaemonConfig {
    let mut c = DaemonConfig::default();
    c.device.name = name.to_string();
    c.with_fixed_identity()
}

fn temp(name: &str) -> SystemSensor {
    SystemSensor {
        name: name.to_string(),
        label: None,
        value: Reading { units: 42500, decimals: 3 },
        unit: "\u{b0}C".to_string(),
        sensor_type: SystemSensorType::Temperature,
    }
}

/// One published message: sensor, purpose, topic, body.
type Sent = (String, Purpose, String, String);

/// Drives the orchestrator until it asks to sleep or stop; answers each snapshot
/// request with `snapshot`, each publish with `outcome`, each pause as finished.
fn drive(
    o: &mut PublishOrchestrator,
    snapshot: &[SystemSensor],
    outcome: &dyn Fn(&str, Purpose) -> bool,
) -> (Vec<Sent>, Action) {
    let mut sent = Vec::new();
    let mut collected = false;
    loop {
        match o.pending() {
            Action::Collect => {
                assert!(!collected, "a second snapshot within one drive");
                collected = true;
                o.handle(Event::Collected(snapshot.to_vec()));
            }
            Action::Publish { sensor, purpose, message } => {
                let ok = outcome(&sensor, purpose);
                sent.push((sensor, purpose, message.topic, message.payload));
                o.handle(Event::Published(ok));
            }
            Action::Pause { .. } => o.handle(Event::Paused),
            other => return (sent, other),
        }
    }
}

fn start(o: &mut PublishOrchestrator) {
    assert!(matches!(o.pending(), Action::Sleep { secs: 5 }));
    o.handle(Event::Elapsed);
}

fn purposes(sent: &[Sent]) -> Vec<(String, Purpose)> {
    sent.iter().map(|s| (s.0.clone(), s.1)).collect()
}

#[test]
fn first_cycle_discovers_then_announces_then_reports() {
    let mut o = PublishOrchestrator::new(&config("desk"));
    start(&mut o);
    let (sent, next) = drive(&mut o, &[temp("k10temp_1")], &|_, _| true);
    assert_eq!(
        purposes(&sent),
        vec![
            ("k10temp_1".to_string(), Purpose::Discovery),
            ("k10temp_1".to_string(), Purpose::Online),
            ("k10temp_1".to_string(), Purpose::State),
        ]
    );
    assert_eq!(sent[0].2, "homeassistant/sensor/orbiq_desk/k10temp_1/config");
    assert_eq!(sent[1].3, "online");
    assert_eq!(sent[2].3, "{\"value\":42.5}");
    assert!(matches!(next, Action::Sleep { secs: 30 }));
    assert_eq!(o.cycle(), 1);
}

#[test]
fn discovery_is_sent_once() {
    let mut o = PublishOrchestrator::new(&config("desk"));
    start(&mut o);
    drive(&mut o, &[temp("a"), temp("b")], &|_, _| true);
    for _ in 0..5 {
        o.handle(Event::Elapsed);
        let (sent, _) = drive(&mut o, &[temp("a"), temp("b")], &|_, _| true);
        assert_eq!(
            purposes(&sent),
            vec![("a".to_string(), Purpose::State), ("b".to_string(), Purpose::State)]
        );
    }
}

#[test]
fn failed_discovery_is_retried_next_cycle() {
    let mut o = PublishOrchestrator::new(&config("desk"));
    start(&mut o);
    let (sent, _) = drive(&mut o, &[temp("a")], &|_, p| p != Purpose::Discovery);
    assert_eq!(
        purposes(&sent),
        vec![("a".to_string(), Purpose::Discovery), ("a".to_string(), Purpose::State)]
    );
    o.handle(Event::Elapsed);
    let (sent, _) = drive(&mut o, &[temp("a")], &|_, _| true);
    assert_eq!(
        purposes(&sent),
        vec![
            ("a".to_string(), Purpose::Discovery),
            ("a".to_string(), Purpose::Online),
            ("a".to_string(), Purpose::State),
        ]
    );
}

#[test]
fn empty_snapshot_publishes_nothing_and_keeps_schedule() {
    let mut o = PublishOrchestrator::new(&config("desk"));
    start(&mut o);
    let (sent, next) = drive(&mut o, &[], &|_, _| true);
    assert!(sent.is_empty());
    assert!(matches!(next, Action::Sleep { secs: 30 }));
    assert_eq!(o.cycle(), 1);
    o.handle(Event::Elapsed);
    assert!(matches!(o.pending(), Action::Collect));
}

#[test]
fn availability_refresh_every_twentieth_cycle() {
    let mut o = PublishOrchestrator::new(&config("desk"));
    start(&mut o);
    let sensors = [temp("a"), temp("b")];
    for cycle in 1..=41u32 {
        let (sent, _) = drive(&mut o, &sensors, &|_, _| true);
        let refreshed: Vec<String> =
            sent.iter().filter(|s| s.1 == Purpose::Refresh).map(|s| s.0.clone()).collect();
        if cycle % 20 == 0 {
            assert_eq!(refreshed, vec!["a".to_string(), "b".to_string()], "cycle {}", cycle);
            assert!(sent.iter().filter(|s| s.1 == Purpose::Refresh).all(|s| s.3 == "online"));
        } else {
            assert!(refreshed.is_empty(), "cycle {}", cycle);
        }
        assert_eq!(o.cycle(), cycle);
        o.handle(Event::Elapsed);
    }
}

#[test]
fn shutdown_marks_fresh_snapshot_offline_once() {
    let mut o = PublishOrchestrator::new(&config("desk"));
    start(&mut o);
    drive(&mut o, &[temp("a"), temp("b")], &|_, _| true);
    o.handle(Event::Shutdown);
    let (sent, next) = drive(&mut o, &[temp("b"), temp("c")], &|s, _| s != "b");
    assert_eq!(
        purposes(&sent),
        vec![("b".to_string(), Purpose::Offline), ("c".to_string(), Purpose::Offline)]
    );
    assert!(sent.iter().all(|s| s.3 == "offline"));
    assert_eq!(sent[1].2, "homeassistant/sensor/orbiq_desk/c/availability");
    assert!(matches!(next, Action::Stop));
    assert!(o.is_done());
    o.handle(Event::Shutdown);
    o.handle(Event::Elapsed);
    assert!(matches!(o.pending(), Action::Stop));
}

#[test]
fn shutdown_during_a_pause_still_marks_offline() {
    let mut o = PublishOrchestrator::new(&config("desk"));
    start(&mut o);
    o.handle(Event::Collected(vec![temp("a")]));
    assert!(matches!(o.pending(), Action::Publish { purpose: Purpose::Discovery, .. }));
    o.handle(Event::Published(true));
    o.handle(Event::Published(true));
    assert!(matches!(o.pending(), Action::Pause { millis: 100 }));
    o.handle(Event::Shutdown);
    assert!(matches!(o.pending(), Action::Collect));
    o.handle(Event::Collected(vec![temp("a")]));
    match o.pending() {
        Action::Publish { sensor, purpose, message } => {
            assert_eq!(sensor, "a");
            assert_eq!(purpose, Purpose::Offline);
            assert_eq!(message.payload, "offline");
            assert!(message.retain);
        }
        other => panic!("unexpected {:?}", other),
    }
    o.handle(Event::Shutdown);
    assert!(matches!(o.pending(), Action::Publish { purpose: Purpose::Offline, .. }));
}

#[test]
fn shutdown_with_no_sensors_stops_at_once() {
    let mut o = PublishOrchestrator::new(&config("desk"));
    o.handle(Event::Shutdown);
    assert!(matches!(o.pending(), Action::Collect));
    o.handle(Event::Collected(Vec::new()));
    assert!(matches!(o.pending(), Action::Stop));
}

#[test]
fn publish_state_tracks_discovery_and_cycles() {
    let mut st = PublishState::new();
    let a = "a".to_string();
    assert!(!st.is_discovered(&a));
    st.mark_discovered(&a);
    st.mark_discovered(&a);
    assert!(st.is_discovered(&a));
    assert!(!st.is_discovered(&"b".to_string()));
    let mut dues = Vec::new();
    for _ in 0..40 {
        dues.push(st.advance_cycle());
    }
    assert_eq!(st.cycle(), 40);
    let due_cycles: Vec<usize> = dues.iter().enumerate().filter(|(_, d)| **d).map(|(i, _)| i + 1).collect();
    assert_eq!(due_cycles, vec![20, 40]);
}
