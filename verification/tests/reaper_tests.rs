use spawner::reaper::{
    confirm_sweep, evaluate_entry, reap_plan, ConnectionState, ReapDecision,
    IDLE_THRESHOLD_SECONDS,
};
use spawner::registry::{Reservation, SessionRegistry};
use spawner::strutil::{backend_url, probe_url, u64_to_string};

fn probe(seconds_inactive: u32) -> Option<ConnectionState> {
    Some(ConnectionState { active_connections: 0, seconds_inactive, listening: true })
}

#[test]
fn idle_beyond_threshold_is_swept() {
    // Scenario: 45 seconds inactive against a 30 second threshold sweeps;
    // 10 seconds leaves the backend untouched.
    assert_eq!(IDLE_THRESHOLD_SECONDS, 30);
    assert_eq!(evaluate_entry(&probe(45), 30), ReapDecision::Sweep);
    assert_eq!(evaluate_entry(&probe(10), 30), ReapDecision::Keep);
    assert_eq!(evaluate_entry(&probe(30), 30), ReapDecision::Keep);
    assert_eq!(evaluate_entry(&probe(31), 30), ReapDecision::Sweep);
}

#[test]
fn failed_probe_skips_the_entry() {
    assert_eq!(evaluate_entry(&None, 30), ReapDecision::Skip);
}

#[test]
fn sweep_removes_entry_after_teardown() {
    let mut registry = SessionRegistry::new();
    registry.lookup_or_reserve(&"k9".to_string(), "slab-9".to_string());
    assert_eq!(evaluate_entry(&probe(45), 30), ReapDecision::Sweep);
    // The compute unit's delete call was accepted; only now drop the entry.
    confirm_sweep(&mut registry, &"k9".to_string());
    assert_eq!(registry.lookup(&"k9".to_string()), None);
}

#[test]
fn probe_failure_for_one_backend_does_not_shield_another() {
    // A reaper pass with a failing probe for backend A still evaluates and
    // sweeps the idle backend B.
    let mut registry = SessionRegistry::new();
    registry.lookup_or_reserve(&"key-a".to_string(), "slab-a".to_string());
    registry.lookup_or_reserve(&"key-b".to_string(), "slab-b".to_string());

    let keys = vec!["key-a".to_string(), "key-b".to_string()];
    let probes = vec![None, probe(45)];
    let swept = reap_plan(&keys, &probes, 30);
    assert_eq!(swept, vec!["key-b".to_string()]);

    for key in &swept {
        confirm_sweep(&mut registry, key);
    }
    // A's entry survives the pass untouched; B's is gone.
    assert_eq!(registry.lookup(&"key-a".to_string()).as_deref(), Some("slab-a"));
    assert_eq!(registry.lookup(&"key-b".to_string()), None);
}

#[test]
fn reap_plan_judges_each_entry_independently() {
    let keys = vec![
        "busy".to_string(),
        "idle-1".to_string(),
        "unreachable".to_string(),
        "idle-2".to_string(),
    ];
    let probes = vec![probe(0), probe(100), None, probe(31)];
    let swept = reap_plan(&keys, &probes, 30);
    assert_eq!(swept, vec!["idle-1".to_string(), "idle-2".to_string()]);

    // The same pass with the unreachable backend now healthy-but-idle sweeps
    // it too, and changes nothing for the others.
    let probes = vec![probe(0), probe(100), probe(99), probe(31)];
    let swept = reap_plan(&keys, &probes, 30);
    assert_eq!(
        swept,
        vec!["idle-1".to_string(), "unreachable".to_string(), "idle-2".to_string()]
    );
}

#[test]
fn decimal_rendering_is_exact() {
    assert_eq!(u64_to_string(0), "0");
    assert_eq!(u64_to_string(7), "7");
    assert_eq!(u64_to_string(10), "10");
    assert_eq!(u64_to_string(9090), "9090");
    assert_eq!(u64_to_string(65535), "65535");
    assert_eq!(u64_to_string(u64::MAX), "18446744073709551615");
}

#[test]
fn url_rendering_is_exact() {
    assert_eq!(backend_url("slab-7f3a", "spawner", 9090), "http://slab-7f3a.spawner:9090/");
    assert_eq!(
        probe_url("slab-9", "spawner", 8080),
        "http://spawner-slab-9.spawner.svc.cluster.local:8080/status"
    );
}
