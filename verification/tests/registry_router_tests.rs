use spawner::model::Phase;
use spawner::namegen::{NameGenerator, SchemeError};
use spawner::registry::{Reservation, SessionRegistry};
use spawner::router::{RouteDecision, SpawnerParams, SpawnerState};

fn params() -> SpawnerParams {
    SpawnerParams {
        application_image: "ghcr.io/example/app:latest".to_string(),
        application_port: 8080,
        sidecar_image: Some("ghcr.io/example/sidecar:latest".to_string()),
        sidecar_port: 9090,
        base_url: "https://session.example.com".to_string(),
        nginx_internal_path: None,
        name_generator: None,
        namespace: "spawner".to_string(),
        cleanup_frequency_seconds: 30,
    }
}

#[test]
fn reserve_miss_then_hit_same_name() {
    // Scenario: no entry for the key, the reservation returns the fresh
    // name as newly reserved; every later reservation is a hit on it.
    let mut registry = SessionRegistry::new();
    let key = "abc123".to_string();
    match registry.lookup_or_reserve(&key, "slab-7f3a".to_string()) {
        Reservation::ReservedNew(name) => assert_eq!(name, "slab-7f3a"),
        Reservation::Hit(_) => panic!("expected ReservedNew on an empty registry"),
    }
    match registry.lookup_or_reserve(&key, "slab-ffff".to_string()) {
        Reservation::Hit(name) => assert_eq!(name, "slab-7f3a"),
        Reservation::ReservedNew(_) => panic!("second reservation must hit"),
    }
    assert_eq!(registry.lookup(&key).as_deref(), Some("slab-7f3a"));
}

#[test]
fn duplicate_reservations_yield_one_provisioning() {
    // Two callers racing for "dup-key": exactly one observes ReservedNew,
    // the other a Hit on the same name.
    let mut registry = SessionRegistry::new();
    let key = "dup-key".to_string();
    let first = registry.lookup_or_reserve(&key, "slab-a".to_string());
    let second = registry.lookup_or_reserve(&key, "slab-b".to_string());
    let mut reserved_new: u32 = 0;
    let mut names = Vec::new();
    for r in [first, second] {
        match r {
            Reservation::ReservedNew(n) => {
                reserved_new += 1;
                names.push(n);
            },
            Reservation::Hit(n) => names.push(n),
        }
    }
    assert_eq!(reserved_new, 1);
    assert_eq!(names[0], names[1]);
}

#[test]
fn remove_deletes_only_that_entry() {
    let mut registry = SessionRegistry::new();
    registry.lookup_or_reserve(&"a".to_string(), "slab-1".to_string());
    registry.lookup_or_reserve(&"b".to_string(), "slab-2".to_string());
    let removed = registry.remove(&"a".to_string());
    assert_eq!(removed.as_deref(), Some("slab-1"));
    assert_eq!(registry.lookup(&"a".to_string()), None);
    assert_eq!(registry.lookup(&"b".to_string()).as_deref(), Some("slab-2"));
    assert_eq!(registry.remove(&"a".to_string()), None);
}

#[test]
fn entries_snapshot_holds_every_entry_once() {
    let mut registry = SessionRegistry::new();
    registry.lookup_or_reserve(&"a".to_string(), "slab-1".to_string());
    registry.lookup_or_reserve(&"b".to_string(), "slab-2".to_string());
    registry.lookup_or_reserve(&"c".to_string(), "slab-3".to_string());
    let mut entries = registry.entries();
    entries.sort();
    assert_eq!(
        entries,
        vec![
            ("a".to_string(), "slab-1".to_string()),
            ("b".to_string(), "slab-2".to_string()),
            ("c".to_string(), "slab-3".to_string()),
        ]
    );
}

#[test]
fn router_provisions_on_miss_and_routes_on_hit() {
    let mut state = SpawnerState::new(params(), NameGenerator::default());
    let key = "abc123".to_string();
    let name = match state.route_reserve(&key) {
        RouteDecision::Provision { slab, url } => {
            assert_eq!(url, "https://session.example.com/slab-0/");
            assert_eq!(slab.name.as_deref(), Some("slab-0"));
            assert_eq!(slab.spec.key, "abc123");
            assert_eq!(slab.spec.application_image, "ghcr.io/example/app:latest");
            assert_eq!(slab.phase(), Phase::NotSubmitted);
            slab.name.clone().unwrap()
        },
        RouteDecision::Existing { .. } => panic!("expected a miss on an empty registry"),
    };
    match state.route_reserve(&key) {
        RouteDecision::Existing { name: hit, url } => {
            assert_eq!(hit, name);
            assert_eq!(url, "https://session.example.com/slab-0/");
        },
        RouteDecision::Provision { .. } => panic!("second call must route to the same backend"),
    }
}

#[test]
fn router_rollback_allows_clean_retry() {
    let mut state = SpawnerState::new(params(), NameGenerator::default());
    let key = "abc123".to_string();
    assert!(matches!(state.route_reserve(&key), RouteDecision::Provision { .. }));
    // Provisioning failed: roll the reservation back; the next call reserves
    // anew (with a fresh name).
    state.route_rollback(&key);
    match state.route_reserve(&key) {
        RouteDecision::Provision { slab, .. } => {
            assert_eq!(slab.name.as_deref(), Some("slab-1"));
        },
        RouteDecision::Existing { .. } => panic!("rollback must clear the reservation"),
    }
}

#[test]
fn url_uses_key_under_internal_path_routing() {
    let mut p = params();
    p.nginx_internal_path = Some("/internal".to_string());
    let state = SpawnerState::new(p, NameGenerator::default());
    let url = state.url_for(&"abc123".to_string(), &"slab-0".to_string());
    assert_eq!(url, "https://session.example.com/abc123/");

    let state = SpawnerState::new(params(), NameGenerator::default());
    let url = state.url_for(&"abc123".to_string(), &"slab-0".to_string());
    assert_eq!(url, "https://session.example.com/slab-0/");
}

#[test]
fn generator_allocates_distinct_names() {
    let mut generator = NameGenerator::default();
    let a = generator.allocate();
    let b = generator.allocate();
    let c = generator.allocate();
    assert_eq!(a, "slab-0");
    assert_eq!(b, "slab-1");
    assert_eq!(c, "slab-2");
    assert_ne!(a, b);
    assert_ne!(b, c);
    assert_ne!(a, c);
}

#[test]
fn generator_counts_past_ten() {
    let mut generator = NameGenerator { prefix: "slab".to_string(), counter: 9 };
    assert_eq!(generator.allocate(), "slab-9");
    assert_eq!(generator.allocate(), "slab-10");
    assert_eq!(generator.allocate(), "slab-11");
    let mut generator = NameGenerator { prefix: "b".to_string(), counter: 12345 };
    assert_eq!(generator.allocate(), "b-12345");
}

#[test]
fn scheme_parsing_accepts_names_and_rejects_junk() {
    let g = NameGenerator::from_scheme("short-code9").expect("well-formed scheme");
    assert_eq!(g.prefix, "short-code9");
    assert_eq!(g.counter, 0);
    assert!(matches!(NameGenerator::from_scheme(""), Err(SchemeError::Malformed)));
    assert!(matches!(NameGenerator::from_scheme("Upper"), Err(SchemeError::Malformed)));
    assert!(matches!(NameGenerator::from_scheme("under_score"), Err(SchemeError::Malformed)));
    assert!(matches!(NameGenerator::from_scheme("with space"), Err(SchemeError::Malformed)));
}
