use midimon::addr::Addr;
use midimon::names::NameCache;

#[test]
fn miss_then_record_then_hit() {
    let mut cache = NameCache::new();
    let a = Addr { client: 128, port: 0 };
    // first resolution would need a transport query
    assert!(cache.needs_query(a));
    assert_eq!(cache.resolve(a), "128:0");
    // the failure was not cached: still needs a query
    assert!(cache.needs_query(a));
    // the transport answered: record, and no further query is needed
    let name = cache.record(a, "TiMidity", "TiMidity port 0");
    assert_eq!(name, "TiMidity:TiMidity port 0");
    assert!(!cache.needs_query(a));
    assert_eq!(cache.resolve(a), "TiMidity:TiMidity port 0");
    assert_eq!(cache.cached(a).as_deref(), Some("TiMidity:TiMidity port 0"));
}

#[test]
fn departure_invalidates() {
    let mut cache = NameCache::new();
    let a = Addr { client: 20, port: 1 };
    cache.record(a, "Synth", "in");
    assert!(!cache.needs_query(a));
    cache.forget(a);
    // after the departure the next resolution must query again
    assert!(cache.needs_query(a));
    assert_eq!(cache.resolve(a), "20:1");
    // re-arrival: a second query is recorded again
    cache.record(a, "Synth", "in");
    assert!(!cache.needs_query(a));
}

#[test]
fn forgetting_an_unknown_endpoint_is_no_error() {
    let mut cache = NameCache::new();
    cache.forget(Addr { client: 1, port: 2 });
    assert!(cache.needs_query(Addr { client: 1, port: 2 }));
}

#[test]
fn distinct_endpoints_do_not_collide() {
    let mut cache = NameCache::new();
    let a = Addr { client: 1, port: 2 };
    let b = Addr { client: 2, port: 1 };
    let c = Addr { client: -1, port: 0 };
    cache.record(a, "A", "pa");
    cache.record(b, "B", "pb");
    cache.record(c, "C", "pc");
    assert_eq!(cache.resolve(a), "A:pa");
    assert_eq!(cache.resolve(b), "B:pb");
    assert_eq!(cache.resolve(c), "C:pc");
    cache.forget(b);
    assert_eq!(cache.resolve(a), "A:pa");
    assert_eq!(cache.resolve(b), "2:1");
    assert_eq!(cache.resolve(c), "C:pc");
}

#[test]
fn fallback_label_shows_the_numbers() {
    let cache = NameCache::new();
    assert_eq!(cache.resolve(Addr { client: 0, port: 0 }), "0:0");
    assert_eq!(cache.resolve(Addr { client: -3, port: 7 }), "-3:7");
}
