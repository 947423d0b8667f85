use midimon::addr::Addr;
use midimon::policy::{sweep_targets, EndpointInfo};

#[test]
fn sweep_takes_only_readable_unexcluded_endpoints() {
    let a = EndpointInfo { addr: Addr { client: 20, port: 0 }, readable: true, excluded: false };
    let b = EndpointInfo { addr: Addr { client: 21, port: 0 }, readable: true, excluded: true };
    let c = EndpointInfo { addr: Addr { client: 22, port: 0 }, readable: false, excluded: false };
    let targets = sweep_targets(&vec![a, b, c]);
    assert_eq!(targets, vec![Addr { client: 20, port: 0 }]);
}

#[test]
fn sweep_keeps_enumeration_order() {
    let mk = |client: i32, readable: bool, excluded: bool| EndpointInfo {
        addr: Addr { client, port: 0 },
        readable,
        excluded,
    };
    let endpoints = vec![mk(5, true, false), mk(6, false, false), mk(7, true, false), mk(8, true, true), mk(9, true, false)];
    let targets = sweep_targets(&endpoints);
    let clients: Vec<i32> = targets.iter().map(|a| a.client).collect();
    assert_eq!(clients, vec![5, 7, 9]);
}

#[test]
fn sweep_of_nothing_subscribes_nothing() {
    assert!(sweep_targets(&Vec::new()).is_empty());
}
