use tunnel_relay::errors::TunnelError;
use tunnel_relay::relay::Relay;

#[test]
fn accepted_connections_get_fresh_ids_in_order() {
    let mut relay = Relay::new();
    assert_eq!(relay.accept_local(), Ok(0));
    assert_eq!(relay.accept_local(), Ok(1));
    assert_eq!(relay.accept_local(), Ok(2));
    assert_eq!(relay.queued, vec![0, 1, 2]);
    assert!(relay.assigned.is_empty());
}

#[test]
fn takers_drain_oldest_first() {
    let mut relay = Relay::new();
    relay.accept_local().unwrap();
    relay.accept_local().unwrap();
    assert_eq!(relay.take_next(7), Some(0));
    assert_eq!(relay.take_next(9), Some(1));
    assert_eq!(relay.take_next(9), None);
    assert_eq!(relay.assigned, vec![(0, 7), (1, 9)]);
}

#[test]
fn take_on_empty_queue_returns_nothing() {
    let mut relay = Relay::new();
    assert_eq!(relay.take_next(1), None);
    assert!(relay.assigned.is_empty());
}

#[test]
fn every_unit_reaches_exactly_one_peer() {
    // N = 4 accepted connections, M = 2 racing peers: each unit is
    // delivered once, to one peer, and none is dropped.
    let mut relay = Relay::new();
    for _ in 0..4 {
        relay.accept_local().unwrap();
    }
    let mut delivered: Vec<u64> = Vec::new();
    let peers = [11u64, 22, 11, 22];
    for peer in peers {
        delivered.push(relay.take_next(peer).unwrap());
    }
    delivered.sort();
    assert_eq!(delivered, vec![0, 1, 2, 3]);
    assert!(relay.queued.is_empty());
    let mut work: Vec<u64> = relay.assigned.iter().map(|p| p.0).collect();
    work.sort();
    assert_eq!(work, vec![0, 1, 2, 3]);
}

#[test]
fn without_peers_work_stays_queued() {
    // M = 0: nothing ever takes, so accepted connections accumulate and no
    // assignment happens.
    let mut relay = Relay::new();
    for i in 0..50 {
        assert_eq!(relay.accept_local(), Ok(i));
    }
    assert_eq!(relay.queued.len(), 50);
    assert!(relay.assigned.is_empty());
}

#[test]
fn closed_queue_refuses_new_work_but_drains() {
    let mut relay = Relay::new();
    relay.accept_local().unwrap();
    relay.close();
    assert_eq!(relay.accept_local(), Err(TunnelError::QueueClosed));
    assert_eq!(relay.take_next(3), Some(0));
    assert_eq!(relay.take_next(3), None);
}
