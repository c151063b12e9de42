use audio_relay::error::Error;
use audio_relay::network::{
    Dispatch, NetworkRelay, CHANNEL_CAPACITY, POLL_INTERVAL_MILLIS, PORT,
};

fn relay() -> NetworkRelay {
    match NetworkRelay::new(true) {
        Ok(relay) => relay,
        Err(error) => panic!("bind failed: {:?}", error),
    }
}

fn targets(relay: &NetworkRelay, block: Vec<u8>) -> (Vec<u8>, Vec<u64>) {
    match relay.dispatch(Some(block)) {
        Dispatch::Broadcast { block, subscribers } => (block, subscribers),
        Dispatch::Sleep { millis } => panic!("slept {} ms with a block pending", millis),
        Dispatch::Close { .. } => panic!("closed without being asked to"),
    }
}

#[test]
fn the_relay_listens_on_port_42795() {
    assert_eq!(PORT, 42795u16);
    assert_eq!(POLL_INTERVAL_MILLIS, 5u64);
    assert_eq!(CHANNEL_CAPACITY, 1usize);
}

#[test]
fn a_failed_bind_is_an_error() {
    assert_eq!(NetworkRelay::new(false).err(), Some(Error::BindFailed));
    assert!(NetworkRelay::new(true).is_ok());
}

#[test]
fn a_new_relay_has_no_subscribers() {
    assert!(relay().subscribers().is_empty());
}

#[test]
fn accepted_subscribers_are_appended_with_fresh_identifiers() {
    let mut relay: NetworkRelay = relay();
    assert_eq!(relay.accept(), Some(0u64));
    assert_eq!(relay.accept(), Some(1u64));
    assert_eq!(relay.accept(), Some(2u64));
    assert_eq!(relay.subscribers(), &vec![0u64, 1, 2]);
}

#[test]
fn without_a_block_the_round_sleeps_five_milliseconds() {
    let mut relay: NetworkRelay = relay();
    assert!(matches!(relay.dispatch(None), Dispatch::Sleep { millis: 5 }));
    relay.accept();
    assert!(matches!(relay.dispatch(None), Dispatch::Sleep { millis: 5 }));
}

#[test]
fn a_block_goes_to_every_subscriber_unchanged() {
    let mut relay: NetworkRelay = relay();
    relay.accept();
    relay.accept();
    let (block, subscribers) = targets(&relay, vec![1u8, 2, 3, 4]);
    assert_eq!(block, vec![1u8, 2, 3, 4]);
    assert_eq!(subscribers, vec![0u64, 1]);
}

#[test]
fn without_subscribers_any_number_of_blocks_is_consumed() {
    let mut relay: NetworkRelay = relay();
    let mut round: u32 = 0;
    while round < 10_000 {
        let (block, subscribers) = targets(&relay, vec![round as u8; 1920]);
        assert_eq!(block.len(), 1920usize);
        assert!(subscribers.is_empty());
        relay.settle(&Vec::new());
        assert!(relay.subscribers().is_empty());
        round += 1;
    }
}

#[test]
fn a_subscriber_whose_write_failed_is_gone_after_that_block() {
    let mut relay: NetworkRelay = relay();
    relay.accept();
    relay.accept();
    relay.accept();
    let (_, subscribers) = targets(&relay, vec![7u8; 4]);
    assert_eq!(subscribers, vec![0u64, 1, 2]);
    relay.settle(&vec![1u64]);
    assert_eq!(relay.subscribers(), &vec![0u64, 2]);
    let (_, subscribers) = targets(&relay, vec![8u8; 4]);
    assert_eq!(subscribers, vec![0u64, 2]);
    relay.settle(&Vec::new());
    assert_eq!(relay.subscribers(), &vec![0u64, 2]);
}

#[test]
fn a_dropped_subscriber_never_comes_back() {
    let mut relay: NetworkRelay = relay();
    relay.accept();
    relay.accept();
    relay.settle(&vec![0u64]);
    assert_eq!(relay.accept(), Some(2u64));
    assert_eq!(relay.accept(), Some(3u64));
    relay.settle(&vec![3u64]);
    assert_eq!(relay.subscribers(), &vec![1u64, 2]);
    let mut round: u32 = 0;
    while round < 100 {
        let (_, subscribers) = targets(&relay, vec![0u8; 4]);
        assert!(!subscribers.contains(&0));
        assert!(!subscribers.contains(&3));
        relay.settle(&Vec::new());
        round += 1;
    }
}

#[test]
fn several_failures_in_one_round_are_all_dropped() {
    let mut relay: NetworkRelay = relay();
    let mut n: u32 = 0;
    while n < 6 {
        relay.accept();
        n += 1;
    }
    relay.settle(&vec![4u64, 0, 2, 4]);
    assert_eq!(relay.subscribers(), &vec![1u64, 3, 5]);
    relay.settle(&vec![1u64, 3, 5]);
    assert!(relay.subscribers().is_empty());
}

#[test]
fn failures_of_strangers_change_nothing() {
    let mut relay: NetworkRelay = relay();
    relay.accept();
    relay.accept();
    relay.settle(&vec![17u64, 99]);
    assert_eq!(relay.subscribers(), &vec![0u64, 1]);
}

#[test]
fn a_round_takes_the_connection_in_before_the_block_goes_out() {
    let mut relay: NetworkRelay = relay();
    let (id, dispatch) = relay.round(true, Some(vec![9u8; 4]));
    assert_eq!(id, Some(0u64));
    match dispatch {
        Dispatch::Broadcast { block, subscribers } => {
            assert_eq!(block, vec![9u8; 4]);
            assert_eq!(subscribers, vec![0u64]);
        },
        _ => panic!("no broadcast with a block pending"),
    }
    let (id, dispatch) = relay.round(false, None);
    assert_eq!(id, None);
    assert!(matches!(dispatch, Dispatch::Sleep { millis: 5 }));
    let (id, dispatch) = relay.round(true, None);
    assert_eq!(id, Some(1u64));
    assert!(matches!(dispatch, Dispatch::Sleep { millis: 5 }));
    assert_eq!(relay.subscribers(), &vec![0u64, 1]);
    let (id, dispatch) = relay.round(false, Some(Vec::new()));
    assert_eq!(id, None);
    match dispatch {
        Dispatch::Broadcast { block, subscribers } => {
            assert!(block.is_empty());
            assert_eq!(subscribers, vec![0u64, 1]);
        },
        _ => panic!("no broadcast with a block pending"),
    }
}

#[test]
fn a_relay_that_was_asked_to_shut_down_closes_every_connection() {
    let mut relay: NetworkRelay = relay();
    relay.accept();
    relay.accept();
    relay.settle(&vec![0u64]);
    relay.accept();
    relay.request_shutdown();
    let (id, dispatch) = relay.round(true, Some(vec![1u8; 4]));
    assert_eq!(id, None);
    match dispatch {
        Dispatch::Close { subscribers } => assert_eq!(subscribers, vec![1u64, 2]),
        _ => panic!("the relay went on after it was asked to shut down"),
    }
    assert!(relay.subscribers().is_empty());
    let (id, dispatch) = relay.round(false, None);
    assert_eq!(id, None);
    match dispatch {
        Dispatch::Close { subscribers } => assert!(subscribers.is_empty()),
        _ => panic!("the relay went on after it was asked to shut down"),
    }
}
