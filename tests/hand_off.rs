use rocket_websocket::{hand_off, send_outcome, HandOffError, RocketWebsocket};
use tokio::sync::oneshot;
use tokio::sync::oneshot::error::TryRecvError;
use tungstenite::protocol::WebSocketConfig;

#[test]
fn send_after_receiver_dropped_fails_without_blocking() {
    let (tx, rx) = oneshot::channel::<u32>();
    drop(rx);
    assert_eq!(hand_off(tx, 7), Err(HandOffError::ReceiverHungUp));
}

#[test]
fn delivered_value_is_received_exactly_once() {
    let (tx, mut rx) = oneshot::channel::<u32>();
    assert_eq!(hand_off(tx, 7), Ok(()));
    assert_eq!(rx.try_recv(), Ok(7));
    assert_eq!(rx.try_recv(), Err(TryRecvError::Closed));
}

#[test]
fn dropped_responder_hangs_up_receiver() {
    let (responder, mut rx) = RocketWebsocket::new();
    assert!(matches!(rx.try_recv(), Err(TryRecvError::Empty)));
    drop(responder);
    assert!(matches!(rx.try_recv(), Err(TryRecvError::Closed)));
}

#[test]
fn dropped_configured_responder_hangs_up_receiver() {
    let (responder, mut rx) = RocketWebsocket::with_config(WebSocketConfig::default());
    drop(responder);
    assert!(matches!(rx.try_recv(), Err(TryRecvError::Closed)));
}

#[test]
fn config_is_taken_once() {
    let (mut responder, _rx) = RocketWebsocket::with_config(WebSocketConfig::default());
    assert!(responder.take_config().is_some());
    assert!(responder.take_config().is_none());
    let (mut plain, _rx) = RocketWebsocket::new();
    assert!(plain.take_config().is_none());
}

#[test]
fn send_outcome_maps_each_result() {
    assert_eq!(send_outcome::<u32>(Ok(())), Ok(()));
    assert_eq!(send_outcome(Err(3u32)), Err(HandOffError::ReceiverHungUp));
}
