use rocket::data::IoStream;
use std::pin::Pin;
use tokio::sync::oneshot;
use tokio_tungstenite::WebSocketStream;
use tungstenite::protocol::WebSocketConfig;
use vstd::prelude::*;

verus! {

#[verifier::external_type_specification]
#[verifier::external_body]
#[verifier::reject_recursive_types(T)]
pub struct ExSender<T>(oneshot::Sender<T>);

#[verifier::external_type_specification]
#[verifier::external_body]
#[verifier::reject_recursive_types(T)]
pub struct ExReceiver<T>(oneshot::Receiver<T>);

#[verifier::external_type_specification]
#[verifier::external_body]
pub struct ExRecvError(oneshot::error::RecvError);

#[verifier::external_type_specification]
#[verifier::external_body]
#[verifier::reject_recursive_types(S)]
pub struct ExWebSocketStream<S>(WebSocketStream<S>);

#[verifier::external_type_specification]
#[verifier::external_body]
pub struct ExIoStream(IoStream);

#[verifier::external_type_specification]
#[verifier::external_body]
pub struct ExWebSocketConfig(WebSocketConfig);

#[verifier::external_type_specification]
#[verifier::external_body]
#[verifier::reject_recursive_types(P)]
pub struct ExPin<P>(Pin<P>);

/// The framed stream that the upgrade produces and hands to the requester.
pub type UpgradedStream = Pin<Box<WebSocketStream<IoStream>>>;

/// The producer half failed to deliver: the receiving half was already gone.
#[derive(Debug, Clone, Copy, PartialEq, Eq, Structural)]
pub enum HandOffError {
    ReceiverHungUp,
}

/// Relies on `tokio::sync::oneshot::channel`: a fresh, connected pair.
#[verifier::external_body]
fn oneshot_channel<T>() -> (r: (oneshot::Sender<T>, oneshot::Receiver<T>)) {
    oneshot::channel()
}

/// Relies on `tokio::sync::oneshot::Sender::send`: it consumes the sender and
/// never blocks; when the receiver is closed it fails and hands back the very
/// value it was given.
#[verifier::external_body]
fn oneshot_send<T>(tx: oneshot::Sender<T>, value: T) -> (r: Result<(), T>)
    ensures
        r matches Err(v) ==> v == value,
{
    tx.send(value)
}

/// What a send on the channel means for the hand-off: success stays
/// success, and a value handed back means that nobody was waiting for it.
pub fn send_outcome<T>(sent: Result<(), T>) -> (r: Result<(), HandOffError>)
    ensures
        r is Ok <==> sent is Ok,
        r is Err ==> r == Err::<(), HandOffError>(HandOffError::ReceiverHungUp),
{
    match sent {
        Ok(()) => Ok(()),
        Err(_) => Err(HandOffError::ReceiverHungUp),
    }
}

/// Moves `value` into the single slot of a one-shot channel. It fails only
/// when the receiving half has already been dropped or closed, and then
/// without blocking.
pub fn hand_off<T>(tx: oneshot::Sender<T>, value: T) -> (r: Result<(), HandOffError>)
    ensures
        r is Err ==> r == Err::<(), HandOffError>(HandOffError::ReceiverHungUp),
{
    send_outcome(oneshot_send(tx, value))
}

/// A WebSocket upgrade: it owns the producer half of the channel through
/// which the framed stream reaches the requester, and the framing
/// configuration to build that stream with.
pub struct RocketWebsocket {
    inner: oneshot::Sender<UpgradedStream>,
    config: Option<WebSocketConfig>,
}

impl RocketWebsocket {
    /// The framing configuration the stream will be built with; `None`
    /// stands for the defaults of the protocol library.
    pub closed spec fn framing_config(&self) -> Option<WebSocketConfig> {
        self.config
    }

    /// Creates an upgrade with the default framing configuration, and the
    /// receiver that the framed stream will arrive on.
    pub fn new() -> (r: (Self, oneshot::Receiver<UpgradedStream>))
        ensures
            r.0.framing_config() is None,
    {
        let (tx, rx) = oneshot_channel();
        (RocketWebsocket { inner: tx, config: None }, rx)
    }

    /// Same as `new`, with an explicit framing configuration.
    pub fn with_config(config: WebSocketConfig) -> (r: (Self, oneshot::Receiver<UpgradedStream>))
        ensures
            r.0.framing_config() == Some(config),
    {
        let (tx, rx) = oneshot_channel();
        (RocketWebsocket { inner: tx, config: Some(config) }, rx)
    }

    /// Hands the framing configuration over to the stream constructor,
    /// leaving none behind.
    pub fn take_config(&mut self) -> (r: Option<WebSocketConfig>)
        ensures
            r == old(self).framing_config(),
            final(self).framing_config() is None,
    {
        self.config.take()
    }

    /// Delivers the framed stream to the requester. This consumes the
    /// upgrade, so a stream is delivered at most once per upgrade.
    pub fn deliver(self, stream: UpgradedStream) -> (r: Result<(), HandOffError>)
        ensures
            r is Err ==> r == Err::<(), HandOffError>(HandOffError::ReceiverHungUp),
    {
        hand_off(self.inner, stream)
    }
}

} // verus!
