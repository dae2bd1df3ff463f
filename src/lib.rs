//! Upgrades a Rocket HTTP exchange into a WebSocket stream.
//!
//! The handshake (accept token, validation of the request headers and the
//! protocol-switch response) is verified logic; the framed stream itself is
//! built by tokio-tungstenite and handed to the waiting request handler
//! through a one-shot channel.

mod accept;
mod handshake;
mod responder;

pub use accept::{accept_token_of, convert_key, ws_guid_bytes, WS_GUID};
pub use handshake::{
    accept_key, lemma_absent_version_accepted, lemma_missing_key_rejected,
    lemma_wrong_version_rejected, respond, supported_version, upgrade_headers, upgrade_response,
    HandshakeError, UpgradeRequest, UpgradeResponse, CONNECTION, SEC_WEBSOCKET_ACCEPT,
    SEC_WEBSOCKET_KEY, SEC_WEBSOCKET_VERSION, STATUS_BAD_REQUEST, STATUS_SWITCHING_PROTOCOLS,
    UPGRADE, UPGRADE_BODY,
};
pub use responder::{hand_off, send_outcome, HandOffError, RocketWebsocket, UpgradedStream};
pub use tokio_tungstenite::tungstenite;
pub use tokio_tungstenite::WebSocketStream;
