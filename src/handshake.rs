use crate::accept::{accept_token_of, convert_key};
use vstd::prelude::*;
use vstd::utf8::encode_utf8;

verus! {

/// The header whose value the accept token is derived from.
pub const SEC_WEBSOCKET_KEY: &'static str = "Sec-WebSocket-Key";

/// The header that names the protocol version the client speaks.
pub const SEC_WEBSOCKET_VERSION: &'static str = "Sec-WebSocket-Version";

/// The header that carries the accept token in the response.
pub const SEC_WEBSOCKET_ACCEPT: &'static str = "Sec-WebSocket-Accept";

/// The `Connection` response header.
pub const CONNECTION: &'static str = "Connection";

/// The `Upgrade` response header.
pub const UPGRADE: &'static str = "Upgrade";

/// Status code of a successful protocol switch.
pub const STATUS_SWITCHING_PROTOCOLS: u16 = 101;

/// Status code of a rejected handshake.
pub const STATUS_BAD_REQUEST: u16 = 400;

/// The informational body of the protocol-switch response.
pub const UPGRADE_BODY: &'static str = "Switching protocols to WebSocket";

/// The headers of an inbound request that the handshake reads: every value
/// of `Sec-WebSocket-Key` and of `Sec-WebSocket-Version`, in order.
pub struct UpgradeRequest {
    pub key_values: Vec<String>,
    pub version_values: Vec<String>,
}

/// Why a handshake was refused. Each one is answered with 400.
#[derive(Debug, Clone, Copy, PartialEq, Eq, Structural)]
pub enum HandshakeError {
    /// No `Sec-WebSocket-Key` header.
    MissingKey,
    /// More than one `Sec-WebSocket-Key` header.
    RepeatedKey,
    /// A `Sec-WebSocket-Version` header other than `13`.
    UnsupportedVersion,
}

/// The response that switches the connection to the WebSocket protocol.
pub struct UpgradeResponse {
    pub status: u16,
    pub headers: Vec<(String, String)>,
    pub body: String,
}

/// The one protocol version this handshake accepts.
pub open spec fn supported_version() -> Seq<char> {
    seq!['1', '3']
}

impl UpgradeRequest {
    /// Every version value present is `13`; an absent header passes.
    pub open spec fn versions_supported(&self) -> bool {
        forall|i: int|
            0 <= i < self.version_values@.len() ==> #[trigger] self.version_values@[i]@
                == supported_version()
    }

    /// What validation yields: the accept token for the single key, or the
    /// first rule broken.
    pub open spec fn handshake_spec(&self) -> Result<Seq<char>, HandshakeError> {
        if self.key_values@.len() == 0 {
            Err(HandshakeError::MissingKey)
        } else if self.key_values@.len() > 1 {
            Err(HandshakeError::RepeatedKey)
        } else if !self.versions_supported() {
            Err(HandshakeError::UnsupportedVersion)
        } else {
            Ok(accept_token_of(encode_utf8(self.key_values@[0]@)))
        }
    }
}

impl HandshakeError {
    /// The status code that answers this refusal.
    pub fn status(&self) -> (r: u16)
        ensures
            r == STATUS_BAD_REQUEST,
    {
        STATUS_BAD_REQUEST
    }
}

/// The headers of the protocol-switch response for an accept token.
pub open spec fn upgrade_headers(token: Seq<char>) -> Seq<(Seq<char>, Seq<char>)> {
    seq![
        (CONNECTION@, "upgrade"@),
        (UPGRADE@, "websocket"@),
        (SEC_WEBSOCKET_ACCEPT@, token),
    ]
}

impl UpgradeResponse {
    /// The headers as pairs of character sequences.
    pub open spec fn headers_view(&self) -> Seq<(Seq<char>, Seq<char>)> {
        self.headers@.map_values(|h: (String, String)| (h.0@, h.1@))
    }

    /// This is the protocol-switch response that carries `token`.
    pub open spec fn is_upgrade_for(&self, token: Seq<char>) -> bool {
        &&& self.status == STATUS_SWITCHING_PROTOCOLS
        &&& self.headers_view() == upgrade_headers(token)
        &&& self.body@ == UPGRADE_BODY@
    }
}

/// A request without a `Sec-WebSocket-Key` header is refused as a bad
/// request, whatever its other headers.
pub proof fn lemma_missing_key_rejected(request: &UpgradeRequest)
    requires
        request.key_values@.len() == 0,
    ensures
        request.handshake_spec() == Err::<Seq<char>, HandshakeError>(HandshakeError::MissingKey),
{
}

/// A `Sec-WebSocket-Version` header whose value is not `13` makes the
/// handshake fail, whatever the key headers are.
pub proof fn lemma_wrong_version_rejected(request: &UpgradeRequest, i: int)
    requires
        0 <= i < request.version_values@.len(),
        request.version_values@[i]@ != supported_version(),
    ensures
        request.handshake_spec() is Err,
{
}

/// A request with one key and no `Sec-WebSocket-Version` header at all is
/// accepted, with the accept token of that key.
pub proof fn lemma_absent_version_accepted(request: &UpgradeRequest)
    requires
        request.key_values@.len() == 1,
        request.version_values@.len() == 0,
    ensures
        request.handshake_spec() == Ok::<Seq<char>, HandshakeError>(
            accept_token_of(encode_utf8(request.key_values@[0]@)),
        ),
{
}

/// Whether a header value is exactly `13`.
fn is_supported_version(v: &str) -> (r: bool)
    ensures
        r == (v@ == supported_version()),
{
    if v.unicode_len() != 2 {
        return false;
    }
    let ok = v.get_char(0) == '1' && v.get_char(1) == '3';
    assert(ok ==> v@ =~= supported_version());
    ok
}

/// Checks the handshake headers of a request and derives the accept token.
pub fn accept_key(request: &UpgradeRequest) -> (r: Result<String, HandshakeError>)
    ensures
        r matches Ok(t) ==> request.handshake_spec() == Ok::<Seq<char>, HandshakeError>(t@),
        r matches Err(e) ==> request.handshake_spec() == Err::<Seq<char>, HandshakeError>(e),
{
    if request.key_values.len() == 0 {
        return Err(HandshakeError::MissingKey);
    }
    if request.key_values.len() > 1 {
        return Err(HandshakeError::RepeatedKey);
    }
    let mut i: usize = 0;
    while i < request.version_values.len()
        invariant
            request.key_values@.len() == 1,
            i <= request.version_values@.len(),
            forall|k: int|
                0 <= k < i ==> #[trigger] request.version_values@[k]@ == supported_version(),
        decreases request.version_values@.len() - i,
    {
        if !is_supported_version(request.version_values[i].as_str()) {
            assert(request.version_values@[i as int]@ != supported_version());
            assert(!request.versions_supported());
            return Err(HandshakeError::UnsupportedVersion);
        }
        i = i + 1;
    }
    let key = request.key_values[0].as_str();
    Ok(convert_key(key.as_bytes()))
}

/// Builds the protocol-switch response that carries `token`.
pub fn upgrade_response(token: String) -> (r: UpgradeResponse)
    ensures
        r.is_upgrade_for(token@),
{
    let mut headers: Vec<(String, String)> = Vec::new();
    headers.push((String::from_str(CONNECTION), String::from_str("upgrade")));
    headers.push((String::from_str(UPGRADE), String::from_str("websocket")));
    let accept = String::from_str(SEC_WEBSOCKET_ACCEPT);
    headers.push((accept, token));
    let r = UpgradeResponse {
        status: STATUS_SWITCHING_PROTOCOLS,
        headers,
        body: String::from_str(UPGRADE_BODY),
    };
    assert(r.headers_view() =~= upgrade_headers(token@));
    r
}

/// Answers an upgrade request: the protocol-switch response when the
/// handshake headers are valid, else the reason for refusing it.
pub fn respond(request: &UpgradeRequest) -> (r: Result<UpgradeResponse, HandshakeError>)
    ensures
        r matches Ok(resp) ==> request.handshake_spec() matches Ok(t) && resp.is_upgrade_for(t),
        r matches Err(e) ==> request.handshake_spec() == Err::<Seq<char>, HandshakeError>(e),
{
    match accept_key(request) {
        Ok(token) => Ok(upgrade_response(token)),
        Err(e) => Err(e),
    }
}

} // verus!
