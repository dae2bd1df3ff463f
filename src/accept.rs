use sha1::Digest;
use vstd::prelude::*;
use vstd::string::StringSliceAdditionalSpecFns;

verus! {

/// The fixed GUID that a server appends to the client's key when it
/// derives the accept token.
pub const WS_GUID: &'static str = "258EAFA5-E914-47DA-95CA-C5AB0DC85B11";

/// The SHA-1 digest of a byte sequence.
pub uninterp spec fn sha1_of(data: Seq<u8>) -> Seq<u8>;

/// The standard, padded base64 encoding of a byte sequence.
pub uninterp spec fn base64_of(data: Seq<u8>) -> Seq<char>;

/// The bytes of the GUID.
pub open spec fn ws_guid_bytes() -> Seq<u8> {
    WS_GUID.spec_bytes()
}

/// The accept token for a key: base64 of the SHA-1 digest of the key
/// followed by the GUID.
pub open spec fn accept_token_of(key: Seq<u8>) -> Seq<char> {
    base64_of(sha1_of(key + ws_guid_bytes()))
}

/// Relies on `sha1::Sha1` through `digest::Digest::digest`: the SHA-1 digest
/// of `data`, whose output size is 20 bytes.
#[verifier::external_body]
fn sha1_digest(data: &[u8]) -> (r: Vec<u8>)
    ensures
        r@ == sha1_of(data@),
        r@.len() == 20,
{
    sha1::Sha1::digest(data).to_vec()
}

/// Relies on `base64::encode`: the standard alphabet with padding, four
/// ASCII characters for each started group of three bytes. It panics only
/// where that length overflows `usize`.
#[verifier::external_body]
fn base64_encode(data: &[u8]) -> (r: String)
    requires
        data@.len() <= usize::MAX / 2,
    ensures
        r@ == base64_of(data@),
        r@.len() == 4 * ((data@.len() + 2) / 3),
{
    base64::encode(data)
}

/// Turns the bytes of a `Sec-WebSocket-Key` value into the matching
/// `Sec-WebSocket-Accept` value.
pub fn convert_key(input: &[u8]) -> (r: String)
    ensures
        r@ == accept_token_of(input@),
        r@.len() == 28,
{
    let guid = WS_GUID.as_bytes();
    let mut data: Vec<u8> = Vec::new();
    let mut i: usize = 0;
    while i < input.len()
        invariant
            i <= input@.len(),
            data@ == input@.subrange(0, i as int),
        decreases input@.len() - i,
    {
        data.push(input[i]);
        i = i + 1;
    }
    let mut j: usize = 0;
    while j < guid.len()
        invariant
            guid@ == ws_guid_bytes(),
            j <= guid@.len(),
            data@ == input@ + guid@.subrange(0, j as int),
        decreases guid@.len() - j,
    {
        data.push(guid[j]);
        j = j + 1;
    }
    assert(input@ + guid@.subrange(0, guid@.len() as int) == input@ + ws_guid_bytes());
    let digest = sha1_digest(data.as_slice());
    base64_encode(digest.as_slice())
}

} // verus!
