use vstd::prelude::*;
use vstd::utf8::encode_utf8;
use soroban_sdk::xdr::{Limits, ScMap, ScSymbol, ScVal, WriteXdr};

verus! {

/// A 32-byte value: an Ed25519 public key or a SHA-256 digest.
pub type Hash32 = [u8; 32];

/// A 64-byte Ed25519 signature.
pub type Sig64 = [u8; 64];

/// Whether Ed25519 accepts `signature` over `message` for the encoded
/// public key `key`, under strict verification.
pub uninterp spec fn ed25519_accepts(key: Seq<u8>, message: Seq<u8>, signature: Seq<u8>) -> bool;

/// The SHA-256 digest of `data`.
pub uninterp spec fn sha256_of(data: Seq<u8>) -> Seq<u8>;

/// Relies on ed25519_dalek's `VerifyingKey::from_bytes` and
/// `VerifyingKey::verify_strict`, the check that the Soroban host performs:
/// the answer depends on the three byte strings alone. A key that does not
/// decode to a curve point is not accepted.
#[verifier::external_body]
pub(crate) fn ed25519_verify(key: &Hash32, message: &[u8], signature: &Sig64) -> (r: bool)
    ensures
        r == ed25519_accepts(key@, message@, signature@),
{
    match ed25519_dalek::VerifyingKey::from_bytes(key) {
        Ok(vk) => vk.verify_strict(message, &ed25519_dalek::Signature::from_bytes(signature)).is_ok(),
        Err(_) => false,
    }
}

/// Relies on sha2's `Sha256::digest`: 32 bytes, determined by the input.
#[verifier::external_body]
pub(crate) fn sha256(data: &[u8]) -> (r: Hash32)
    ensures
        r@ == sha256_of(data@),
{
    <sha2::Sha256 as sha2::Digest>::digest(data).into()
}

/// Relies on `String::push`: appends one character.
#[verifier::external_body]
pub(crate) fn push_char(s: &mut String, c: char)
    ensures
        final(s)@ == old(s)@.push(c),
{
    s.push(c)
}

/// The XDR encoding of an attestation as the Soroban host serializes it:
/// an `ScVal` map from the field names `provider`, `request_id` and
/// `tee_hash` (as symbols) to the key bytes, the request id as a `u64`, and
/// the hash bytes.
pub uninterp spec fn attestation_xdr_of(provider: Seq<u8>, tee_hash: Seq<u8>, request_id: u64) -> Seq<u8>;

/// Relies on stellar-xdr, through soroban_sdk::xdr: the `ScSymbol`,
/// `ScVal` conversions, `ScMap::sorted_from` and `WriteXdr::to_xdr`. The
/// encoding depends on the three values alone. None of the conversions can
/// fail here: the symbols are short and valid, byte strings are unbounded,
/// and writing to memory under no limits succeeds.
#[verifier::external_body]
fn attestation_xdr(provider: &Hash32, tee_hash: &Hash32, request_id: u64) -> (r: Vec<u8>)
    ensures
        r@ == attestation_xdr_of(provider@, tee_hash@, request_id),
{
    let pairs: [(ScVal, ScVal); 3] = [
        (ScSymbol::try_from("provider").unwrap().into(), ScVal::try_from(provider).unwrap()),
        (ScSymbol::try_from("request_id").unwrap().into(), ScVal::from(request_id)),
        (ScSymbol::try_from("tee_hash").unwrap().into(), ScVal::try_from(tee_hash).unwrap()),
    ];
    let map = ScMap::sorted_from(pairs).unwrap();
    ScVal::Map(Some(map)).to_xdr(Limits::none()).unwrap()
}

/// The bytes over which a provider signs an attestation: the attestation's
/// XDR encoding, as for the on-chain `Attestation` type.
pub fn attestation_payload(provider: &Hash32, tee_hash: &Hash32, request_id: u64) -> (r: Vec<u8>)
    ensures
        r@ == attestation_xdr_of(provider@, tee_hash@, request_id),
{
    attestation_xdr(provider, tee_hash, request_id)
}

/// The lower-case hexadecimal digit for `d < 16`.
pub open spec fn hex_digit(d: u8) -> char {
    if d < 10 {
        ((48 + d) as u8) as char
    } else {
        ((87 + d) as u8) as char
    }
}

/// The lower-case hexadecimal text of the first `n` bytes of `b`, two
/// digits per byte, high nibble first.
pub open spec fn hex_prefix(b: Seq<u8>, n: nat) -> Seq<char>
    decreases n,
{
    if n == 0 {
        Seq::empty()
    } else {
        hex_prefix(b, (n - 1) as nat).push(hex_digit(b[n - 1] / 16)).push(hex_digit(b[n - 1] % 16))
    }
}

/// The content hash of a text: the hexadecimal of the first eight bytes of
/// the SHA-256 digest of its UTF-8 encoding.
pub open spec fn content_hash_of(content: Seq<char>) -> Seq<char> {
    hex_prefix(sha256_of(encode_utf8(content)), 8)
}

fn hex_char(d: u8) -> (c: char)
    requires
        d < 16,
    ensures
        c == hex_digit(d),
{
    if d < 10 {
        (48u8 + d) as char
    } else {
        (87u8 + d) as char
    }
}

/// Computes the content hash of `content`: sixteen lower-case hexadecimal
/// digits taken from the start of its SHA-256 digest.
pub fn content_digest_hex(content: &String) -> (r: String)
    ensures
        r@ == content_hash_of(content@),
        r@.len() == 16,
{
    let digest = sha256(content.as_str().as_bytes());
    let mut out = String::new();
    let mut i: usize = 0;
    while i < 8
        invariant
            i <= 8,
            digest@ == sha256_of(encode_utf8(content@)),
            out@ == hex_prefix(digest@, i as nat),
            out@.len() == 2 * i,
        decreases 8 - i,
    {
        let b = digest[i];
        push_char(&mut out, hex_char(b / 16));
        push_char(&mut out, hex_char(b % 16));
        i = i + 1;
    }
    out
}

} // verus!
