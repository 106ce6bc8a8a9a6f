use soroban_sdk::xdr::ToXdr;
use soroban_sdk::{BytesN, Env, IntoVal, Symbol, Val};
use stellarproof::attestation_payload;

/// What the Soroban host serializes for an `Attestation` contract type: a
/// map from the field names to the field values.
fn host_xdr(provider: &[u8; 32], tee_hash: &[u8; 32], request_id: u64) -> Vec<u8> {
    let env = Env::default();
    let mut fields: soroban_sdk::Map<Symbol, Val> = soroban_sdk::Map::new(&env);
    fields.set(Symbol::new(&env, "provider"), BytesN::from_array(&env, provider).into_val(&env));
    fields.set(Symbol::new(&env, "tee_hash"), BytesN::from_array(&env, tee_hash).into_val(&env));
    fields.set(Symbol::new(&env, "request_id"), request_id.into_val(&env));
    let bytes = fields.to_xdr(&env);
    let mut out = vec![0u8; bytes.len() as usize];
    bytes.copy_into_slice(&mut out);
    out
}

#[test]
fn test_attestation_payload_matches_host_encoding() {
    let provider = [1u8; 32];
    let tee_hash = [77u8; 32];
    assert_eq!(attestation_payload(&provider, &tee_hash, 1), host_xdr(&provider, &tee_hash, 1));
    assert_eq!(
        attestation_payload(&provider, &tee_hash, u64::MAX),
        host_xdr(&provider, &tee_hash, u64::MAX)
    );
}

#[test]
fn test_attestation_payload_layout() {
    let payload = attestation_payload(&[1u8; 32], &[2u8; 32], 0x0102030405060708);
    let mut expected: Vec<u8> = vec![0, 0, 0, 17, 0, 0, 0, 1, 0, 0, 0, 3];
    expected.extend_from_slice(&[0, 0, 0, 15, 0, 0, 0, 8]);
    expected.extend_from_slice(b"provider");
    expected.extend_from_slice(&[0, 0, 0, 13, 0, 0, 0, 32]);
    expected.extend_from_slice(&[1u8; 32]);
    expected.extend_from_slice(&[0, 0, 0, 15, 0, 0, 0, 10]);
    expected.extend_from_slice(b"request_id\0\0");
    expected.extend_from_slice(&[0, 0, 0, 5, 1, 2, 3, 4, 5, 6, 7, 8]);
    expected.extend_from_slice(&[0, 0, 0, 15, 0, 0, 0, 8]);
    expected.extend_from_slice(b"tee_hash");
    expected.extend_from_slice(&[0, 0, 0, 13, 0, 0, 0, 32]);
    expected.extend_from_slice(&[2u8; 32]);
    assert_eq!(payload, expected);
}
