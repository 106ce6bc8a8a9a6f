use stellarproof::{CertificateDetails, Principal, ProvenanceContract, ProvenanceError};

fn principal(seed: u8) -> Principal {
    Principal { id: [seed; 32] }
}

fn details(storage_id: &str, manifest_hash: &str, attestation_hash: &str) -> CertificateDetails {
    CertificateDetails {
        storage_id: storage_id.to_string(),
        manifest_hash: manifest_hash.to_string(),
        attestation_hash: attestation_hash.to_string(),
    }
}

const NOW: u64 = 1_700_000_000;

#[test]
fn test_mint_certificate() {
    let mut client = ProvenanceContract::new(principal(100));
    let oracle = principal(1);
    let owner = principal(2);
    client.initialize(oracle).unwrap();

    let details = details("storage_abc123", "abc123hash", "attest_abc123");
    let cert_id = client.mint(&oracle, &owner, details.clone(), NOW).unwrap();
    assert_eq!(cert_id, 1);

    let cert = client.get_certificate(cert_id).unwrap();
    assert_eq!(cert.storage_id, details.storage_id);
    assert_eq!(cert.manifest_hash, details.manifest_hash);
    assert_eq!(cert.attestation_hash, details.attestation_hash);
    assert_eq!(cert.creator, owner);
    assert_eq!(cert.timestamp, NOW, "timestamp must be set at mint time");
}

#[test]
fn test_mint_multiple_certificates() {
    let mut client = ProvenanceContract::new(principal(100));
    let oracle = principal(1);
    let owner1 = principal(2);
    let owner2 = principal(3);
    client.initialize(oracle).unwrap();

    let cert_id1 = client.mint(&oracle, &owner1, details("s1", "hash1", "a1"), NOW).unwrap();
    let cert_id2 = client.mint(&oracle, &owner2, details("s2", "hash2", "a2"), NOW).unwrap();
    let cert_id3 = client.mint(&oracle, &owner1, details("s3", "hash3", "a3"), NOW).unwrap();

    assert_eq!(cert_id1, 1);
    assert_eq!(cert_id2, 2);
    assert_eq!(cert_id3, 3);

    client.get_certificate(cert_id1).unwrap();
    client.get_certificate(cert_id2).unwrap();
    client.get_certificate(cert_id3).unwrap();
    assert_eq!(client.certificate_for_manifest(&"hash2".to_string()), Some(2));
}

#[test]
fn test_get_nonexistent_certificate() {
    let client = ProvenanceContract::new(principal(100));
    match client.get_certificate(999) {
        Err(ProvenanceError::CertificateNotFound) => {}
        other => panic!("expected CertificateNotFound error, got: {other:?}"),
    }
    assert_eq!(client.get_certificate(0), Err(ProvenanceError::CertificateNotFound));
}

#[test]
fn test_mint_without_initialization_fails() {
    let mut client = ProvenanceContract::new(principal(100));
    let owner = principal(2);
    let result = client.mint(&principal(1), &owner, details("s", "hash", "a"), NOW);
    assert_eq!(result, Err(ProvenanceError::NotInitialized));
    assert_eq!(client.len(), 0);
}

#[test]
fn test_double_initialization_fails() {
    let mut client = ProvenanceContract::new(principal(100));
    let oracle = principal(1);
    client.initialize(oracle).unwrap();
    assert_eq!(client.initialize(oracle), Err(ProvenanceError::AlreadyInitialized));
}

#[test]
fn test_mint_without_authority_approval_fails() {
    let mut client = ProvenanceContract::new(principal(100));
    client.initialize(principal(1)).unwrap();
    let owner = principal(2);
    // The owner's approval is not the minting authority's.
    let result = client.mint(&owner, &owner, details("s", "hash", "a"), NOW);
    assert_eq!(result, Err(ProvenanceError::MissingAuthorization));
    assert_eq!(client.len(), 0);
}

#[test]
fn test_certificate_minted_event() {
    let mut client = ProvenanceContract::new(principal(100));
    let oracle = principal(1);
    let owner = principal(2);
    client.initialize(oracle).unwrap();

    let cert_id = client.mint(&oracle, &owner, details("sid", "mhash", "ahash"), NOW).unwrap();
    assert_eq!(cert_id, 1);

    let events_str = format!("{:#?}", client.events());
    assert!(
        events_str.contains("CertificateMinted") || events_str.contains("certificate_minted"),
        "CertificateMinted event should be emitted; events: {events_str}"
    );
    let event = &client.events()[0];
    assert_eq!(event.owner, owner);
    assert_eq!(event.certificate_id, 1);
    assert_eq!(event.manifest_hash, "mhash");
}

#[test]
fn test_immutable_timestamp() {
    let mut client = ProvenanceContract::new(principal(100));
    let oracle = principal(1);
    let owner = principal(2);
    client.initialize(oracle).unwrap();

    let cert_id = client.mint(&oracle, &owner, details("sid", "mhash", "ahash"), NOW).unwrap();
    let cert = client.get_certificate(cert_id).unwrap();
    let stored_timestamp = cert.timestamp;
    assert_eq!(stored_timestamp, NOW, "timestamp must equal ledger time at mint");

    let cert_again = client.get_certificate(cert_id).unwrap();
    assert_eq!(
        cert_again.timestamp, stored_timestamp,
        "timestamp is immutable and must not change on subsequent reads"
    );
}

#[test]
fn test_prevent_duplicate_manifest_hash_fails_second_mint() {
    let mut client = ProvenanceContract::new(principal(100));
    let oracle = principal(1);
    let owner = principal(2);
    client.initialize(oracle).unwrap();

    let first = client.mint(&oracle, &owner, details("s1", "dup_hash", "a1"), NOW).unwrap();
    let before = client.get_certificate(first).unwrap();
    let second = client.mint(&oracle, &owner, details("s2", "dup_hash", "a2"), NOW + 5);
    assert_eq!(second, Err(ProvenanceError::DuplicateCertificate));
    assert_eq!(client.get_certificate(first).unwrap(), before);
    assert_eq!(client.len(), 1);
}

#[test]
fn test_certificate_unchanged_by_later_operations() {
    let mut client = ProvenanceContract::new(principal(100));
    let oracle = principal(1);
    client.initialize(oracle).unwrap();
    let id = client.mint(&oracle, &principal(2), details("s", "m", "a"), 10).unwrap();
    let fetched = client.get_certificate(id).unwrap();

    client.mint(&oracle, &principal(3), details("s2", "m2", "a2"), 20).unwrap();
    let _ = client.mint(&principal(4), &principal(3), details("s3", "m3", "a3"), 30);
    let _ = client.mint(&oracle, &principal(3), details("s4", "m", "a4"), 40);
    let _ = client.initialize(principal(9));

    assert_eq!(client.get_certificate(id).unwrap(), fetched);
}
