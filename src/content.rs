use vstd::prelude::*;

use crate::crypto::{content_digest_hex, content_hash_of};
use crate::keys::Principal;
use crate::provenance::{
    mint_outcome, CertificateDetails, DetailsView, LedgerState, ProvenanceContract,
};
use crate::registry::{RejectReason, RequestState};

verus! {

/// The outcome of checking content against an expected hash. Whether the
/// content matched and whether a certificate was minted are told apart:
/// `success` is the first, `certificate_id` the second.
#[derive(Clone, Debug, PartialEq, Eq)]
pub struct VerificationResult {
    pub success: bool,
    pub content_hash: String,
    pub certificate_id: Option<u64>,
    /// `Verified` when a certificate was minted, `Failed` when the content
    /// matched but minting failed, `Rejected(HashMismatch)` otherwise.
    pub state: RequestState,
}

/// What a certificate minted for content with hash `hash` holds.
pub open spec fn content_details(hash: Seq<char>) -> DetailsView {
    DetailsView { storage_id: "unknown"@, manifest_hash: hash, attestation_hash: ""@ }
}

/// Minting for content with hash `hash` through the ledger `l`, by the
/// component at `minter` whose configured ledger address is `provenance`.
/// Nothing is minted when no ledger is configured, when `l` is not the
/// configured one, when its ids are used up, or when the ledger refuses.
pub open spec fn mint_through(
    provenance: Option<Principal>,
    minter: Principal,
    l: LedgerState,
    hash: Seq<char>,
    owner: Principal,
    now: u64,
) -> (LedgerState, Option<u64>) {
    if provenance != Some(l.address) || l.certificates.len() >= u64::MAX {
        (l, None)
    } else {
        match mint_outcome(l, minter, owner, content_details(hash), now).1 {
            Ok(id) => (mint_outcome(l, minter, owner, content_details(hash), now).0, Some(id)),
            Err(_) => (l, None),
        }
    }
}

/// Settles a content check whose computed hash is `content_hash`: on a
/// match with `expected_hash`, mints a certificate for it through `ledger`
/// on behalf of the component at `minter`, whose configured ledger address
/// is `provenance`.
pub fn settle_content_check(
    provenance: &Option<Principal>,
    minter: &Principal,
    ledger: &mut ProvenanceContract,
    content_hash: String,
    expected_hash: &String,
    owner: &Principal,
    now: u64,
) -> (r: VerificationResult)
    ensures
        r.content_hash@ == content_hash@,
        r.success == (content_hash@ == expected_hash@),
        !r.success ==> r.certificate_id is None && r.state == RequestState::Rejected(
            RejectReason::HashMismatch,
        ) && final(ledger)@ == old(ledger)@,
        r.success ==> (final(ledger)@, r.certificate_id) == mint_through(
            *provenance,
            *minter,
            old(ledger)@,
            content_hash@,
            *owner,
            now,
        ),
        r.success ==> r.state == if r.certificate_id is Some {
            RequestState::Verified
        } else {
            RequestState::Failed
        },
{
    if content_hash != *expected_hash {
        return VerificationResult {
            success: false,
            content_hash,
            certificate_id: None,
            state: RequestState::Rejected(RejectReason::HashMismatch),
        };
    }
    let configured = match provenance {
        Some(p) => p.same_as(&ledger.address()),
        None => false,
    };
    if !configured || ledger.len() as u64 >= u64::MAX {
        return VerificationResult {
            success: true,
            content_hash,
            certificate_id: None,
            state: RequestState::Failed,
        };
    }
    let details = CertificateDetails {
        storage_id: String::from_str("unknown"),
        manifest_hash: content_hash.clone(),
        attestation_hash: String::from_str(""),
    };
    assert(details@ == content_details(content_hash@));
    match ledger.mint(minter, owner, details, now) {
        Ok(id) => VerificationResult {
            success: true,
            content_hash,
            certificate_id: Some(id),
            state: RequestState::Verified,
        },
        Err(_) => VerificationResult {
            success: true,
            content_hash,
            certificate_id: None,
            state: RequestState::Failed,
        },
    }
}

/// Checks `content` against `expected_hash` and, on a match, mints a
/// certificate through `ledger`, as `settle_content_check` does with the
/// content's hash.
pub fn check_content_and_mint(
    provenance: &Option<Principal>,
    minter: &Principal,
    ledger: &mut ProvenanceContract,
    content: &String,
    expected_hash: &String,
    owner: &Principal,
    now: u64,
) -> (r: VerificationResult)
    ensures
        r.content_hash@ == content_hash_of(content@),
        r.success == (content_hash_of(content@) == expected_hash@),
        !r.success ==> r.certificate_id is None && r.state == RequestState::Rejected(
            RejectReason::HashMismatch,
        ) && final(ledger)@ == old(ledger)@,
        r.success ==> (final(ledger)@, r.certificate_id) == mint_through(
            *provenance,
            *minter,
            old(ledger)@,
            content_hash_of(content@),
            *owner,
            now,
        ),
        r.success ==> r.state == if r.certificate_id is Some {
            RequestState::Verified
        } else {
            RequestState::Failed
        },
{
    let content_hash = content_digest_hex(content);
    settle_content_check(provenance, minter, ledger, content_hash, expected_hash, owner, now)
}

/// A component that checks content against expected hashes and mints
/// certificates for what matches.
#[derive(Debug)]
pub struct StellarProofContract {
    address: Principal,
    provenance: Option<Principal>,
}

impl StellarProofContract {
    /// A component deployed at `address`, with no ledger configured.
    pub fn new(address: Principal) -> (r: StellarProofContract)
        ensures
            r.address_spec() == address,
            r.provenance_spec() is None,
    {
        StellarProofContract { address, provenance: None }
    }

    pub closed spec fn address_spec(&self) -> Principal {
        self.address
    }

    pub closed spec fn provenance_spec(&self) -> Option<Principal> {
        self.provenance
    }

    /// Configures the address of the ledger to mint through.
    pub fn initialize(&mut self, provenance_address: Principal)
        ensures
            final(self).provenance_spec() == Some(provenance_address),
            final(self).address_spec() == old(self).address_spec(),
    {
        self.provenance = Some(provenance_address);
    }

    /// Checks `content` against `expected_hash`; on a match, mints a
    /// certificate owned by `owner` through `ledger` at tick `now`.
    pub fn verify_and_mint(
        &self,
        ledger: &mut ProvenanceContract,
        content: &String,
        expected_hash: &String,
        owner: &Principal,
        now: u64,
    ) -> (r: VerificationResult)
        ensures
            r.content_hash@ == content_hash_of(content@),
            r.success == (content_hash_of(content@) == expected_hash@),
            !r.success ==> r.certificate_id is None && r.state == RequestState::Rejected(
                RejectReason::HashMismatch,
            ) && final(ledger)@ == old(ledger)@,
            r.success ==> (final(ledger)@, r.certificate_id) == mint_through(
                self.provenance_spec(),
                self.address_spec(),
                old(ledger)@,
                content_hash_of(content@),
                *owner,
                now,
            ),
            r.success ==> r.state == if r.certificate_id is Some {
                RequestState::Verified
            } else {
                RequestState::Failed
            },
    {
        check_content_and_mint(&self.provenance, &self.address, ledger, content, expected_hash, owner, now)
    }
}

} // verus!
