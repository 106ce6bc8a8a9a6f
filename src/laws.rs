//! Properties that hold across calls, proved over the components' abstract
//! states.
use vstd::prelude::*;

use crate::crypto::Hash32;
use crate::keys::Principal;
use crate::provenance::{
    apply_ledger_op, apply_ledger_ops, certificate_lookup, mint_outcome, CertificateView, DetailsView,
    initialize_outcome, LedgerOp, LedgerState, ProvenanceError,
};
use crate::registry::{
    add_provider_outcome, add_tee_hash_outcome, live_request, process_outcome,
    remove_provider_outcome, remove_tee_hash_outcome, Attestation, RegistryState, RejectReason,
    RequestState, VerificationError, VerificationRequest,
};

verus! {

/// Processing a live, pending request with a valid signature succeeds and
/// decides it; processing it again with the same arguments fails with
/// `AlreadyProcessed` and changes nothing, so a request is never decided
/// twice.
pub proof fn process_decides_once(
    s: RegistryState,
    request_id: u64,
    att: Attestation,
    signature_valid: bool,
    now: u64,
)
    requires
        live_request(s, request_id, now) matches Some(req) && req.state == RequestState::Pending,
        signature_valid,
    ensures
        ({
            let (s1, r1) = process_outcome(s, request_id, att, signature_valid, now);
            let (s2, r2) = process_outcome(s1, request_id, att, signature_valid, now);
            &&& r1 matches Ok(st) && st != RequestState::Pending
                && live_request(s1, request_id, now) == Some(
                VerificationRequest { state: st, ..live_request(s, request_id, now)->Some_0 },
            )
            &&& r2 == Err::<RequestState, _>(VerificationError::AlreadyProcessed)
            &&& s2 == s1
        }),
{
}

/// For a live, pending request with a valid signature, an attestation whose
/// provider and TEE hash are not both trusted is rejected, and the reason
/// names the first check that failed: the provider's, then the TEE hash's.
pub proof fn untrusted_pair_is_rejected(s: RegistryState, request_id: u64, att: Attestation, now: u64)
    requires
        live_request(s, request_id, now) matches Some(req) && req.state == RequestState::Pending,
        !(s.providers.contains(att.provider) && s.tee_hashes.contains(att.tee_hash)),
    ensures
        ({
            let reason = if !s.providers.contains(att.provider) {
                RejectReason::Unauthorized
            } else {
                RejectReason::InvalidTeeHash
            };
            let (s1, r) = process_outcome(s, request_id, att, true, now);
            &&& r == Ok::<_, VerificationError>(RequestState::Rejected(reason))
            &&& s1.requests[request_id].state == RequestState::Rejected(reason)
        }),
{
}

/// Once a certificate has been minted for a manifest hash, a second mint
/// for the same hash by the same authority fails with
/// `DuplicateCertificate`, and the ledger, the first certificate included,
/// stays as it was.
pub proof fn manifest_certified_once(
    l: LedgerState,
    approver: Principal,
    to: Principal,
    details: DetailsView,
    now: u64,
    to2: Principal,
    details2: DetailsView,
    now2: u64,
)
    requires
        mint_outcome(l, approver, to, details, now).1 is Ok,
        details2.manifest_hash == details.manifest_hash,
    ensures
        ({
            let (l1, r1) = mint_outcome(l, approver, to, details, now);
            let (l2, r2) = mint_outcome(l1, approver, to2, details2, now2);
            &&& r2 == Err::<u64, _>(ProvenanceError::DuplicateCertificate)
            &&& l2 == l1
            &&& certificate_lookup(l2, r1->Ok_0) == certificate_lookup(l1, r1->Ok_0)
        }),
{
    let (l1, r1) = mint_outcome(l, approver, to, details, now);
    let i = l.certificates.len() as int;
    assert(l1.certificates[i].manifest_hash == details2.manifest_hash);
}

/// A minted certificate reads back as minted (ids still fitting in 64
/// bits, as `mint` requires), and no later mint, whatever
/// its outcome, changes it; nor does configuring the minting authority.
pub proof fn certificates_are_immutable(
    l: LedgerState,
    id: u64,
    approver: Principal,
    to: Principal,
    details: DetailsView,
    now: u64,
    oracle: Principal,
)
    requires
        l.certificates.len() < u64::MAX,
    ensures
        mint_outcome(l, approver, to, details, now).1 matches Ok(new_id) ==> certificate_lookup(
            mint_outcome(l, approver, to, details, now).0,
            new_id,
        ) == Ok::<_, ProvenanceError>(
            CertificateView {
                storage_id: details.storage_id,
                manifest_hash: details.manifest_hash,
                attestation_hash: details.attestation_hash,
                creator: to,
                timestamp: now,
            },
        ),
        certificate_lookup(l, id) is Ok ==> certificate_lookup(
            mint_outcome(l, approver, to, details, now).0,
            id,
        ) == certificate_lookup(l, id),
        certificate_lookup(initialize_outcome(l, oracle).0, id) == certificate_lookup(l, id),
{
}

/// No sequence of ledger calls, whatever their outcomes, changes a
/// certificate that exists: a certificate read right after its mint reads
/// the same after any later calls.
pub proof fn certificates_survive_any_calls(l: LedgerState, id: u64, ops: Seq<LedgerOp>)
    requires
        certificate_lookup(l, id) is Ok,
    ensures
        certificate_lookup(apply_ledger_ops(l, ops), id) == certificate_lookup(l, id),
    decreases ops.len(),
{
    if ops.len() > 0 {
        let next = apply_ledger_op(l, ops[0]);
        assert(certificate_lookup(next, id) == certificate_lookup(l, id));
        certificates_survive_any_calls(next, id, ops.drop_first());
    }
}

/// Before an admin is configured, every admin-gated change of the trust
/// sets fails with `Unauthorized` and changes nothing.
pub proof fn gated_changes_need_admin(s: RegistryState, approver: Principal, key: Hash32)
    requires
        s.admin is None,
    ensures
        add_provider_outcome(s, approver, key) == (s, Err::<(), _>(VerificationError::Unauthorized)),
        remove_provider_outcome(s, approver, key) == (s, Err::<(), _>(
            VerificationError::Unauthorized,
        )),
        add_tee_hash_outcome(s, approver, key) == (s, Err::<(), _>(VerificationError::Unauthorized)),
        remove_tee_hash_outcome(s, approver, key) == (s, Err::<(), _>(
            VerificationError::Unauthorized,
        )),
{
}

} // verus!
