use std::collections::HashMap;
use vstd::prelude::*;

use crate::content::{check_content_and_mint, mint_through, VerificationResult};
use crate::crypto::{
    attestation_payload, attestation_xdr_of, content_hash_of, ed25519_accepts, ed25519_verify, Hash32,
    Sig64,
};
use crate::keys::{has_hash, is_principal, without_hash, Principal};
use crate::provenance::ProvenanceContract;

verus! {

broadcast use vstd::std_specs::hash::group_hash_axioms;

/// Number of clock ticks for which a submitted request stays retrievable.
pub const REQUEST_TTL: u64 = 17280;

/// Typed failures of the registry's operations.
#[derive(Clone, Copy, Debug, PartialEq, Eq, PartialOrd, Ord)]
pub enum VerificationError {
    /// No live request has the given id.
    NotFound,
    /// No admin has been configured yet.
    Unauthorized,
    /// The attestation's signature does not verify under its provider key.
    InvalidSignature,
    /// The attestation does not belong to the request.
    InvalidAttestation,
    /// The request has already left the pending state.
    AlreadyProcessed,
    /// The TEE hash is not trusted.
    InvalidTeeHash,
    /// The registry already has an admin.
    AlreadyInitialized,
    /// The TEE hash is trusted already.
    DuplicateHash,
    /// The call does not carry the admin's approval.
    MissingAuthorization,
    /// A request with this id exists already.
    RequestExists,
}

/// Why a request was decided negatively.
#[derive(Clone, Copy, Debug, PartialEq, Eq)]
pub enum RejectReason {
    Unauthorized,
    InvalidTeeHash,
    InvalidAttestation,
    HashMismatch,
}

/// The name of a rejection reason: the variant's own name.
pub open spec fn reason_name(reason: RejectReason) -> Seq<char> {
    match reason {
        RejectReason::Unauthorized => "Unauthorized"@,
        RejectReason::InvalidTeeHash => "InvalidTeeHash"@,
        RejectReason::InvalidAttestation => "InvalidAttestation"@,
        RejectReason::HashMismatch => "HashMismatch"@,
    }
}

impl RejectReason {
    /// The reason's name, as recorded in events and logs.
    pub fn name(&self) -> (r: &'static str)
        ensures
            r@ == reason_name(*self),
    {
        match self {
            RejectReason::Unauthorized => "Unauthorized",
            RejectReason::InvalidTeeHash => "InvalidTeeHash",
            RejectReason::InvalidAttestation => "InvalidAttestation",
            RejectReason::HashMismatch => "HashMismatch",
        }
    }
}

/// Where a verification request stands.
#[derive(Clone, Copy, Debug, PartialEq, Eq)]
pub enum RequestState {
    Pending,
    Verified,
    Rejected(RejectReason),
    /// The content was verified but no certificate could be minted.
    Failed,
}

impl RequestState {
    /// Whether the request is still waiting for an attestation.
    pub fn is_pending(&self) -> (r: bool)
        ensures
            r == (*self == RequestState::Pending),
    {
        match self {
            RequestState::Pending => true,
            _ => false,
        }
    }
}

/// A verification request as stored.
#[derive(Clone, Copy, Debug, PartialEq, Eq)]
pub struct VerificationRequest {
    pub id: u64,
    /// The hash of the content, for requests made by submission.
    pub content_hash: Option<Hash32>,
    pub state: RequestState,
    /// The first clock tick at which the record can no longer be retrieved;
    /// `None` for a record that does not expire.
    pub expires_at: Option<u64>,
}

/// A signed claim that `provider` ran the TEE measured by `tee_hash` for
/// request `request_id`.
#[derive(Clone, Copy, Debug, PartialEq, Eq)]
pub struct Attestation {
    pub provider: Hash32,
    pub tee_hash: Hash32,
    pub request_id: u64,
}

#[derive(Clone, Copy, Debug, PartialEq, Eq)]
pub struct ProviderEventData {
    pub provider: Hash32,
}

#[derive(Clone, Copy, Debug, PartialEq, Eq)]
pub struct TeeHashEventData {
    pub hash: Hash32,
}

/// What the registry publishes when a trust set changes.
#[derive(Clone, Copy, Debug, PartialEq, Eq)]
pub enum RegistryEvent {
    ProviderAdded(ProviderEventData),
    ProviderRemoved(ProviderEventData),
    TeeHashAdded(TeeHashEventData),
    TeeHashRemoved(TeeHashEventData),
}

impl RegistryEvent {
    /// The namespace under which the registry's events are published.
    pub fn namespace(&self) -> (r: &'static str)
        ensures
            r@ == "registry"@,
    {
        "registry"
    }
}

/// The abstract state of a registry.
pub struct RegistryState {
    pub address: Principal,
    pub admin: Option<Principal>,
    pub provenance: Option<Principal>,
    pub providers: Set<Hash32>,
    pub tee_hashes: Set<Hash32>,
    pub requests: Map<u64, VerificationRequest>,
    /// The highest request id handed out or taken so far.
    pub last_id: u64,
    pub events: Seq<RegistryEvent>,
}

impl RegistryState {
    /// Each request is stored under its own id, and no id above `last_id`
    /// is taken.
    pub open spec fn wf(self) -> bool {
        forall|id: u64|
            #[trigger] self.requests.contains_key(id) ==> self.requests[id].id == id && id
                <= self.last_id
    }
}

/// Whether `req` can still be retrieved at tick `now`.
pub open spec fn is_live(req: VerificationRequest, now: u64) -> bool {
    match req.expires_at {
        None => true,
        Some(t) => now < t,
    }
}

/// The request with id `id` that is retrievable at tick `now`, if any.
pub open spec fn live_request(s: RegistryState, id: u64, now: u64) -> Option<VerificationRequest> {
    if s.requests.contains_key(id) && is_live(s.requests[id], now) {
        Some(s.requests[id])
    } else {
        None
    }
}

/// The outcome of an admin-gated call made with `approver`'s approval,
/// where `changed` is the state the change itself leads to.
pub open spec fn gated(
    s: RegistryState,
    approver: Principal,
    changed: RegistryState,
) -> (RegistryState, Result<(), VerificationError>) {
    if s.admin is None {
        (s, Err(VerificationError::Unauthorized))
    } else if !is_principal(s.admin, approver) {
        (s, Err(VerificationError::MissingAuthorization))
    } else {
        (changed, Ok(()))
    }
}

pub open spec fn add_provider_outcome(s: RegistryState, approver: Principal, key: Hash32) -> (
    RegistryState,
    Result<(), VerificationError>,
) {
    gated(
        s,
        approver,
        RegistryState {
            providers: s.providers.insert(key),
            events: s.events.push(RegistryEvent::ProviderAdded(ProviderEventData { provider: key })),
            ..s
        },
    )
}

pub open spec fn remove_provider_outcome(s: RegistryState, approver: Principal, key: Hash32) -> (
    RegistryState,
    Result<(), VerificationError>,
) {
    gated(
        s,
        approver,
        RegistryState {
            providers: s.providers.remove(key),
            events: s.events.push(
                RegistryEvent::ProviderRemoved(ProviderEventData { provider: key }),
            ),
            ..s
        },
    )
}

pub open spec fn add_tee_hash_outcome(s: RegistryState, approver: Principal, hash: Hash32) -> (
    RegistryState,
    Result<(), VerificationError>,
) {
    if s.admin is Some && is_principal(s.admin, approver) && s.tee_hashes.contains(hash) {
        (s, Err(VerificationError::DuplicateHash))
    } else {
        gated(
            s,
            approver,
            RegistryState {
                tee_hashes: s.tee_hashes.insert(hash),
                events: s.events.push(RegistryEvent::TeeHashAdded(TeeHashEventData { hash })),
                ..s
            },
        )
    }
}

pub open spec fn remove_tee_hash_outcome(s: RegistryState, approver: Principal, hash: Hash32) -> (
    RegistryState,
    Result<(), VerificationError>,
) {
    gated(
        s,
        approver,
        RegistryState {
            tee_hashes: s.tee_hashes.remove(hash),
            events: s.events.push(RegistryEvent::TeeHashRemoved(TeeHashEventData { hash })),
            ..s
        },
    )
}

/// The verdict on a validly signed attestation for a pending request:
/// provider trust first, then TEE-hash trust, then the request binding.
pub open spec fn verdict(s: RegistryState, request_id: u64, att: Attestation) -> RequestState {
    if !s.providers.contains(att.provider) {
        RequestState::Rejected(RejectReason::Unauthorized)
    } else if !s.tee_hashes.contains(att.tee_hash) {
        RequestState::Rejected(RejectReason::InvalidTeeHash)
    } else if att.request_id != request_id {
        RequestState::Rejected(RejectReason::InvalidAttestation)
    } else {
        RequestState::Verified
    }
}

/// Processing attestation `att` for request `request_id` at tick `now`,
/// where `signature_valid` says whether its signature verified.
pub open spec fn process_outcome(
    s: RegistryState,
    request_id: u64,
    att: Attestation,
    signature_valid: bool,
    now: u64,
) -> (RegistryState, Result<RequestState, VerificationError>) {
    match live_request(s, request_id, now) {
        None => (s, Err(VerificationError::NotFound)),
        Some(req) => if req.state != RequestState::Pending {
            (s, Err(VerificationError::AlreadyProcessed))
        } else if !signature_valid {
            (s, Err(VerificationError::InvalidSignature))
        } else {
            let st = verdict(s, request_id, att);
            (
                RegistryState {
                    requests: s.requests.insert(request_id, VerificationRequest { state: st, ..req }),
                    ..s
                },
                Ok(st),
            )
        },
    }
}

/// Whether the signature on `att` verifies under its provider key.
pub open spec fn signature_accepted(att: Attestation, signature: Sig64) -> bool {
    ed25519_accepts(
        att.provider@,
        attestation_xdr_of(att.provider@, att.tee_hash@, att.request_id),
        signature@,
    )
}

/// The first tick at which a request submitted at `now` is no longer
/// retrievable: `REQUEST_TTL` ticks later, or the clock's last value.
pub open spec fn expiry(now: u64) -> u64 {
    if now > u64::MAX - REQUEST_TTL {
        u64::MAX
    } else {
        (now + REQUEST_TTL) as u64
    }
}

/// The trust registry: the admin-curated provider and TEE-hash sets, and the
/// store of verification requests that attestations resolve.
#[derive(Debug)]
pub struct Registry {
    address: Principal,
    admin: Option<Principal>,
    provenance: Option<Principal>,
    providers: Vec<Hash32>,
    tee_hashes: Vec<Hash32>,
    requests: HashMap<u64, VerificationRequest>,
    last_id: u64,
    events: Vec<RegistryEvent>,
}

impl View for Registry {
    type V = RegistryState;

    closed spec fn view(&self) -> RegistryState {
        RegistryState {
            address: self.address,
            admin: self.admin,
            provenance: self.provenance,
            providers: self.providers@.to_set(),
            tee_hashes: self.tee_hashes@.to_set(),
            requests: self.requests@,
            last_id: self.last_id,
            events: self.events@,
        }
    }
}

impl Registry {
    /// A registry deployed at `address`, with no admin, empty trust sets and
    /// no requests.
    pub fn new(address: Principal) -> (r: Registry)
        ensures
            r@.wf(),
            r@.address == address,
            r@.admin is None,
            r@.provenance is None,
            r@.providers == Set::<Hash32>::empty(),
            r@.tee_hashes == Set::<Hash32>::empty(),
            r@.requests == Map::<u64, VerificationRequest>::empty(),
            r@.last_id == 0,
            r@.events == Seq::<RegistryEvent>::empty(),
    {
        let r = Registry {
            address,
            admin: None,
            provenance: None,
            providers: Vec::new(),
            tee_hashes: Vec::new(),
            requests: HashMap::new(),
            last_id: 0,
            events: Vec::new(),
        };
        assert(r.providers@.to_set() =~= Set::<Hash32>::empty());
        assert(r.tee_hashes@.to_set() =~= Set::<Hash32>::empty());
        r
    }

    /// Sets the admin, and the address of the certificate ledger that
    /// content verification mints through. Fails if an admin is set already.
    pub fn init(&mut self, admin: Principal, provenance: Principal) -> (r: Result<
        (),
        VerificationError,
    >)
        requires
            old(self)@.wf(),
        ensures
            final(self)@.wf(),
            old(self)@.admin is Some ==> r == Err::<(), _>(VerificationError::AlreadyInitialized)
                && final(self)@ == old(self)@,
            old(self)@.admin is None ==> r is Ok && final(self)@ == (RegistryState {
                admin: Some(admin),
                provenance: Some(provenance),
                ..old(self)@
            }),
    {
        if self.admin.is_some() {
            return Err(VerificationError::AlreadyInitialized);
        }
        self.admin = Some(admin);
        self.provenance = Some(provenance);
        Ok(())
    }

    /// The configured admin, if any.
    pub fn get_admin(&self) -> (r: Option<Principal>)
        ensures
            r == self@.admin,
    {
        self.admin
    }

    /// The address this registry is deployed at.
    pub fn address(&self) -> (r: Principal)
        ensures
            r == self@.address,
    {
        self.address
    }

    /// The events published so far, oldest first.
    pub fn events(&self) -> (r: &Vec<RegistryEvent>)
        ensures
            r@ == self@.events,
    {
        &self.events
    }

    fn check_admin(&self, approver: &Principal) -> (r: Result<(), VerificationError>)
        ensures
            r == gated(self@, *approver, self@).1,
    {
        match &self.admin {
            None => Err(VerificationError::Unauthorized),
            Some(a) => if a.same_as(approver) {
                Ok(())
            } else {
                Err(VerificationError::MissingAuthorization)
            },
        }
    }

    /// Trusts the provider key `provider`. Needs the admin's approval;
    /// trusting a trusted key again is not an error.
    pub fn add_provider(&mut self, approver: &Principal, provider: &Hash32) -> (r: Result<
        (),
        VerificationError,
    >)
        requires
            old(self)@.wf(),
        ensures
            final(self)@.wf(),
            (final(self)@, r) == add_provider_outcome(old(self)@, *approver, *provider),
    {
        let c = self.check_admin(approver);
        if c.is_err() {
            return c;
        }
        if !has_hash(&self.providers, provider) {
            proof {
                self.providers@.lemma_push_to_set_commute(*provider);
            }
            self.providers.push(*provider);
        }
        self.events.push(RegistryEvent::ProviderAdded(ProviderEventData { provider: *provider }));
        assert(self@.providers =~= old(self)@.providers.insert(*provider));
        assert(self@ == add_provider_outcome(old(self)@, *approver, *provider).0);
        Ok(())
    }

    /// Stops trusting the provider key `provider`. Needs the admin's
    /// approval; removing an untrusted key is not an error.
    pub fn remove_provider(&mut self, approver: &Principal, provider: &Hash32) -> (r: Result<
        (),
        VerificationError,
    >)
        requires
            old(self)@.wf(),
        ensures
            final(self)@.wf(),
            (final(self)@, r) == remove_provider_outcome(old(self)@, *approver, *provider),
    {
        let c = self.check_admin(approver);
        if c.is_err() {
            return c;
        }
        self.providers = without_hash(&self.providers, provider);
        self.events.push(RegistryEvent::ProviderRemoved(ProviderEventData { provider: *provider }));
        assert(self@ == remove_provider_outcome(old(self)@, *approver, *provider).0);
        Ok(())
    }

    /// Trusts the TEE measurement `hash`. Needs the admin's approval; a hash
    /// that is trusted already is refused.
    pub fn add_tee_hash(&mut self, approver: &Principal, hash: &Hash32) -> (r: Result<
        (),
        VerificationError,
    >)
        requires
            old(self)@.wf(),
        ensures
            final(self)@.wf(),
            (final(self)@, r) == add_tee_hash_outcome(old(self)@, *approver, *hash),
    {
        let c = self.check_admin(approver);
        if c.is_err() {
            return c;
        }
        if has_hash(&self.tee_hashes, hash) {
            return Err(VerificationError::DuplicateHash);
        }
        proof {
            self.tee_hashes@.lemma_push_to_set_commute(*hash);
        }
        self.tee_hashes.push(*hash);
        self.events.push(RegistryEvent::TeeHashAdded(TeeHashEventData { hash: *hash }));
        assert(self@.tee_hashes =~= old(self)@.tee_hashes.insert(*hash));
        assert(self@ == add_tee_hash_outcome(old(self)@, *approver, *hash).0);
        Ok(())
    }

    /// Stops trusting the TEE measurement `hash`. Needs the admin's
    /// approval; removing an untrusted hash is not an error.
    pub fn remove_tee_hash(&mut self, approver: &Principal, hash: &Hash32) -> (r: Result<
        (),
        VerificationError,
    >)
        requires
            old(self)@.wf(),
        ensures
            final(self)@.wf(),
            (final(self)@, r) == remove_tee_hash_outcome(old(self)@, *approver, *hash),
    {
        let c = self.check_admin(approver);
        if c.is_err() {
            return c;
        }
        self.tee_hashes = without_hash(&self.tee_hashes, hash);
        self.events.push(RegistryEvent::TeeHashRemoved(TeeHashEventData { hash: *hash }));
        assert(self@ == remove_tee_hash_outcome(old(self)@, *approver, *hash).0);
        Ok(())
    }

    /// Whether the provider key `provider` is trusted.
    pub fn has_provider(&self, provider: &Hash32) -> (r: bool)
        ensures
            r == self@.providers.contains(*provider),
    {
        has_hash(&self.providers, provider)
    }

    /// Whether the TEE measurement `hash` is trusted.
    pub fn has_tee_hash(&self, hash: &Hash32) -> (r: bool)
        ensures
            r == self@.tee_hashes.contains(*hash),
    {
        has_hash(&self.tee_hashes, hash)
    }

    /// Whether both the TEE measurement `hash` and the provider key
    /// `provider` are trusted.
    pub fn is_verified(&self, hash: &Hash32, provider: &Hash32) -> (r: bool)
        ensures
            r == (self@.tee_hashes.contains(*hash) && self@.providers.contains(*provider)),
    {
        self.has_tee_hash(hash) && self.has_provider(provider)
    }


    /// Stores a pending request under `id`, one that does not expire. Fails
    /// if a request with that id exists, whatever its state.
    pub fn create_request(&mut self, id: u64) -> (r: Result<(), VerificationError>)
        requires
            old(self)@.wf(),
        ensures
            final(self)@.wf(),
            old(self)@.requests.contains_key(id) ==> r == Err::<(), _>(
                VerificationError::RequestExists,
            ) && final(self)@ == old(self)@,
            !old(self)@.requests.contains_key(id) ==> r is Ok && final(self)@ == (RegistryState {
                requests: old(self)@.requests.insert(
                    id,
                    VerificationRequest {
                        id,
                        content_hash: None,
                        state: RequestState::Pending,
                        expires_at: None,
                    },
                ),
                last_id: if id > old(self)@.last_id {
                    id
                } else {
                    old(self)@.last_id
                },
                ..old(self)@
            }),
    {
        if self.requests.contains_key(&id) {
            return Err(VerificationError::RequestExists);
        }
        let req = VerificationRequest {
            id,
            content_hash: None,
            state: RequestState::Pending,
            expires_at: None,
        };
        self.requests.insert(id, req);
        if id > self.last_id {
            self.last_id = id;
        }
        Ok(())
    }

    /// Submits a request for the content with hash `content_hash` at tick
    /// `now`: it gets the next id, is pending, and stays retrievable for
    /// `REQUEST_TTL` ticks.
    pub fn submit_request(&mut self, content_hash: &Hash32, now: u64) -> (id: u64)
        requires
            old(self)@.wf(),
            old(self)@.last_id < u64::MAX,
        ensures
            final(self)@.wf(),
            id == old(self)@.last_id + 1,
            !old(self)@.requests.contains_key(id),
            final(self)@ == (RegistryState {
                requests: old(self)@.requests.insert(
                    id,
                    VerificationRequest {
                        id,
                        content_hash: Some(*content_hash),
                        state: RequestState::Pending,
                        expires_at: Some(expiry(now)),
                    },
                ),
                last_id: id,
                ..old(self)@
            }),
    {
        let id = self.last_id + 1;
        let expires_at = if now > u64::MAX - REQUEST_TTL {
            u64::MAX
        } else {
            now + REQUEST_TTL
        };
        let req = VerificationRequest {
            id,
            content_hash: Some(*content_hash),
            state: RequestState::Pending,
            expires_at: Some(expires_at),
        };
        self.requests.insert(id, req);
        self.last_id = id;
        id
    }

    /// The request with id `id`, if it is stored and still retrievable at
    /// tick `now`.
    pub fn get_request(&self, id: u64, now: u64) -> (r: Option<VerificationRequest>)
        ensures
            r == live_request(self@, id, now),
    {
        match self.requests.get(&id) {
            None => None,
            Some(req) => {
                let live = match req.expires_at {
                    None => true,
                    Some(t) => now < t,
                };
                if live {
                    Some(*req)
                } else {
                    None
                }
            },
        }
    }

    /// Resolves request `request_id` with attestation `attestation`, given
    /// whether the attestation's signature verified. Fails, changing
    /// nothing, when no such request is live, when it is no longer pending,
    /// or when the signature did not verify; otherwise records and returns
    /// the verdict.
    pub fn apply_attestation(
        &mut self,
        request_id: u64,
        attestation: &Attestation,
        signature_valid: bool,
        now: u64,
    ) -> (r: Result<RequestState, VerificationError>)
        requires
            old(self)@.wf(),
        ensures
            final(self)@.wf(),
            (final(self)@, r) == process_outcome(
                old(self)@,
                request_id,
                *attestation,
                signature_valid,
                now,
            ),
    {
        let req = match self.get_request(request_id, now) {
            None => {
                return Err(VerificationError::NotFound);
            },
            Some(req) => req,
        };
        if !req.state.is_pending() {
            return Err(VerificationError::AlreadyProcessed);
        }
        if !signature_valid {
            return Err(VerificationError::InvalidSignature);
        }
        let state = if !self.has_provider(&attestation.provider) {
            RequestState::Rejected(RejectReason::Unauthorized)
        } else if !self.has_tee_hash(&attestation.tee_hash) {
            RequestState::Rejected(RejectReason::InvalidTeeHash)
        } else if attestation.request_id != request_id {
            RequestState::Rejected(RejectReason::InvalidAttestation)
        } else {
            RequestState::Verified
        };
        self.requests.insert(request_id, VerificationRequest { state, ..req });
        Ok(state)
    }

    /// Processes an attestation for request `request_id` at tick `now`. The
    /// request must be live and pending; then the signature must verify
    /// under the attestation's provider key, over its canonical bytes. A
    /// signature that does not verify fails the call and changes nothing.
    /// Otherwise the request is decided: rejected for an untrusted provider,
    /// else for an untrusted TEE hash, else for an attestation made for
    /// another request, and verified if none of these applies.
    pub fn process_verification(
        &mut self,
        request_id: u64,
        attestation: &Attestation,
        signature: &Sig64,
        now: u64,
    ) -> (r: Result<RequestState, VerificationError>)
        requires
            old(self)@.wf(),
        ensures
            final(self)@.wf(),
            (final(self)@, r) == process_outcome(
                old(self)@,
                request_id,
                *attestation,
                signature_accepted(*attestation, *signature),
                now,
            ),
    {
        let pending = match self.get_request(request_id, now) {
            None => false,
            Some(req) => req.state.is_pending(),
        };
        let signature_valid = if pending {
            let payload = attestation_payload(
                &attestation.provider,
                &attestation.tee_hash,
                attestation.request_id,
            );
            ed25519_verify(&attestation.provider, payload.as_slice(), signature)
        } else {
            false
        };
        self.apply_attestation(request_id, attestation, signature_valid, now)
    }

    /// Checks `content` against `expected_hash`; on a match, mints a
    /// certificate owned by `owner` through `ledger` at tick `now`, on this
    /// registry's authority. That content matched and that a certificate
    /// was minted are reported separately.
    pub fn verify_and_mint(
        &self,
        ledger: &mut ProvenanceContract,
        content: &String,
        expected_hash: &String,
        owner: &Principal,
        now: u64,
    ) -> (r: VerificationResult)
        ensures
            r.content_hash@ == content_hash_of(content@),
            r.success == (content_hash_of(content@) == expected_hash@),
            !r.success ==> r.certificate_id is None && r.state == RequestState::Rejected(
                RejectReason::HashMismatch,
            ) && final(ledger)@ == old(ledger)@,
            r.success ==> (final(ledger)@, r.certificate_id) == mint_through(
                self@.provenance,
                self@.address,
                old(ledger)@,
                content_hash_of(content@),
                *owner,
                now,
            ),
            r.success ==> r.state == if r.certificate_id is Some {
                RequestState::Verified
            } else {
                RequestState::Failed
            },
    {
        check_content_and_mint(&self.provenance, &self.address, ledger, content, expected_hash, owner, now)
    }

} // impl Registry

} // verus!
