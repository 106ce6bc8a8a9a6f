use vstd::prelude::*;

use crate::keys::{is_principal, slot_holds, Principal};

verus! {

/// Typed failures of the certificate ledger.
#[derive(Clone, Copy, Debug, PartialEq, Eq, PartialOrd, Ord)]
pub enum ProvenanceError {
    /// No certificate has the given id.
    CertificateNotFound,
    /// No minting authority has been configured yet.
    NotInitialized,
    /// A minting authority is configured already.
    AlreadyInitialized,
    /// The call does not carry the minting authority's approval.
    MissingAuthorization,
    /// A certificate for this manifest hash exists already.
    DuplicateCertificate,
}

/// What a certificate is minted for.
#[derive(Clone, Debug, PartialEq, Eq)]
pub struct CertificateDetails {
    pub storage_id: String,
    pub manifest_hash: String,
    pub attestation_hash: String,
}

/// An immutable record that content was attested.
#[derive(Clone, Debug, PartialEq, Eq)]
pub struct Certificate {
    pub storage_id: String,
    pub manifest_hash: String,
    pub attestation_hash: String,
    pub creator: Principal,
    /// The clock reading at mint time.
    pub timestamp: u64,
}

/// The published record of a mint.
#[derive(Clone, Debug, PartialEq, Eq)]
pub struct CertificateMinted {
    pub owner: Principal,
    pub certificate_id: u64,
    pub manifest_hash: String,
}

pub struct DetailsView {
    pub storage_id: Seq<char>,
    pub manifest_hash: Seq<char>,
    pub attestation_hash: Seq<char>,
}

pub struct CertificateView {
    pub storage_id: Seq<char>,
    pub manifest_hash: Seq<char>,
    pub attestation_hash: Seq<char>,
    pub creator: Principal,
    pub timestamp: u64,
}

pub struct MintedView {
    pub owner: Principal,
    pub certificate_id: u64,
    pub manifest_hash: Seq<char>,
}

impl View for CertificateDetails {
    type V = DetailsView;

    open spec fn view(&self) -> DetailsView {
        DetailsView {
            storage_id: self.storage_id@,
            manifest_hash: self.manifest_hash@,
            attestation_hash: self.attestation_hash@,
        }
    }
}

impl View for Certificate {
    type V = CertificateView;

    open spec fn view(&self) -> CertificateView {
        CertificateView {
            storage_id: self.storage_id@,
            manifest_hash: self.manifest_hash@,
            attestation_hash: self.attestation_hash@,
            creator: self.creator,
            timestamp: self.timestamp,
        }
    }
}

impl View for CertificateMinted {
    type V = MintedView;

    open spec fn view(&self) -> MintedView {
        MintedView {
            owner: self.owner,
            certificate_id: self.certificate_id,
            manifest_hash: self.manifest_hash@,
        }
    }
}

impl Certificate {
    /// A copy of this certificate.
    pub fn duplicate(&self) -> (r: Certificate)
        ensures
            r@ == self@,
    {
        Certificate {
            storage_id: self.storage_id.clone(),
            manifest_hash: self.manifest_hash.clone(),
            attestation_hash: self.attestation_hash.clone(),
            creator: self.creator,
            timestamp: self.timestamp,
        }
    }
}

/// The abstract state of a certificate ledger: certificate `i + 1` is
/// `certificates[i]`.
pub struct LedgerState {
    pub address: Principal,
    pub oracle: Option<Principal>,
    pub certificates: Seq<CertificateView>,
    pub events: Seq<MintedView>,
}

/// Whether some certificate was minted for `manifest_hash`.
pub open spec fn is_certified(l: LedgerState, manifest_hash: Seq<char>) -> bool {
    exists|i: int|
        0 <= i < l.certificates.len() && #[trigger] l.certificates[i].manifest_hash == manifest_hash
}

/// The result of looking up certificate `id`.
pub open spec fn certificate_lookup(l: LedgerState, id: u64) -> Result<CertificateView, ProvenanceError> {
    if 1 <= id <= l.certificates.len() {
        Ok(l.certificates[id - 1])
    } else {
        Err(ProvenanceError::CertificateNotFound)
    }
}

/// Minting a certificate for `details` and owner `to` at tick `now`, on
/// `approver`'s approval.
pub open spec fn mint_outcome(
    l: LedgerState,
    approver: Principal,
    to: Principal,
    details: DetailsView,
    now: u64,
) -> (LedgerState, Result<u64, ProvenanceError>) {
    if l.oracle is None {
        (l, Err(ProvenanceError::NotInitialized))
    } else if !is_principal(l.oracle, approver) {
        (l, Err(ProvenanceError::MissingAuthorization))
    } else if is_certified(l, details.manifest_hash) {
        (l, Err(ProvenanceError::DuplicateCertificate))
    } else {
        let id = (l.certificates.len() + 1) as u64;
        (
            LedgerState {
                certificates: l.certificates.push(
                    CertificateView {
                        storage_id: details.storage_id,
                        manifest_hash: details.manifest_hash,
                        attestation_hash: details.attestation_hash,
                        creator: to,
                        timestamp: now,
                    },
                ),
                events: l.events.push(
                    MintedView { owner: to, certificate_id: id, manifest_hash: details.manifest_hash },
                ),
                ..l
            },
            Ok(id),
        )
    }
}

/// Making `oracle` the minting authority.
pub open spec fn initialize_outcome(l: LedgerState, oracle: Principal) -> (
    LedgerState,
    Result<(), ProvenanceError>,
) {
    if l.oracle is Some {
        (l, Err(ProvenanceError::AlreadyInitialized))
    } else {
        (LedgerState { oracle: Some(oracle), ..l }, Ok(()))
    }
}

/// A call that changes a ledger.
pub enum LedgerOp {
    Mint { approver: Principal, to: Principal, details: DetailsView, now: u64 },
    Initialize { oracle: Principal },
}

/// The ledger after `op`, whatever its outcome.
pub open spec fn apply_ledger_op(l: LedgerState, op: LedgerOp) -> LedgerState {
    match op {
        LedgerOp::Mint { approver, to, details, now } => mint_outcome(l, approver, to, details, now).0,
        LedgerOp::Initialize { oracle } => initialize_outcome(l, oracle).0,
    }
}

/// The ledger after the calls `ops`, in order.
pub open spec fn apply_ledger_ops(l: LedgerState, ops: Seq<LedgerOp>) -> LedgerState
    decreases ops.len(),
{
    if ops.len() == 0 {
        l
    } else {
        apply_ledger_ops(apply_ledger_op(l, ops[0]), ops.drop_first())
    }
}

/// The certificate ledger: append-only, one certificate per manifest hash,
/// minted only on the approval of the configured authority.
#[derive(Debug)]
pub struct ProvenanceContract {
    address: Principal,
    oracle: Option<Principal>,
    certificates: Vec<Certificate>,
    events: Vec<CertificateMinted>,
}

impl View for ProvenanceContract {
    type V = LedgerState;

    closed spec fn view(&self) -> LedgerState {
        LedgerState {
            address: self.address,
            oracle: self.oracle,
            certificates: self.certificates@.map_values(|c: Certificate| c@),
            events: self.events@.map_values(|e: CertificateMinted| e@),
        }
    }
}

impl ProvenanceContract {
    /// An empty ledger deployed at `address`, with no minting authority.
    pub fn new(address: Principal) -> (r: ProvenanceContract)
        ensures
            r@.address == address,
            r@.oracle is None,
            r@.certificates == Seq::<CertificateView>::empty(),
            r@.events == Seq::<MintedView>::empty(),
    {
        let r = ProvenanceContract { address, oracle: None, certificates: Vec::new(), events: Vec::new() };
        assert(r@.certificates =~= Seq::<CertificateView>::empty());
        assert(r@.events =~= Seq::<MintedView>::empty());
        r
    }

    /// Makes `oracle` the minting authority. Fails if one is configured.
    pub fn initialize(&mut self, oracle: Principal) -> (r: Result<(), ProvenanceError>)
        ensures
            (final(self)@, r) == initialize_outcome(old(self)@, oracle),
    {
        if self.oracle.is_some() {
            return Err(ProvenanceError::AlreadyInitialized);
        }
        self.oracle = Some(oracle);
        Ok(())
    }

    /// The address this ledger is deployed at.
    pub fn address(&self) -> (r: Principal)
        ensures
            r == self@.address,
    {
        self.address
    }

    /// The number of certificates minted.
    pub fn len(&self) -> (r: usize)
        ensures
            r == self@.certificates.len(),
    {
        self.certificates.len()
    }

    /// The mint events published so far, oldest first.
    pub fn events(&self) -> (r: &Vec<CertificateMinted>)
        ensures
            r@.map_values(|e: CertificateMinted| e@) == self@.events,
    {
        &self.events
    }

    /// The id of the certificate minted for `manifest_hash`, if any.
    pub fn certificate_for_manifest(&self, manifest_hash: &String) -> (r: Option<u64>)
        ensures
            r is None <==> !is_certified(self@, manifest_hash@),
            r matches Some(id) ==> 1 <= id <= self@.certificates.len()
                && self@.certificates[id - 1].manifest_hash == manifest_hash@,
    {
        let mut i: usize = 0;
        while i < self.certificates.len()
            invariant
                i <= self.certificates.len(),
                self@.certificates.len() == self.certificates.len(),
                forall|j: int| 0 <= j < i ==> self@.certificates[j].manifest_hash != manifest_hash@,
            decreases self.certificates.len() - i,
        {
            assert(self@.certificates[i as int] == self.certificates[i as int]@);
            if self.certificates[i].manifest_hash == *manifest_hash {
                assert(self@.certificates[i as int].manifest_hash == manifest_hash@);
                return Some((i + 1) as u64);
            }
            i = i + 1;
        }
        None
    }

    /// Mints a certificate for `details`, owned by `to` and stamped with
    /// `now`, on `approver`'s approval, which must be the minting
    /// authority's. A manifest hash is certified at most once. Returns the
    /// new certificate's id, one more than the number minted before.
    pub fn mint(
        &mut self,
        approver: &Principal,
        to: &Principal,
        details: CertificateDetails,
        now: u64,
    ) -> (r: Result<u64, ProvenanceError>)
        requires
            old(self)@.certificates.len() < u64::MAX,
        ensures
            (final(self)@, r) == mint_outcome(old(self)@, *approver, *to, details@, now),
    {
        if self.oracle.is_none() {
            return Err(ProvenanceError::NotInitialized);
        }
        if !slot_holds(&self.oracle, approver) {
            return Err(ProvenanceError::MissingAuthorization);
        }
        if self.certificate_for_manifest(&details.manifest_hash).is_some() {
            return Err(ProvenanceError::DuplicateCertificate);
        }
        let id = (self.certificates.len() as u64) + 1;
        let event = CertificateMinted {
            owner: *to,
            certificate_id: id,
            manifest_hash: details.manifest_hash.clone(),
        };
        let cert = Certificate {
            storage_id: details.storage_id,
            manifest_hash: details.manifest_hash,
            attestation_hash: details.attestation_hash,
            creator: *to,
            timestamp: now,
        };
        let ghost before = self@;
        self.certificates.push(cert);
        self.events.push(event);
        assert(self@.certificates =~= mint_outcome(before, *approver, *to, details@, now).0.certificates);
        assert(self@.events =~= mint_outcome(before, *approver, *to, details@, now).0.events);
        Ok(id)
    }

    /// The certificate with id `certificate_id`.
    pub fn get_certificate(&self, certificate_id: u64) -> (r: Result<Certificate, ProvenanceError>)
        ensures
            match r {
                Ok(c) => certificate_lookup(self@, certificate_id) == Ok::<_, ProvenanceError>(c@),
                Err(e) => certificate_lookup(self@, certificate_id) == Err::<CertificateView, _>(e),
            },
    {
        if certificate_id >= 1 && certificate_id <= self.certificates.len() as u64 {
            let c = self.certificates[(certificate_id - 1) as usize].duplicate();
            Ok(c)
        } else {
            Err(ProvenanceError::CertificateNotFound)
        }
    }
}

} // verus!
