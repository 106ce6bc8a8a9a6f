use vstd::prelude::*;

use crate::crypto::{ed25519_accepts, ed25519_verify, Hash32, Sig64};
use crate::keys::{has_hash, is_principal, slot_holds, without_hash, Principal};

verus! {

/// Typed failures of the oracle's own operations.
#[derive(Clone, Copy, Debug, PartialEq, Eq, PartialOrd, Ord)]
pub enum Error {
    /// The oracle has not been initialized.
    NotInitialized,
    /// The registry does not trust the provider and TEE hash together.
    UnauthorizedSigner,
    /// The oracle was initialized already.
    AlreadyInitialized,
    /// The call does not carry the admin's approval.
    MissingAuthorization,
    /// The signature does not verify under the provider key.
    InvalidSignature,
}

/// Failures of a TEE-hash query to the registry.
#[derive(Clone, Copy, Debug, PartialEq, Eq, PartialOrd, Ord)]
pub enum OracleError {
    /// The oracle has not been initialized with a registry address.
    RegistryNotConfigured,
    /// The call to the registry failed: bad address, missing function, or
    /// an answer that could not be decoded.
    RegistryCallFailed,
    /// The registry does not trust the TEE hash.
    TeeNotVerified,
}

/// How a call to another component failed.
#[derive(Clone, Copy, Debug, PartialEq, Eq)]
pub enum CallError {
    /// The callee ran and reported an error.
    Application,
    /// The callee could not be reached, or its answer not decoded.
    Transport,
}

/// The abstract state of an oracle.
pub struct OracleState {
    pub registry: Option<Principal>,
    pub provenance: Option<Principal>,
    pub admin: Option<Principal>,
    /// The ids of the approved providers.
    pub providers: Set<Hash32>,
}

/// Initializing an oracle.
pub open spec fn init_outcome(
    s: OracleState,
    registry: Principal,
    provenance: Principal,
    admin: Principal,
) -> (OracleState, Result<(), Error>) {
    if s.registry is Some {
        (s, Err(Error::AlreadyInitialized))
    } else {
        (
            OracleState {
                registry: Some(registry),
                provenance: Some(provenance),
                admin: Some(admin),
                ..s
            },
            Ok(()),
        )
    }
}

/// An admin-gated change of the provider set, made with `approver`'s
/// approval.
pub open spec fn provider_change(s: OracleState, approver: Principal, providers: Set<Hash32>) -> (
    OracleState,
    Result<(), Error>,
) {
    if s.admin is None {
        (s, Err(Error::NotInitialized))
    } else if !is_principal(s.admin, approver) {
        (s, Err(Error::MissingAuthorization))
    } else {
        (OracleState { providers, ..s }, Ok(()))
    }
}

/// The answer to an attestation check, given the registry's answer on
/// whether the provider and TEE hash are trusted together, and whether the
/// signature verified.
pub open spec fn attestation_outcome(
    s: OracleState,
    registry_approves: bool,
    signature_valid: bool,
) -> Result<(), Error> {
    if s.registry is None {
        Err(Error::NotInitialized)
    } else if !registry_approves {
        Err(Error::UnauthorizedSigner)
    } else if !signature_valid {
        Err(Error::InvalidSignature)
    } else {
        Ok(())
    }
}

/// The answer to a TEE-hash query, given what the registry call returned.
pub open spec fn tee_hash_outcome(s: OracleState, reply: Result<bool, CallError>) -> Result<
    (),
    OracleError,
> {
    if s.registry is None {
        Err(OracleError::RegistryNotConfigured)
    } else {
        match reply {
            Ok(true) => Ok(()),
            Ok(false) => Err(OracleError::TeeNotVerified),
            Err(_) => Err(OracleError::RegistryCallFailed),
        }
    }
}

/// The oracle: the entry point that checks attestations and TEE hashes
/// against the trust registry, without the request lifecycle.
#[derive(Debug)]
pub struct Contract {
    registry: Option<Principal>,
    provenance: Option<Principal>,
    admin: Option<Principal>,
    providers: Vec<Hash32>,
}

impl View for Contract {
    type V = OracleState;

    closed spec fn view(&self) -> OracleState {
        OracleState {
            registry: self.registry,
            provenance: self.provenance,
            admin: self.admin,
            providers: self.providers@.to_set(),
        }
    }
}

impl Contract {
    /// An oracle that is not initialized.
    pub fn new() -> (r: Contract)
        ensures
            r@.registry is None,
            r@.provenance is None,
            r@.admin is None,
            r@.providers == Set::<Hash32>::empty(),
    {
        let r = Contract { registry: None, provenance: None, admin: None, providers: Vec::new() };
        assert(r.providers@.to_set() =~= Set::<Hash32>::empty());
        r
    }

    /// Configures the registry and ledger addresses and the admin. Fails if
    /// the oracle was initialized already.
    pub fn init(&mut self, registry: Principal, provenance: Principal, admin: Principal) -> (r:
        Result<(), Error>)
        ensures
            (final(self)@, r) == init_outcome(old(self)@, registry, provenance, admin),
    {
        if self.registry.is_some() {
            return Err(Error::AlreadyInitialized);
        }
        self.registry = Some(registry);
        self.provenance = Some(provenance);
        self.admin = Some(admin);
        Ok(())
    }

    /// The address of the registry that queries go to, if configured.
    pub fn registry(&self) -> (r: Option<Principal>)
        ensures
            r == self@.registry,
    {
        self.registry
    }

    fn check_admin(&self, approver: &Principal) -> (r: Result<(), Error>)
        ensures
            r == provider_change(self@, *approver, self@.providers).1,
    {
        if self.admin.is_none() {
            return Err(Error::NotInitialized);
        }
        if !slot_holds(&self.admin, approver) {
            return Err(Error::MissingAuthorization);
        }
        Ok(())
    }

    /// Approves `provider`. Needs the admin's approval.
    pub fn add_provider(&mut self, approver: &Principal, provider: &Principal) -> (r: Result<
        (),
        Error,
    >)
        ensures
            (final(self)@, r) == provider_change(
                old(self)@,
                *approver,
                old(self)@.providers.insert(provider.id),
            ),
    {
        let c = self.check_admin(approver);
        if c.is_err() {
            return c;
        }
        if !has_hash(&self.providers, &provider.id) {
            proof {
                self.providers@.lemma_push_to_set_commute(provider.id);
            }
            self.providers.push(provider.id);
        }
        assert(self@.providers =~= old(self)@.providers.insert(provider.id));
        Ok(())
    }

    /// Withdraws the approval of `provider`. Needs the admin's approval.
    pub fn remove_provider(&mut self, approver: &Principal, provider: &Principal) -> (r: Result<
        (),
        Error,
    >)
        ensures
            (final(self)@, r) == provider_change(
                old(self)@,
                *approver,
                old(self)@.providers.remove(provider.id),
            ),
    {
        let c = self.check_admin(approver);
        if c.is_err() {
            return c;
        }
        self.providers = without_hash(&self.providers, &provider.id);
        Ok(())
    }

    /// Whether `provider` is approved.
    pub fn is_provider(&self, provider: &Principal) -> (r: bool)
        ensures
            r == self@.providers.contains(provider.id),
    {
        has_hash(&self.providers, &provider.id)
    }

    /// Answers an attestation check given the registry's answer on whether
    /// the provider and TEE hash are trusted together (false when that call
    /// could not be made) and whether the signature verified.
    pub fn attestation_verdict(&self, registry_approves: bool, signature_valid: bool) -> (r: Result<
        (),
        Error,
    >)
        ensures
            r == attestation_outcome(self@, registry_approves, signature_valid),
    {
        if self.registry.is_none() {
            Err(Error::NotInitialized)
        } else if !registry_approves {
            Err(Error::UnauthorizedSigner)
        } else if !signature_valid {
            Err(Error::InvalidSignature)
        } else {
            Ok(())
        }
    }

    /// Checks that `signature` over `payload` verifies under the key
    /// `provider`, once the registry has answered whether the provider and
    /// TEE hash are trusted together. The signature is checked only for a
    /// trusted pair.
    pub fn verify_attestation(
        &self,
        registry_approves: bool,
        provider: &Hash32,
        payload: &Vec<u8>,
        signature: &Sig64,
    ) -> (r: Result<(), Error>)
        ensures
            r == attestation_outcome(
                self@,
                registry_approves,
                ed25519_accepts(provider@, payload@, signature@),
            ),
    {
        if self.registry.is_none() || !registry_approves {
            return self.attestation_verdict(registry_approves, false);
        }
        let valid = ed25519_verify(provider, payload.as_slice(), signature);
        self.attestation_verdict(registry_approves, valid)
    }

    /// Answers a TEE-hash query given what the registry's membership check
    /// returned. Call failures of either kind are reported alike, and apart
    /// from a negative answer.
    pub fn verify_tee_hash(&self, reply: Result<bool, CallError>) -> (r: Result<(), OracleError>)
        ensures
            r == tee_hash_outcome(self@, reply),
    {
        if self.registry.is_none() {
            return Err(OracleError::RegistryNotConfigured);
        }
        match reply {
            Ok(true) => Ok(()),
            Ok(false) => Err(OracleError::TeeNotVerified),
            Err(_) => Err(OracleError::RegistryCallFailed),
        }
    }
}

} // verus!
