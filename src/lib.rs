//! Trust registry, attestation validation and certificate ledger for
//! attested content provenance.
//!
//! Every component is a plain state machine. What the hosting platform
//! provides (the clock, the approval a call carries, the answer of another
//! component) comes in as arguments, and what it must publish (events) is
//! kept in an append-only log that the host reads and publishes.

pub mod content;
pub mod crypto;
pub mod keys;
pub mod laws;
pub mod oracle;
pub mod provenance;
pub mod registry;

pub use crypto::{attestation_payload, content_digest_hex, Hash32, Sig64};
pub use keys::Principal;
pub use registry::{
    Attestation, ProviderEventData, Registry, RegistryEvent, RejectReason, RequestState,
    TeeHashEventData, VerificationError, VerificationRequest, REQUEST_TTL,
};
pub use provenance::{
    Certificate, CertificateDetails, CertificateMinted, ProvenanceContract, ProvenanceError,
};
pub use content::{
    check_content_and_mint, settle_content_check, StellarProofContract, VerificationResult,
};
pub use oracle::{CallError, Contract, Error, OracleError};
