//! Secure partition manager core of a PSA-style secure processing
//! environment: status codes, call parameters, IO-vector bookkeeping,
//! connection stack, supervisor-call dispatch, attestation token payload
//! encoding and the crypto service request checks.
pub mod status;
pub mod types;
pub mod spm;
pub mod spm_api;
pub mod cbor;
pub mod attest;
pub mod crypto;
pub mod mpu;
pub mod libs;
pub mod hil;
pub mod service;
