//! Attestation verification engine for a trusted-execution-environment
//! hierarchy: report-chain validation, hardware signature verification
//! against a vendor certificate authority, and token-based trust delegation.

pub mod certs;
pub mod cfs;
pub mod challenge;
pub mod chain;
pub mod claims;
pub mod codec;
pub mod errors;
pub mod evidence;
pub mod hashing;
pub mod kds;
pub mod local_fs;
pub mod snp;
