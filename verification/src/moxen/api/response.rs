//! Response payloads of the registry's wire contract.

use vstd::prelude::*;

verus! {

/// Body of a package fetch: the manifest text, the archive bytes, and the
/// server's error message when the fetch failed.
#[derive(Debug, Clone)]
pub struct DownloadPackageResponse {
    pub manifest: String,
    pub package: Vec<u8>,
    pub error: Option<String>,
}

/// Body of a registration: the issued API key and recovery codes, and the
/// server's error message when registration failed.
#[derive(Debug, Clone)]
pub struct UserRegisterResponse {
    pub api_key: String,
    pub recovery_codes: Vec<String>,
    pub error: Option<String>,
}

/// Body of an account recovery: the re-issued API key, and the server's
/// error message when recovery failed.
#[derive(Debug, Clone)]
pub struct UserRecoveryResponse {
    pub api_key: String,
    pub error: Option<String>,
}

} // verus!
