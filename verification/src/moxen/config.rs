//! Locally persisted configuration: where the configuration file lives and
//! the registered credentials, if any.  Reading and writing the file itself
//! happens outside the library.

use vstd::prelude::*;

verus! {

/// The process-wide configuration: the path of its backing file and the
/// stored credentials.
#[derive(Debug, Clone)]
pub struct MoxenConfig {
    pub file_path: String,
    pub credentials: Option<MoxenCredentials>,
}

/// Registered identity: the chosen username, the encoded private key, and
/// the API key once registration has succeeded.
#[derive(Debug, Clone)]
pub struct MoxenCredentials {
    pub username: String,
    pub private_key: String,
    pub api_key: Option<String>,
}

} // verus!
