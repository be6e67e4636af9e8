//! Credentials and signing: username validation, Ed25519 keypair generation
//! and persistence, and challenge signing with text-safe encodings.

use vstd::prelude::*;
use vstd::utf8::encode_utf8;

use ring::signature::KeyPair;

use crate::common::b64_decode;
use crate::common::b64_encode;
use crate::common::b64_of;
use crate::common::MoxenError;
use crate::moxen::config::MoxenConfig;
use crate::moxen::config::MoxenCredentials;

verus! {

/// Whether a byte sequence parses as an unencrypted PKCS#8 v2 Ed25519
/// private-key document.
pub uninterp spec fn pkcs8_ok(doc: Seq<u8>) -> bool;

/// The Ed25519 public key carried by a PKCS#8 v2 key document.
pub uninterp spec fn ed25519_public_of(doc: Seq<u8>) -> Seq<u8>;

/// The Ed25519 signature over a message by the key of a PKCS#8 v2 key
/// document.  Ed25519 signing is deterministic, so the signature is a
/// function of the document and the message alone.
pub uninterp spec fn ed25519_signature_of(doc: Seq<u8>, msg: Seq<u8>) -> Seq<u8>;

#[verifier::external_type_specification]
#[verifier::external_body]
pub struct ExEd25519KeyPair(ring::signature::Ed25519KeyPair);

/// A signing handle: the parsed Ed25519 key pair together with the PKCS#8
/// document it came from.
#[derive(Debug)]
pub struct MoxenKeyPair {
    prv_key: ring::signature::Ed25519KeyPair,
    document: Vec<u8>,
}

impl MoxenKeyPair {
    /// The PKCS#8 document this signing handle was built from.
    pub closed spec fn key_doc(&self) -> Seq<u8> {
        self.document@
    }

    /// Relies on ring::signature::Ed25519KeyPair::from_pkcs8: parsing
    /// succeeds exactly on unencrypted PKCS#8 v2 Ed25519 documents, and the
    /// handle keeps the document it was parsed from.
    #[verifier::external_body]
    pub fn new(pkcs8_raw: &[u8]) -> (r: Result<Self, MoxenError>)
        ensures
            r is Ok <==> pkcs8_ok(pkcs8_raw@),
            r matches Ok(kp) ==> kp.key_doc() == pkcs8_raw@,
            r matches Err(e) ==> e is GeneralError,
    {
        match ring::signature::Ed25519KeyPair::from_pkcs8(pkcs8_raw) {
            Ok(keypair) => Ok(Self { prv_key: keypair, document: pkcs8_raw.to_vec() }),
            Err(e) => Err(MoxenError::GeneralError(e.to_string())),
        }
    }

    /// Builds a signing handle from a base64-encoded PKCS#8 document: this
    /// succeeds exactly when the text canonically encodes a document that
    /// parses as an Ed25519 key.
    pub fn from_private_key(key: &str) -> (r: Result<Self, MoxenError>)
        ensures
            r is Ok <==> exists|b: Seq<u8>| key@ == b64_of(b) && pkcs8_ok(b),
            r matches Ok(kp) ==> key@ == b64_of(kp.key_doc()) && pkcs8_ok(kp.key_doc()),
            r matches Err(e) ==> e is GeneralError,
    {
        let document = match b64_decode(key) {
            Ok(d) => d,
            Err(e) => {
                return Err(e);
            },
        };
        match Self::new(document.as_slice()) {
            Ok(kp) => {
                proof {
                    assert(key@ == b64_of(kp.key_doc()) && pkcs8_ok(kp.key_doc()));
                }
                Ok(kp)
            },
            Err(e) => {
                proof {
                    assert forall|b: Seq<u8>| key@ == b64_of(b) implies !pkcs8_ok(b) by {
                        crate::common::lemma_b64_of_injective(b, document@);
                    }
                }
                Err(e)
            },
        }
    }

    /// Relies on ring's KeyPair::public_key for Ed25519: the 32-byte public
    /// key is determined by the key document alone.
    #[verifier::external_body]
    fn public_key_bytes(&self) -> (r: Vec<u8>)
        ensures
            r@ == ed25519_public_of(self.key_doc()),
            r@.len() == 32,
    {
        self.prv_key.public_key().as_ref().to_vec()
    }

    /// Relies on ring::signature::Ed25519KeyPair::sign: Ed25519 signatures
    /// are deterministic 64-byte values, a function of the key document and
    /// the message.
    #[verifier::external_body]
    fn sign_raw(&self, msg: &[u8]) -> (r: Vec<u8>)
        ensures
            r@ == ed25519_signature_of(self.key_doc(), msg@),
            r@.len() == 64,
    {
        self.prv_key.sign(msg).as_ref().to_vec()
    }

    /// The public key in its fixed-length, text-safe encoding.
    pub fn public_key_as_string(&self) -> (r: String)
        ensures
            r@ == b64_of(ed25519_public_of(self.key_doc())),
            r@.len() == 44,
    {
        let pk = self.public_key_bytes();
        proof {
            crate::common::lemma_b64_of_len(pk@);
        }
        b64_encode(pk.as_slice())
    }

    /// Signs a message and returns the signature text-safely encoded.
    pub fn sign_message(&self, msg: &str) -> (r: String)
        ensures
            r@ == b64_of(ed25519_signature_of(self.key_doc(), encode_utf8(msg@))),
            r@.len() == 88,
    {
        let sig = self.sign_raw(msg.as_bytes());
        proof {
            crate::common::lemma_b64_of_len(sig@);
        }
        b64_encode(sig.as_slice())
    }
}

// ---------------------------------------------------------------------------
// Username validation
// ---------------------------------------------------------------------------

/// The characters a username may hold: ASCII letters, digits and underscore.
pub open spec fn username_char_ok(c: char) -> bool {
    (('A' as u32) <= (c as u32) && (c as u32) <= ('Z' as u32)) || (('a' as u32) <= (c as u32) && (
    c as u32) <= ('z' as u32)) || (('0' as u32) <= (c as u32) && (c as u32) <= ('9' as u32)) || c
        == '_'
}

pub open spec fn username_chars_ok(s: Seq<char>) -> bool {
    forall|i: int| 0 <= i < s.len() ==> username_char_ok(s[i])
}

/// Whether the default profanity filter flags the text.
pub uninterp spec fn inappropriate(s: Seq<char>) -> bool;

/// Relies on rustrict's CensorStr::is_inappropriate: with the crate's
/// built-in word lists the verdict depends on the text alone.
#[verifier::external_body]
fn is_inappropriate_text(s: &str) -> (r: bool)
    ensures
        r == inappropriate(s@),
{
    rustrict::CensorStr::is_inappropriate(s)
}

/// A valid username: at least three characters, drawn from letters, digits
/// and underscore, and not flagged by the profanity filter.
pub open spec fn username_ok(s: Seq<char>) -> bool {
    s.len() >= 3 && username_chars_ok(s) && !inappropriate(s)
}

/// Checks a chosen username; the three checks run in a fixed order and the
/// first failing one's message is returned.
pub fn validate_username(name: &str) -> (r: Result<(), MoxenError>)
    ensures
        r is Ok <==> username_ok(name@),
        name@.len() < 3 ==> (r matches Err(e) && e matches MoxenError::InvalidUsername(m) && m@
            == "username must be at least 3 characters long"@),
        name@.len() >= 3 && !username_chars_ok(name@) ==> (r matches Err(e)
            && e matches MoxenError::InvalidUsername(m) && m@
            == "invalid characters in username. allowed characters are letters, numbers, and _"@),
        name@.len() >= 3 && username_chars_ok(name@) && inappropriate(name@) ==> (r matches Err(e)
            && e matches MoxenError::InvalidUsername(m) && m@
            == "inappropriate username, watch your profanity!"@),
{
    let len = name.unicode_len();
    if len < 3 {
        return Err(
            MoxenError::InvalidUsername(
                String::from_str("username must be at least 3 characters long"),
            ),
        );
    }
    let mut i: usize = 0;
    while i < len
        invariant
            len == name@.len(),
            3 <= len,
            i <= len,
            forall|j: int| 0 <= j < i ==> username_char_ok(name@[j]),
        decreases len - i,
    {
        let c = name.get_char(i);
        let u = c as u32;
        let ok = (65 <= u && u <= 90) || (97 <= u && u <= 122) || (48 <= u && u <= 57) || c == '_';
        if !ok {
            return Err(
                MoxenError::InvalidUsername(
                    String::from_str(
                        "invalid characters in username. allowed characters are letters, numbers, and _",
                    ),
                ),
            );
        }
        i = i + 1;
    }
    if is_inappropriate_text(name) {
        return Err(
            MoxenError::InvalidUsername(
                String::from_str("inappropriate username, watch your profanity!"),
            ),
        );
    }
    Ok(())
}

// ---------------------------------------------------------------------------
// Keypair generation and persistence
// ---------------------------------------------------------------------------

/// Relies on ring::signature::Ed25519KeyPair::generate_pkcs8 with
/// ring::rand::SystemRandom: on success the fresh key comes back as a PKCS#8
/// v2 document, which from_pkcs8 accepts.  Nothing is assumed about which
/// key comes back.
#[verifier::external_body]
fn ed25519_generate() -> (r: Result<Vec<u8>, MoxenError>)
    ensures
        r matches Ok(d) ==> pkcs8_ok(d@),
        r matches Err(e) ==> e is GeneralError,
{
    let rng = ring::rand::SystemRandom::new();
    match ring::signature::Ed25519KeyPair::generate_pkcs8(&rng) {
        Ok(doc) => Ok(doc.as_ref().to_vec()),
        Err(_) => Err(MoxenError::GeneralError("unable to generate keypair".to_string())),
    }
}

/// Generates a fresh keypair and stores its encoded private key in the
/// configuration.  An existing credential set is never overwritten: a second
/// registration attempt is an error and leaves the configuration untouched.
pub fn generate_keyfile_pair(config: &mut MoxenConfig) -> (r: Result<MoxenKeyPair, MoxenError>)
    ensures
        old(config).credentials is Some ==> (r matches Err(e) && e is ConfigError)
            && *final(config) == *old(config),
        old(config).credentials is None ==> match r {
            Ok(kp) => pkcs8_ok(kp.key_doc()) && final(config).file_path == old(config).file_path
                && (final(config).credentials matches Some(c) && c.private_key@ == b64_of(
                kp.key_doc(),
            ) && c.api_key is None && c.username@ == Seq::<char>::empty()),
            Err(e) => e is GeneralError && *final(config) == *old(config),
        },
{
    if config.credentials.is_some() {
        Err(
            MoxenError::ConfigError(
                String::from_str(
                    "credentials already present, you are already registered as someone!",
                ),
            ),
        )
    } else {
        let document = match ed25519_generate() {
            Ok(d) => d,
            Err(e) => {
                return Err(e);
            },
        };
        let keypair = match MoxenKeyPair::new(document.as_slice()) {
            Ok(k) => k,
            Err(e) => {
                return Err(e);
            },
        };
        let private_key = b64_encode(document.as_slice());
        config.credentials = Some(
            MoxenCredentials { username: String::new(), private_key, api_key: None },
        );
        Ok(keypair)
    }
}

} // verus!
