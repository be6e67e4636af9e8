//! The error taxonomy shared by every subsystem, small string helpers, and
//! checksum-based integrity verification over SHA-1 content digests.

use vstd::prelude::*;

use base64::prelude::BASE64_STANDARD;
use base64::prelude::Engine;
use sha1::Digest;

verus! {

// ---------------------------------------------------------------------------
// Error taxonomy
// ---------------------------------------------------------------------------

/// The closed error type of the library: structural validation, integrity,
/// state, registry-protocol, authentication and generic errors.
#[derive(Debug, Clone, PartialEq, Eq)]
pub enum MoxenError {
    MissingTocFile,
    MissingManifestFile,
    InvalidFileExtension(String),
    ProjectAlreadyExists,
    ProjectNotFound(String),
    ChecksumFailure(String, String),
    ConfigError(String),
    LoadError(String),
    InvalidUsername(String),
    ApiError(String),
    AuthError(String),
    GeneralError(String),
}

impl MoxenError {
    /// The one-line description shown to a caller for each error.
    pub open spec fn message_spec(&self) -> Seq<char> {
        match self {
            MoxenError::MissingTocFile => "missing required toc file\n"@,
            MoxenError::MissingManifestFile => "missing Moxen.toml file\n"@,
            MoxenError::InvalidFileExtension(ext) => "invalid file extension found - "@ + ext@
                + "\n"@,
            MoxenError::ProjectAlreadyExists => "project already exists\n"@,
            MoxenError::ProjectNotFound(pkg) => "project not found in registry - "@ + pkg@
                + "\n"@,
            MoxenError::ChecksumFailure(chk, expected) => "checksum failure: "@ + chk@
                + " doesn't match expected "@ + expected@ + "\n"@,
            MoxenError::ConfigError(err) => "config error: "@ + err@ + "\n"@,
            MoxenError::LoadError(err) => "loading error: "@ + err@ + "\n"@,
            MoxenError::InvalidUsername(reason) => "invalid username: "@ + reason@ + "\n"@,
            MoxenError::ApiError(err) => "moxen registry api error: "@ + err@ + "\n"@,
            MoxenError::AuthError(err) => "authentication error: "@ + err@ + "\n"@,
            MoxenError::GeneralError(err) => "error occurred: "@ + err@ + "\n"@,
        }
    }

    /// Renders the error as a single descriptive line, newline-terminated.
    pub fn message(&self) -> (r: String)
        ensures
            r@ == self.message_spec(),
    {
        match self {
            MoxenError::MissingTocFile => String::from_str("missing required toc file\n"),
            MoxenError::MissingManifestFile => String::from_str("missing Moxen.toml file\n"),
            MoxenError::InvalidFileExtension(ext) => String::from_str(
                "invalid file extension found - ",
            ).concat(ext.as_str()).concat("\n"),
            MoxenError::ProjectAlreadyExists => String::from_str("project already exists\n"),
            MoxenError::ProjectNotFound(pkg) => String::from_str(
                "project not found in registry - ",
            ).concat(pkg.as_str()).concat("\n"),
            MoxenError::ChecksumFailure(chk, expected) => String::from_str(
                "checksum failure: ",
            ).concat(chk.as_str()).concat(" doesn't match expected ").concat(
                expected.as_str(),
            ).concat("\n"),
            MoxenError::ConfigError(err) => String::from_str("config error: ").concat(
                err.as_str(),
            ).concat("\n"),
            MoxenError::LoadError(err) => String::from_str("loading error: ").concat(
                err.as_str(),
            ).concat("\n"),
            MoxenError::InvalidUsername(reason) => String::from_str("invalid username: ").concat(
                reason.as_str(),
            ).concat("\n"),
            MoxenError::ApiError(err) => String::from_str("moxen registry api error: ").concat(
                err.as_str(),
            ).concat("\n"),
            MoxenError::AuthError(err) => String::from_str("authentication error: ").concat(
                err.as_str(),
            ).concat("\n"),
            MoxenError::GeneralError(err) => String::from_str("error occurred: ").concat(
                err.as_str(),
            ).concat("\n"),
        }
    }
}

// ---------------------------------------------------------------------------
// String helpers
// ---------------------------------------------------------------------------

/// Character-by-character equality of two string slices.
pub fn str_eq_str(a: &str, b: &str) -> (r: bool)
    ensures
        r == (a@ == b@),
{
    let alen = a.unicode_len();
    let blen = b.unicode_len();
    if alen != blen {
        return false;
    }
    let mut i: usize = 0;
    while i < alen
        invariant
            alen == a@.len(),
            blen == b@.len(),
            alen == blen,
            i <= alen,
            forall|j: int| 0 <= j < i ==> a@[j] == b@[j],
        decreases alen - i,
    {
        if a.get_char(i) != b.get_char(i) {
            return false;
        }
        i = i + 1;
    }
    proof {
        assert(a@ =~= b@);
    }
    true
}

// ---------------------------------------------------------------------------
// Hex encoding
// ---------------------------------------------------------------------------

/// The lowercase hex digit for a value below sixteen.
pub open spec fn hex_digit(n: int) -> char {
    if n == 0 { '0' }
    else if n == 1 { '1' }
    else if n == 2 { '2' }
    else if n == 3 { '3' }
    else if n == 4 { '4' }
    else if n == 5 { '5' }
    else if n == 6 { '6' }
    else if n == 7 { '7' }
    else if n == 8 { '8' }
    else if n == 9 { '9' }
    else if n == 10 { 'a' }
    else if n == 11 { 'b' }
    else if n == 12 { 'c' }
    else if n == 13 { 'd' }
    else if n == 14 { 'e' }
    else { 'f' }
}

/// The two lowercase hex digits of one byte, high digit first.
pub open spec fn hex_pair(b: u8) -> Seq<char> {
    seq![hex_digit(b as int / 16), hex_digit(b as int % 16)]
}

/// Lowercase hex encoding of a byte sequence.
pub open spec fn hex_of(bs: Seq<u8>) -> Seq<char>
    decreases bs.len(),
{
    if bs.len() == 0 {
        Seq::<char>::empty()
    } else {
        hex_pair(bs[0]) + hex_of(bs.drop_first())
    }
}

/// Relies on hex::encode: lowercase hex, two digits for each input byte,
/// in input order.
#[verifier::external_body]
fn hex_encode(data: &[u8]) -> (r: String)
    ensures
        r@ == hex_of(data@),
{
    hex::encode(data)
}

// ---------------------------------------------------------------------------
// SHA-1 content digests
// ---------------------------------------------------------------------------

/// The SHA-1 digest of a byte sequence, a pure function of its input.
pub uninterp spec fn sha1_of(data: Seq<u8>) -> Seq<u8>;

/// Relies on sha1::Sha1 through the Digest trait: the digest is a pure
/// function of the input bytes and is exactly twenty bytes long.
#[verifier::external_body]
fn sha1_digest(data: &[u8]) -> (r: Vec<u8>)
    ensures
        r@ == sha1_of(data@),
        r@.len() == 20,
{
    sha1::Sha1::digest(data).to_vec()
}

/// The hex-encoded content digest of a byte buffer.
pub fn checksum(data: &[u8]) -> (r: String)
    ensures
        r@ == hex_of(sha1_of(data@)),
{
    let digest = sha1_digest(data);
    hex_encode(digest.as_slice())
}

/// Whether `expected` is the hex-encoded content digest of `data`.
pub open spec fn checksum_matches(data: Seq<u8>, expected: Seq<char>) -> bool {
    expected == hex_of(sha1_of(data))
}

/// Compares a buffer's computed content digest against an expected one.
/// A mismatch is reported with both digests, computed first.
pub fn validate_package_checksum(data: &Vec<u8>, checksum: &str) -> (r: Result<(), MoxenError>)
    ensures
        r is Ok <==> checksum_matches(data@, checksum@),
        r matches Err(e) ==> (e matches MoxenError::ChecksumFailure(chk, expected)
            && chk@ == hex_of(sha1_of(data@)) && expected@ == checksum@),
{
    let check = crate::common::checksum(data.as_slice());
    if str_eq_str(check.as_str(), checksum) {
        Ok(())
    } else {
        Err(MoxenError::ChecksumFailure(check, String::from_str(checksum)))
    }
}

/// A buffer always validates against its own computed digest.
pub proof fn lemma_checksum_validates(data: Seq<u8>)
    ensures
        checksum_matches(data, hex_of(sha1_of(data))),
{
}

/// Altering any single character of the expected digest makes validation
/// fail.
pub proof fn lemma_checksum_flip_fails(data: Seq<u8>, altered: Seq<char>, i: int)
    requires
        0 <= i < altered.len(),
        altered.len() == hex_of(sha1_of(data)).len(),
        altered[i] != hex_of(sha1_of(data))[i],
    ensures
        !checksum_matches(data, altered),
{
}


// ---------------------------------------------------------------------------
// Base64 encoding
// ---------------------------------------------------------------------------

/// The standard base64 alphabet, in value order.
pub open spec fn b64_alphabet() -> Seq<char> {
    "ABCDEFGHIJKLMNOPQRSTUVWXYZabcdefghijklmnopqrstuvwxyz0123456789+/"@
}

/// The standard base64 character for a value below sixty-four.
pub open spec fn b64_char(n: int) -> char {
    b64_alphabet()[n]
}

/// The four characters encoding one full group of three bytes.
pub open spec fn b64_group3(b0: u8, b1: u8, b2: u8) -> Seq<char> {
    seq![
        b64_char(b0 as int / 4),
        b64_char((b0 as int % 4) * 16 + b1 as int / 16),
        b64_char((b1 as int % 16) * 4 + b2 as int / 64),
        b64_char(b2 as int % 64),
    ]
}

/// Standard base64 encoding with `=` padding.
pub open spec fn b64_of(bs: Seq<u8>) -> Seq<char>
    decreases bs.len(),
{
    if bs.len() == 0 {
        Seq::<char>::empty()
    } else if bs.len() == 1 {
        seq![b64_char(bs[0] as int / 4), b64_char((bs[0] as int % 4) * 16), '=', '=']
    } else if bs.len() == 2 {
        seq![
            b64_char(bs[0] as int / 4),
            b64_char((bs[0] as int % 4) * 16 + bs[1] as int / 16),
            b64_char((bs[1] as int % 16) * 4),
            '=',
        ]
    } else {
        b64_group3(bs[0], bs[1], bs[2]) + b64_of(bs.skip(3))
    }
}

/// A padded base64 encoding is four characters for every started group of
/// three bytes.
pub proof fn lemma_b64_of_len(bs: Seq<u8>)
    ensures
        b64_of(bs).len() == 4 * ((bs.len() + 2) / 3),
    decreases bs.len(),
{
    if bs.len() >= 3 {
        lemma_b64_of_len(bs.skip(3));
    }
}

/// Relies on the base64 crate's standard engine: encoding uses the standard
/// alphabet and appends `=` padding.
#[verifier::external_body]
pub(crate) fn b64_encode(data: &[u8]) -> (r: String)
    ensures
        r@ == b64_of(data@),
{
    BASE64_STANDARD.encode(data)
}

/// Relies on the base64 crate's standard engine: decoding succeeds exactly on
/// canonical padded standard-alphabet encodings (the engine requires
/// canonical padding and zero trailing bits) and returns the encoded bytes.
#[verifier::external_body]
pub(crate) fn b64_decode(s: &str) -> (r: Result<Vec<u8>, MoxenError>)
    ensures
        r matches Ok(b) ==> s@ == b64_of(b@),
        r is Ok <==> exists|b: Seq<u8>| s@ == b64_of(b),
        r matches Err(e) ==> e is GeneralError,
{
    match BASE64_STANDARD.decode(s) {
        Ok(b) => Ok(b),
        Err(e) => Err(MoxenError::GeneralError(e.to_string())),
    }
}

// ---------------------------------------------------------------------------
// File names, extensions and the forbidden-extension rule
// ---------------------------------------------------------------------------

/// The index of the last occurrence of `c` in `s`, or -1 when absent.
pub open spec fn last_index_of(s: Seq<char>, c: char) -> int
    decreases s.len(),
{
    if s.len() == 0 {
        -1
    } else if s[s.len() - 1] == c {
        s.len() - 1
    } else {
        last_index_of(s.drop_last(), c)
    }
}

pub proof fn lemma_last_index_of_props(s: Seq<char>, c: char)
    ensures
        -1 <= last_index_of(s, c) < s.len(),
        last_index_of(s, c) >= 0 ==> s[last_index_of(s, c)] == c,
        forall|j: int| last_index_of(s, c) < j < s.len() ==> s[j] != c,
    decreases s.len(),
{
    if s.len() == 0 {
    } else if s[s.len() - 1] == c {
    } else {
        lemma_last_index_of_props(s.drop_last(), c);
        assert forall|j: int| last_index_of(s, c) < j < s.len() implies s[j] != c by {
            if j < s.len() - 1 {
                assert(s.drop_last()[j] == s[j]);
            }
        }
    }
}

pub proof fn lemma_last_index_of_unique(s: Seq<char>, c: char, i: int)
    requires
        0 <= i < s.len(),
        s[i] == c,
        forall|j: int| i < j < s.len() ==> s[j] != c,
    ensures
        last_index_of(s, c) == i,
    decreases s.len(),
{
    if i == s.len() - 1 {
    } else {
        assert(s[s.len() - 1] != c);
        assert(s.drop_last()[i] == s[i]);
        assert forall|j: int| i < j < s.drop_last().len() implies s.drop_last()[j] != c by {
            assert(s.drop_last()[j] == s[j]);
        }
        lemma_last_index_of_unique(s.drop_last(), c, i);
    }
}

pub proof fn lemma_last_index_of_none(s: Seq<char>, c: char)
    requires
        forall|j: int| 0 <= j < s.len() ==> s[j] != c,
    ensures
        last_index_of(s, c) == -1,
    decreases s.len(),
{
    if s.len() == 0 {
    } else {
        assert forall|j: int| 0 <= j < s.drop_last().len() implies s.drop_last()[j] != c by {
            assert(s.drop_last()[j] == s[j]);
        }
        lemma_last_index_of_none(s.drop_last(), c);
    }
}

/// The final component of a `/`-separated relative path.
pub open spec fn file_name_of(p: Seq<char>) -> Seq<char> {
    p.subrange(last_index_of(p, '/') + 1, p.len() as int)
}

/// The extension of a path's file name: what follows the last dot, provided
/// that dot is neither absent nor the name's first character.
pub open spec fn extension_of(p: Seq<char>) -> Option<Seq<char>> {
    let name = file_name_of(p);
    let dot = last_index_of(name, '.');
    if dot <= 0 {
        None
    } else {
        Some(name.subrange(dot + 1, name.len() as int))
    }
}

/// The extensions of executable and compiled-source files, which must never
/// be distributed inside a package.
pub open spec fn forbidden_ext(e: Seq<char>) -> bool {
    e == "exe"@ || e == "c"@ || e == "cpp"@ || e == "rs"@ || e == "js"@ || e == "cs"@
}

/// Whether the path's extension falls in the forbidden set.
pub open spec fn path_forbidden(p: Seq<char>) -> bool {
    match extension_of(p) {
        Some(e) => forbidden_ext(e),
        None => false,
    }
}

/// The path's extension, or the empty sequence when it has none.
pub open spec fn ext_or_empty(p: Seq<char>) -> Seq<char> {
    match extension_of(p) {
        Some(e) => e,
        None => Seq::<char>::empty(),
    }
}

/// The index of the last occurrence of `c`, scanned executably.
fn find_last_char(s: &str, c: char) -> (r: Option<usize>)
    ensures
        match r {
            Some(i) => i < s@.len() && last_index_of(s@, c) == i as int,
            None => last_index_of(s@, c) == -1,
        },
{
    let len = s.unicode_len();
    let mut i: usize = 0;
    let mut found: Option<usize> = None;
    while i < len
        invariant
            len == s@.len(),
            i <= len,
            match found {
                Some(k) => k < i && s@[k as int] == c && (forall|j: int|
                    k < j < i ==> s@[j] != c),
                None => forall|j: int| 0 <= j < i ==> s@[j] != c,
            },
        decreases len - i,
    {
        if s.get_char(i) == c {
            found = Some(i);
        }
        i = i + 1;
    }
    proof {
        match found {
            Some(k) => lemma_last_index_of_unique(s@, c, k as int),
            None => lemma_last_index_of_none(s@, c),
        }
    }
    found
}

pub proof fn lemma_last_index_of_suffix(s: Seq<char>, c: char, lo: int)
    requires
        0 <= lo <= s.len(),
    ensures
        last_index_of(s.subrange(lo, s.len() as int), c) == if last_index_of(s, c) >= lo {
            last_index_of(s, c) - lo
        } else {
            -1
        },
{
    let sub = s.subrange(lo, s.len() as int);
    let d = last_index_of(s, c);
    lemma_last_index_of_props(s, c);
    if d >= lo {
        assert(sub[d - lo] == s[d]);
        assert forall|j: int| d - lo < j < sub.len() implies sub[j] != c by {
            assert(sub[j] == s[j + lo]);
        }
        lemma_last_index_of_unique(sub, c, d - lo);
    } else {
        assert forall|j: int| 0 <= j < sub.len() implies sub[j] != c by {
            assert(sub[j] == s[j + lo]);
        }
        lemma_last_index_of_none(sub, c);
    }
}

/// The text of the path's extension, when it has one.
fn extension_text(file: &str) -> (r: Option<String>)
    ensures
        match r {
            Some(e) => extension_of(file@) == Some(e@),
            None => extension_of(file@) is None,
        },
{
    let len = file.unicode_len();
    let sl = find_last_char(file, '/');
    let dt = find_last_char(file, '.');
    let lo: usize = match sl {
        Some(k) => k + 1,
        None => 0,
    };
    proof {
        lemma_last_index_of_props(file@, '/');
        lemma_last_index_of_suffix(file@, '.', lo as int);
    }
    match dt {
        Some(d) => {
            if d > lo {
                let e = file.substring_char(d + 1, len);
                proof {
                    let name = file_name_of(file@);
                    let dot = last_index_of(name, '.');
                    assert(dot == d - lo);
                    assert(name.subrange(dot + 1, name.len() as int) =~= file@.subrange(
                        d + 1,
                        len as int,
                    ));
                }
                Some(String::from_str(e))
            } else {
                None
            }
        },
        None => None,
    }
}



/// Whether the extension text falls in the forbidden set.
fn is_forbidden_ext(e: &str) -> (r: bool)
    ensures
        r == forbidden_ext(e@),
{
    str_eq_str(e, "exe") || str_eq_str(e, "c") || str_eq_str(e, "cpp") || str_eq_str(e, "rs")
        || str_eq_str(e, "js") || str_eq_str(e, "cs")
}

/// Accepts a file unless its extension is a forbidden one, in which case the
/// offending extension is reported.
pub fn invalid_filetypes(file: &String) -> (r: Result<(), MoxenError>)
    ensures
        r is Ok <==> !path_forbidden(file@),
        r matches Err(e) ==> (e matches MoxenError::InvalidFileExtension(x) && x@ == ext_or_empty(
            file@,
        )),
{
    match extension_text(file.as_str()) {
        Some(e) => {
            if is_forbidden_ext(e.as_str()) {
                Err(MoxenError::InvalidFileExtension(e))
            } else {
                Ok(())
            }
        },
        None => Ok(()),
    }
}

/// Checks an enumerated file listing against the forbidden-extension rule.
/// The listing is returned unchanged when every entry passes; the first
/// offending entry fails the whole enumeration.
pub fn gather_files(files: Vec<String>) -> (r: Result<Vec<String>, MoxenError>)
    ensures
        r is Ok <==> (forall|i: int|
            0 <= i < files.deep_view().len() ==> !path_forbidden(files.deep_view()[i])),
        r matches Ok(v) ==> v@ == files@ && v.deep_view() == files.deep_view(),
        r matches Err(e) ==> exists|i: int|
            0 <= i < files.deep_view().len() && path_forbidden(files.deep_view()[i]) && (
            e matches MoxenError::InvalidFileExtension(x) && x@ == ext_or_empty(
                files.deep_view()[i],
            )) && (forall|j: int| 0 <= j < i ==> !path_forbidden(files.deep_view()[j])),
{
    let mut i: usize = 0;
    while i < files.len()
        invariant
            i <= files@.len(),
            forall|j: int| 0 <= j < i ==> !path_forbidden(files.deep_view()[j]),
        decreases files@.len() - i,
    {
        match invalid_filetypes(&files[i]) {
            Ok(_) => {},
            Err(e) => {
                proof {
                    assert(files.deep_view()[i as int] == files@[i as int]@);
                    assert(path_forbidden(files.deep_view()[i as int]));
                }
                return Err(e);
            },
        }
        proof {
            assert(files.deep_view()[i as int] == files@[i as int]@);
        }
        i = i + 1;
    }
    Ok(files)
}



/// The index of the first occurrence of `c` in `s`, or -1 when absent.
pub open spec fn first_index_of(s: Seq<char>, c: char) -> int
    decreases s.len(),
{
    if s.len() == 0 {
        -1
    } else if s[0] == c {
        0
    } else if first_index_of(s.drop_first(), c) == -1 {
        -1
    } else {
        first_index_of(s.drop_first(), c) + 1
    }
}

pub proof fn lemma_first_index_of_props(s: Seq<char>, c: char)
    ensures
        -1 <= first_index_of(s, c) < s.len(),
        first_index_of(s, c) >= 0 ==> s[first_index_of(s, c)] == c,
        first_index_of(s, c) == -1 ==> forall|j: int| 0 <= j < s.len() ==> s[j] != c,
        forall|j: int| 0 <= j < first_index_of(s, c) ==> s[j] != c,
    decreases s.len(),
{
    if s.len() == 0 {
    } else if s[0] == c {
    } else {
        lemma_first_index_of_props(s.drop_first(), c);
        assert forall|j: int| 0 <= j < s.len() && (first_index_of(s, c) == -1 || j < first_index_of(
            s,
            c,
        )) implies s[j] != c by {
            if j > 0 {
                assert(s.drop_first()[j - 1] == s[j]);
            }
        }
    }
}

pub proof fn lemma_first_index_of_unique(s: Seq<char>, c: char, i: int)
    requires
        0 <= i < s.len(),
        s[i] == c,
        forall|j: int| 0 <= j < i ==> s[j] != c,
    ensures
        first_index_of(s, c) == i,
    decreases s.len(),
{
    if i == 0 {
    } else {
        assert(s[0] != c);
        assert(s.drop_first()[i - 1] == s[i]);
        assert forall|j: int| 0 <= j < i - 1 implies s.drop_first()[j] != c by {
            assert(s.drop_first()[j] == s[j + 1]);
        }
        lemma_first_index_of_unique(s.drop_first(), c, i - 1);
    }
}

pub proof fn lemma_first_index_of_none(s: Seq<char>, c: char)
    requires
        forall|j: int| 0 <= j < s.len() ==> s[j] != c,
    ensures
        first_index_of(s, c) == -1,
    decreases s.len(),
{
    if s.len() > 0 {
        assert forall|j: int| 0 <= j < s.drop_first().len() implies s.drop_first()[j] != c by {
            assert(s.drop_first()[j] == s[j + 1]);
        }
        lemma_first_index_of_none(s.drop_first(), c);
    }
}

/// The index of the first occurrence of `c`, scanned executably.
pub fn find_first_char(s: &str, c: char) -> (r: Option<usize>)
    ensures
        match r {
            Some(i) => i < s@.len() && first_index_of(s@, c) == i as int,
            None => first_index_of(s@, c) == -1,
        },
{
    let len = s.unicode_len();
    let mut i: usize = 0;
    while i < len
        invariant
            len == s@.len(),
            i <= len,
            forall|j: int| 0 <= j < i ==> s@[j] != c,
        decreases len - i,
    {
        if s.get_char(i) == c {
            proof {
                lemma_first_index_of_unique(s@, c, i as int);
            }
            return Some(i);
        }
        i = i + 1;
    }
    proof {
        lemma_first_index_of_none(s@, c);
    }
    None
}

/// Whether `s` ends with `suffix`.
pub open spec fn ends_with_spec(s: Seq<char>, suffix: Seq<char>) -> bool {
    suffix.len() <= s.len() && s.subrange(s.len() - suffix.len(), s.len() as int) == suffix
}

/// Checks whether a string ends with the given suffix.
pub fn str_ends_with(s: &str, suffix: &str) -> (r: bool)
    ensures
        r == ends_with_spec(s@, suffix@),
{
    let n = s.unicode_len();
    let m = suffix.unicode_len();
    if m > n {
        return false;
    }
    let tail = s.substring_char(n - m, n);
    str_eq_str(tail, suffix)
}



proof fn lemma_b64_char_distinct()
    ensures
        forall|i: int, j: int| 0 <= i < 64 && 0 <= j < 64 && i != j ==> b64_char(i) != b64_char(j),
        forall|i: int| 0 <= i < 64 ==> b64_char(i) != '=',
{
    reveal_strlit("ABCDEFGHIJKLMNOPQRSTUVWXYZabcdefghijklmnopqrstuvwxyz0123456789+/");
    assert(b64_alphabet().len() == 64);
    assert forall|i: int, j: int| 0 <= i < 64 && 0 <= j < 64 && i != j implies b64_char(i)
        != b64_char(j) by {}
    assert forall|i: int| 0 <= i < 64 implies b64_char(i) != '=' by {}
}

/// Padded base64 encoding is injective: equal encodings come from equal
/// byte sequences.
pub proof fn lemma_b64_of_injective(x: Seq<u8>, y: Seq<u8>)
    requires
        b64_of(x) == b64_of(y),
    ensures
        x == y,
    decreases x.len(),
{
    lemma_b64_char_distinct();
    lemma_b64_of_len(x);
    lemma_b64_of_len(y);
    let ex = b64_of(x);
    let ey = b64_of(y);
    if x.len() == 0 || y.len() == 0 {
        assert(ex.len() == ey.len());
        assert(x.len() == 0 && y.len() == 0);
        assert(x =~= y);
    } else {
        // Both encodings are at least one group; positions 2 and 3 tell the
        // three tail shapes apart by where the padding sits.
        assert(ex.len() >= 4);
        if x.len() >= 3 {
            assert(ex[0] == b64_char(x[0] as int / 4) && ex[1] == b64_char(
                (x[0] as int % 4) * 16 + x[1] as int / 16,
            ) && ex[2] == b64_char((x[1] as int % 16) * 4 + x[2] as int / 64) && ex[3]
                == b64_char(x[2] as int % 64)) by {
                assert(b64_group3(x[0], x[1], x[2]).len() == 4);
            }
            assert(ex[2] != '=' && ex[3] != '=');
        } else if x.len() == 2 {
            assert(ex[2] == b64_char((x[1] as int % 16) * 4) && ex[3] == '=');
            assert(ex[2] != '=');
        } else {
            assert(ex[2] == '=' && ex[3] == '=');
        }
        if y.len() >= 3 {
            assert(ey[0] == b64_char(y[0] as int / 4) && ey[1] == b64_char(
                (y[0] as int % 4) * 16 + y[1] as int / 16,
            ) && ey[2] == b64_char((y[1] as int % 16) * 4 + y[2] as int / 64) && ey[3]
                == b64_char(y[2] as int % 64)) by {
                assert(b64_group3(y[0], y[1], y[2]).len() == 4);
            }
            assert(ey[2] != '=' && ey[3] != '=');
        } else if y.len() == 2 {
            assert(ey[2] == b64_char((y[1] as int % 16) * 4) && ey[3] == '=');
            assert(ey[2] != '=');
        } else {
            assert(ey[2] == '=' && ey[3] == '=');
        }
        if x.len() == 1 {
            assert(y.len() == 1);
            assert(b64_char(x[0] as int / 4) == b64_char(y[0] as int / 4));
            assert(x[0] as int / 4 == y[0] as int / 4);
            assert((x[0] as int % 4) * 16 == (y[0] as int % 4) * 16);
            assert(x[0] == y[0]);
            assert(x =~= y);
        } else if x.len() == 2 {
            assert(y.len() == 2);
            assert(x[0] as int / 4 == y[0] as int / 4);
            assert((x[0] as int % 4) * 16 + x[1] as int / 16 == (y[0] as int % 4) * 16 + y[1]
                as int / 16);
            assert(x[0] as int % 4 == y[0] as int % 4 && x[1] as int / 16 == y[1] as int / 16);
            assert((x[1] as int % 16) * 4 == (y[1] as int % 16) * 4);
            assert(x[0] == y[0] && x[1] == y[1]);
            assert(x =~= y);
        } else {
            assert(y.len() >= 3);
            assert(x[0] as int / 4 == y[0] as int / 4);
            assert((x[0] as int % 4) * 16 + x[1] as int / 16 == (y[0] as int % 4) * 16 + y[1]
                as int / 16);
            assert(x[0] as int % 4 == y[0] as int % 4 && x[1] as int / 16 == y[1] as int / 16);
            assert((x[1] as int % 16) * 4 + x[2] as int / 64 == (y[1] as int % 16) * 4 + y[2]
                as int / 64);
            assert(x[1] as int % 16 == y[1] as int % 16 && x[2] as int / 64 == y[2] as int / 64);
            assert(x[2] as int % 64 == y[2] as int % 64);
            assert(x[0] == y[0] && x[1] == y[1] && x[2] == y[2]);
            assert(b64_of(x.skip(3)) =~= b64_of(y.skip(3))) by {
                assert forall|i: int| 0 <= i < ex.len() - 4 implies b64_of(x.skip(3))[i]
                    == b64_of(y.skip(3))[i] by {
                    assert(ex[i + 4] == b64_of(x.skip(3))[i]);
                    assert(ey[i + 4] == b64_of(y.skip(3))[i]);
                }
                lemma_b64_of_len(x.skip(3));
                lemma_b64_of_len(y.skip(3));
            }
            lemma_b64_of_injective(x.skip(3), y.skip(3));
            assert forall|i: int| 0 <= i < x.len() implies x[i] == y[i] by {
                if i >= 3 {
                    assert(x.skip(3)[i - 3] == x[i]);
                    assert(y.skip(3)[i - 3] == y[i]);
                }
            }
            assert(x =~= y);
        }
    }
}


} // verus!
