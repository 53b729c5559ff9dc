use argon2::password_hash::{Salt, SaltString};
use argon2::{Argon2, PasswordHash, PasswordHasher, PasswordVerifier};
use base64::Engine;
use vstd::prelude::*;

verus! {

/// A user name and the password given with it, as sent in the clear.
pub struct BasicAuthCredentials {
    pub username: String,
    pub raw_password: String,
}

impl BasicAuthCredentials {
    /// The same credentials, holding their own copies of the text.
    pub fn into_owned(self) -> (r: BasicAuthCredentials)
        ensures
            r.username@ == self.username@,
            r.raw_password@ == self.raw_password@,
    {
        BasicAuthCredentials { username: self.username, raw_password: self.raw_password }
    }

    /// Credentials made of a copy of `username` and of `raw_password`.
    pub fn from_strings(username: &str, raw_password: String) -> (r: BasicAuthCredentials)
        ensures
            r.username@ == username@,
            r.raw_password@ == raw_password@,
    {
        BasicAuthCredentials { username: username.to_owned(), raw_password }
    }
}

/// Why an `Authorization` header does not give basic credentials.
#[derive(Debug, Clone, Copy, PartialEq, Eq, Structural)]
pub enum BasicAuthenticationError {
    MissingHeader,
    NotVisibleAscii,
    NotBasicScheme,
    InvalidBase64,
    InvalidUtf8,
    MissingColon,
}

impl BasicAuthenticationError {
    /// The text that describes the error.
    pub fn message(&self) -> (r: &'static str)
        ensures
            r@ == self.spec_message(),
    {
        match self {
            BasicAuthenticationError::MissingHeader => "The 'Authorization' header was missing.",
            BasicAuthenticationError::NotVisibleAscii => "Value of 'Authorization' header is not valid UTF-8",
            BasicAuthenticationError::NotBasicScheme => "Authorization Scheme was not 'Basic'",
            BasicAuthenticationError::InvalidBase64 => "Failed to base64 decode credentials bytes.",
            BasicAuthenticationError::InvalidUtf8 => "Decoded credentials bytes were not valid utf8.",
            BasicAuthenticationError::MissingColon => "Both username and password must be provided",
        }
    }

    pub open spec fn spec_message(&self) -> Seq<char> {
        match self {
            BasicAuthenticationError::MissingHeader => "The 'Authorization' header was missing."@,
            BasicAuthenticationError::NotVisibleAscii => "Value of 'Authorization' header is not valid UTF-8"@,
            BasicAuthenticationError::NotBasicScheme => "Authorization Scheme was not 'Basic'"@,
            BasicAuthenticationError::InvalidBase64 => "Failed to base64 decode credentials bytes."@,
            BasicAuthenticationError::InvalidUtf8 => "Decoded credentials bytes were not valid utf8."@,
            BasicAuthenticationError::MissingColon => "Both username and password must be provided"@,
        }
    }
}

/// The bytes a header value may hold to be read as text: visible ASCII and the tab.
pub open spec fn is_visible_ascii(b: u8) -> bool {
    (32 <= b && b < 127) || b == 9
}

/// The bytes of `Basic `, the prefix of the basic authorization scheme.
pub open spec fn basic_scheme_prefix() -> Seq<u8> {
    seq![66u8, 97u8, 115u8, 105u8, 99u8, 32u8]
}

/// What the `base64` crate's standard engine decodes `input` to; `None` when it refuses it.
pub uninterp spec fn base64_standard_decode(input: Seq<u8>) -> Option<Seq<u8>>;

/// Calls `base64::engine::general_purpose::STANDARD.decode`; its result is fixed by the
/// input and is not stated further here.
#[verifier::external_body]
fn base64_decode(input: &[u8]) -> (r: Option<Vec<u8>>)
    ensures
        match base64_standard_decode(input@) {
            Some(d) => r matches Some(v) && v@ == d,
            None => r is None,
        },
{
    base64::engine::general_purpose::STANDARD.decode(input).ok()
}

/// Calls `String::from_utf8`, which accepts exactly the valid UTF-8 byte sequences and
/// keeps the characters they encode.
#[verifier::external_body]
fn string_from_utf8(bytes: Vec<u8>) -> (r: Option<String>)
    ensures
        r is Some <==> vstd::utf8::valid_utf8(bytes@),
        r matches Some(s) ==> s@ == vstd::utf8::decode_utf8(bytes@),
{
    String::from_utf8(bytes).ok()
}

/// `user` and `password` are what lies before and after the first `:` of `text`.
pub open spec fn split_at_first_colon(text: Seq<char>, user: Seq<char>, password: Seq<char>) -> bool {
    exists|i: int|
        0 <= i < text.len() && text[i] == ':' && (forall|j: int| 0 <= j < i ==> text[j] != ':')
            && user == text.take(i) && password == text.skip(i + 1)
}

/// `r` is what reading the `Authorization` header value `header` (absent when `None`)
/// as basic credentials gives.
pub open spec fn basic_authentication_result(
    header: Option<Seq<u8>>,
    r: Result<BasicAuthCredentials, BasicAuthenticationError>,
) -> bool {
    match header {
        None => r == Err::<BasicAuthCredentials, BasicAuthenticationError>(BasicAuthenticationError::MissingHeader),
        Some(b) => if !(forall|i: int| 0 <= i < b.len() ==> is_visible_ascii(#[trigger] b[i])) {
            r == Err::<BasicAuthCredentials, BasicAuthenticationError>(BasicAuthenticationError::NotVisibleAscii)
        } else if !(b.len() >= 6 && b.take(6) == basic_scheme_prefix()) {
            r == Err::<BasicAuthCredentials, BasicAuthenticationError>(BasicAuthenticationError::NotBasicScheme)
        } else {
            match base64_standard_decode(b.skip(6)) {
                None => r == Err::<BasicAuthCredentials, BasicAuthenticationError>(BasicAuthenticationError::InvalidBase64),
                Some(d) => if !vstd::utf8::valid_utf8(d) {
                    r == Err::<BasicAuthCredentials, BasicAuthenticationError>(BasicAuthenticationError::InvalidUtf8)
                } else if !vstd::utf8::decode_utf8(d).contains(':') {
                    r == Err::<BasicAuthCredentials, BasicAuthenticationError>(BasicAuthenticationError::MissingColon)
                } else {
                    r matches Ok(c) && split_at_first_colon(vstd::utf8::decode_utf8(d), c.username@, c.raw_password@)
                },
            }
        },
    }
}

/// A byte of standard Base64 text (RFC 4648): an ASCII letter, a digit, `+`, `/`, or the
/// padding `=`.
pub open spec fn is_base64_text_byte(b: u8) -> bool {
    (65 <= b <= 90) || (97 <= b <= 122) || (48 <= b <= 57) || b == 43 || b == 47 || b == 61
}

/// The bytes a header value can be read as text with are exactly the visible ASCII
/// characters (space to `~`) and the tab.
pub proof fn lemma_visible_ascii_bytes(b: u8)
    ensures
        is_visible_ascii(b) <==> (0x20 <= b <= 0x7e || b == 0x09),
{
}

/// A header `Basic ` followed by standard Base64 text is read as basic credentials
/// whenever that text decodes to UTF-8 holding a `:`: the credentials are what lies before
/// and after its first `:`. No byte of such a header is refused.
pub proof fn lemma_basic_header_of_base64_credentials(
    encoded: Seq<u8>,
    decoded: Seq<u8>,
    r: Result<BasicAuthCredentials, BasicAuthenticationError>,
)
    requires
        forall|i: int| 0 <= i < encoded.len() ==> is_base64_text_byte(#[trigger] encoded[i]),
        base64_standard_decode(encoded) == Some(decoded),
        vstd::utf8::valid_utf8(decoded),
        vstd::utf8::decode_utf8(decoded).contains(':'),
        basic_authentication_result(Some(seq![66u8, 97u8, 115u8, 105u8, 99u8, 32u8] + encoded), r),
    ensures
        r matches Ok(c) && split_at_first_colon(vstd::utf8::decode_utf8(decoded), c.username@, c.raw_password@),
{
    let header = seq![66u8, 97u8, 115u8, 105u8, 99u8, 32u8] + encoded;
    assert forall|i: int| 0 <= i < header.len() implies is_visible_ascii(#[trigger] header[i]) by {
        if i >= 6 {
            assert(header[i] == encoded[i - 6]);
            assert(is_base64_text_byte(encoded[i - 6]));
        }
    }
    assert(header.take(6) =~= basic_scheme_prefix());
    assert(header.skip(6) =~= encoded);
}

fn all_visible_ascii(b: &[u8]) -> (r: bool)
    ensures
        r == (forall|i: int| 0 <= i < b@.len() ==> is_visible_ascii(#[trigger] b@[i])),
{
    let mut i: usize = 0;
    while i < b.len()
        invariant
            i <= b@.len(),
            forall|j: int| 0 <= j < i ==> is_visible_ascii(#[trigger] b@[j]),
        decreases b@.len() - i,
    {
        let x = b[i];
        if !((32 <= x && x < 127) || x == 9) {
            return false;
        }
        i = i + 1;
    }
    true
}

fn starts_with_basic_scheme(b: &[u8]) -> (r: bool)
    ensures
        r == (b@.len() >= 6 && b@.take(6) == basic_scheme_prefix()),
{
    if b.len() < 6 {
        return false;
    }
    let ok = b[0] == 66u8 && b[1] == 97u8 && b[2] == 115u8 && b[3] == 105u8 && b[4] == 99u8 && b[5] == 32u8;
    assert(ok == (b@.take(6) =~= basic_scheme_prefix()));
    ok
}

fn split_credentials(text: String) -> (r: Option<BasicAuthCredentials>)
    ensures
        !text@.contains(':') ==> r is None,
        text@.contains(':') ==> (r matches Some(c) && split_at_first_colon(text@, c.username@, c.raw_password@)),
{
    let s: &str = text.as_str();
    let n = s.unicode_len();
    let mut i: usize = 0;
    while i < n
        invariant
            n == s@.len(),
            s@ == text@,
            i <= n,
            forall|j: int| 0 <= j < i ==> s@[j] != ':',
        decreases n - i,
    {
        if s.get_char(i) == ':' {
            let username = s.substring_char(0, i).to_owned();
            let raw_password = s.substring_char(i + 1, n).to_owned();
            assert(text@.contains(':'));
            return Some(BasicAuthCredentials { username, raw_password });
        }
        i = i + 1;
    }
    None
}

/// Reads basic credentials from the value of an `Authorization` header: the value must be
/// visible ASCII, start with `Basic `, go on in standard base64, decode to UTF-8 text, and
/// that text must hold a `:` that parts the user name from the password.
pub fn basic_authentication(authorization: Option<&[u8]>) -> (r: Result<BasicAuthCredentials, BasicAuthenticationError>)
    ensures
        basic_authentication_result(
            match authorization {
                Some(b) => Some(b@),
                None => None,
            },
            r,
        ),
{
    let value = match authorization {
        None => return Err(BasicAuthenticationError::MissingHeader),
        Some(v) => v,
    };
    if !all_visible_ascii(value) {
        return Err(BasicAuthenticationError::NotVisibleAscii);
    }
    if !starts_with_basic_scheme(value) {
        return Err(BasicAuthenticationError::NotBasicScheme);
    }
    let encoded = slice_skip(value, 6);
    let decoded = match base64_decode(encoded) {
        None => return Err(BasicAuthenticationError::InvalidBase64),
        Some(d) => d,
    };
    let text = match string_from_utf8(decoded) {
        None => return Err(BasicAuthenticationError::InvalidUtf8),
        Some(t) => t,
    };
    match split_credentials(text) {
        None => Err(BasicAuthenticationError::MissingColon),
        Some(c) => Ok(c),
    }
}

fn slice_skip(s: &[u8], n: usize) -> (r: &[u8])
    requires
        n <= s@.len(),
    ensures
        r@ == s@.skip(n as int),
{
    let (_, rest) = s.split_at(n);
    rest
}

/// The outcome of checking a password against a PHC-format Argon2 hash.
#[derive(Debug, Clone, Copy, PartialEq, Eq, Structural)]
pub enum PasswordCheckKind {
    Match,
    Mismatch,
    InvalidHash,
    Failed,
}

/// How Argon2 (with default parameters for whatever the hash leaves open) judges
/// `password` against the PHC string `phc`.
pub uninterp spec fn argon2_check(password: Seq<char>, phc: Seq<char>) -> PasswordCheckKind;

enum Argon2Verification {
    Match,
    Mismatch,
    InvalidHash(argon2::password_hash::Error),
    Failed(argon2::password_hash::Error),
}

impl Argon2Verification {
    spec fn kind(self) -> PasswordCheckKind {
        match self {
            Argon2Verification::Match => PasswordCheckKind::Match,
            Argon2Verification::Mismatch => PasswordCheckKind::Mismatch,
            Argon2Verification::InvalidHash(_) => PasswordCheckKind::InvalidHash,
            Argon2Verification::Failed(_) => PasswordCheckKind::Failed,
        }
    }
}

/// Parses `phc` with `PasswordHash::new` and, if that succeeds, checks `password` with
/// `Argon2::default().verify_password`. The outcome is named, not stated: it depends on
/// the two strings alone. `Error::Password` is the crate's answer for a wrong password.
#[verifier::external_body]
fn argon2_verify(password: &str, phc: &str) -> (r: Argon2Verification)
    ensures
        r.kind() == argon2_check(password@, phc@),
{
    match PasswordHash::new(phc) {
        Err(e) => Argon2Verification::InvalidHash(e),
        Ok(hash) => match Argon2::default().verify_password(password.as_bytes(), &hash) {
            Ok(()) => Argon2Verification::Match,
            Err(argon2::password_hash::Error::Password) => Argon2Verification::Mismatch,
            Err(e) => Argon2Verification::Failed(e),
        },
    }
}

/// A character of the standard Base64 alphabet: a letter, a digit, `+` or `/`.
pub open spec fn is_b64_char(c: char) -> bool {
    ('A' <= c <= 'Z') || ('a' <= c <= 'z') || ('0' <= c <= '9') || c == '+' || c == '/'
}

/// `s` is the unpadded standard Base64 text of sixteen bytes: 22 characters of the
/// alphabet, the last of which carries two bits and four zero bits (`A`, `Q`, `g` or `w`).
pub open spec fn encodes_sixteen_bytes(s: Seq<char>) -> bool {
    &&& s.len() == 22
    &&& forall|i: int| 0 <= i < s.len() ==> is_b64_char(#[trigger] s[i])
    &&& (s[21] == 'A' || s[21] == 'Q' || s[21] == 'g' || s[21] == 'w')
}

/// Calls `SaltString::generate` with `rand::thread_rng()` and returns the salt's B64 text.
/// The salt is random; what the source shows of every outcome is stated: it draws
/// `Salt::RECOMMENDED_LENGTH` (sixteen) bytes and encodes them with the crate's "B64"
/// encoding, unpadded standard Base64.
#[verifier::external_body]
pub(crate) fn random_salt() -> (r: String)
    ensures
        encodes_sixteen_bytes(r@),
{
    SaltString::generate(rand::thread_rng()).as_str().to_owned()
}

/// The PHC string that `Argon2::default().hash_password` makes of `password` with the B64
/// salt `salt`, serialized.
pub uninterp spec fn argon2_phc(password: Seq<char>, salt: Seq<char>) -> Seq<char>;

/// Reads `salt` with `Salt::from_b64`, hashes `password` with `Argon2::default()
/// .hash_password` and serializes the hash as a PHC string. The hash is named: it depends
/// on the two strings alone. Also stated: the purpose the crate documents for such a hash
/// (checking the same password against it with `Argon2::default().verify_password`
/// succeeds), and when the source owes success: a salt that is the Base64 text of sixteen
/// bytes passes `Salt::from_b64` (4 to 64 characters of its alphabet) and decodes to more
/// than the eight bytes Argon2 needs, and a password of at most `0xFFFFFFFF` bytes is
/// accepted.
#[verifier::external_body]
pub(crate) fn argon2_hash(password: &str, salt: &str) -> (r: Result<String, argon2::password_hash::Error>)
    ensures
        r matches Ok(phc) ==> phc@ == argon2_phc(password@, salt@),
        r matches Ok(phc) ==> argon2_check(password@, phc@) == PasswordCheckKind::Match,
        encodes_sixteen_bytes(salt@) && vstd::utf8::encode_utf8(password@).len() <= 0xFFFF_FFFF ==> r is Ok,
{
    match Salt::from_b64(salt) {
        Err(e) => Err(e),
        Ok(salt) => match Argon2::default().hash_password(password.as_bytes(), salt) {
            Ok(hash) => Ok(hash.serialize().to_string()),
            Err(e) => Err(e),
        },
    }
}

/// `phc` is the Argon2 hash of `password` with some salt of the kind `random_salt` makes.
pub open spec fn hashed_with_new_salt(password: Seq<char>, phc: Seq<char>) -> bool {
    exists|salt: Seq<char>| encodes_sixteen_bytes(salt) && phc == #[trigger] argon2_phc(password, salt)
}

/// Why a password could not be checked.
#[derive(Debug)]
pub enum ValidatePasswordError {
    /// "Failed to parse password hash"
    InvalidHash(argon2::password_hash::Error),
    /// "Failed to validate password."
    Failed(argon2::password_hash::Error),
}

impl ValidatePasswordError {
    pub open spec fn kind(&self) -> PasswordCheckKind {
        match self {
            ValidatePasswordError::InvalidHash(_) => PasswordCheckKind::InvalidHash,
            ValidatePasswordError::Failed(_) => PasswordCheckKind::Failed,
        }
    }
}

/// `r` is what validating a password gives when the Argon2 check judged it `kind`: `true`
/// for a match, `false` for a wrong password, an error of that kind otherwise.
pub open spec fn validates_as(r: Result<bool, ValidatePasswordError>, kind: PasswordCheckKind) -> bool {
    match kind {
        PasswordCheckKind::Match => r == Ok::<bool, ValidatePasswordError>(true),
        PasswordCheckKind::Mismatch => r == Ok::<bool, ValidatePasswordError>(false),
        k => r matches Err(e) && e.kind() == k,
    }
}

/// Whether `password` matches the salted hash `salted_password`; an error when the hash
/// cannot be parsed or the check fails for another reason than a wrong password.
pub fn validate_password(password: &str, salted_password: &str) -> (r: Result<bool, ValidatePasswordError>)
    ensures
        validates_as(r, argon2_check(password@, salted_password@)),
{
    match argon2_verify(password, salted_password) {
        Argon2Verification::Match => Ok(true),
        Argon2Verification::Mismatch => Ok(false),
        Argon2Verification::InvalidHash(e) => Err(ValidatePasswordError::InvalidHash(e)),
        Argon2Verification::Failed(e) => Err(ValidatePasswordError::Failed(e)),
    }
}

/// The hash checked when the user name is unknown, so that an unknown name costs as much
/// time as a wrong password.
pub const FALLBACK_PASSWORD_HASH: &'static str = "$argon2id$v=19$m=15000,t=2,p=1$gZiV/M1gPc22ElAH/Jh1Hw$CWOrkoo7oJBQ/iyh7uJ0LO2aLEfrHwTWllSAxT0zRno";

/// What looking up a writer's stored credentials by user name gave.
pub enum CredentialsLookup {
    Found { user_id: uuid::Uuid, salted_password: String },
    UsernameNotFound,
    Unexpected(eyre::Report),
}

/// The hash that the password is checked against after `lookup`: the stored one, or the
/// fallback hash when no stored one was found.
pub open spec fn hash_to_check(lookup: CredentialsLookup) -> Seq<char> {
    match lookup {
        CredentialsLookup::Found { salted_password, .. } => salted_password@,
        _ => FALLBACK_PASSWORD_HASH@,
    }
}

/// The hash to check the password against: the stored one, or the fallback hash when no
/// stored one was found.
pub fn password_hash_to_check(lookup: &CredentialsLookup) -> (r: String)
    ensures
        r@ == hash_to_check(*lookup),
{
    match lookup {
        CredentialsLookup::Found { salted_password, .. } => salted_password.clone(),
        _ => FALLBACK_PASSWORD_HASH.to_owned(),
    }
}

/// Why authentication was refused.
#[derive(Debug, Clone, Copy, PartialEq, Eq, Structural)]
pub enum AuthenticationFailure {
    /// "Username not found."
    UsernameNotFound,
    /// "Incorrect password."
    IncorrectPassword,
}

#[derive(Debug)]
pub enum NewsletterWritersAuthenticationError {
    /// "Authentication failed."
    Authentication(AuthenticationFailure),
    Unexpected(UnexpectedAuthenticationError),
}

#[derive(Debug)]
pub enum UnexpectedAuthenticationError {
    /// The lookup of the stored credentials failed.
    Lookup(eyre::Report),
    /// "Failed to spawn a new thread to validate password."
    ValidationTaskFailed,
    /// "Error occurred trying to validate password."
    Validation(ValidatePasswordError),
}

/// `r` decides the authentication of a writer after `lookup` and after `validation`, the
/// check of the password against `hash_to_check(lookup)` (`None` when the task that ran
/// the check did not complete). A failed lookup decides first, then a check that did not
/// run or failed, then the check's verdict.
pub open spec fn authentication_decided(
    lookup: CredentialsLookup,
    validation: Option<Result<bool, ValidatePasswordError>>,
    r: Result<uuid::Uuid, NewsletterWritersAuthenticationError>,
) -> bool {
    match lookup {
        CredentialsLookup::UsernameNotFound => r matches Err(
            NewsletterWritersAuthenticationError::Authentication(AuthenticationFailure::UsernameNotFound),
        ),
        CredentialsLookup::Unexpected(e) => r matches Err(
            NewsletterWritersAuthenticationError::Unexpected(UnexpectedAuthenticationError::Lookup(e2)),
        ) && e2 == e,
        CredentialsLookup::Found { user_id, .. } => match validation {
            None => r matches Err(
                NewsletterWritersAuthenticationError::Unexpected(UnexpectedAuthenticationError::ValidationTaskFailed),
            ),
            Some(Err(e)) => r matches Err(
                NewsletterWritersAuthenticationError::Unexpected(UnexpectedAuthenticationError::Validation(e2)),
            ) && e2 == e,
            Some(Ok(true)) => r == Ok::<uuid::Uuid, NewsletterWritersAuthenticationError>(user_id),
            Some(Ok(false)) => r matches Err(
                NewsletterWritersAuthenticationError::Authentication(AuthenticationFailure::IncorrectPassword),
            ),
        },
    }
}

/// Decides the authentication of a writer from the lookup of its credentials and from the
/// check of the password against `password_hash_to_check(&lookup)`.
pub fn authentication_outcome(
    lookup: CredentialsLookup,
    validation: Option<Result<bool, ValidatePasswordError>>,
) -> (r: Result<uuid::Uuid, NewsletterWritersAuthenticationError>)
    ensures
        authentication_decided(lookup, validation, r),
{
    match lookup {
        CredentialsLookup::UsernameNotFound => Err(
            NewsletterWritersAuthenticationError::Authentication(AuthenticationFailure::UsernameNotFound),
        ),
        CredentialsLookup::Unexpected(e) => Err(
            NewsletterWritersAuthenticationError::Unexpected(UnexpectedAuthenticationError::Lookup(e)),
        ),
        CredentialsLookup::Found { user_id, .. } => match validation {
            None => Err(
                NewsletterWritersAuthenticationError::Unexpected(UnexpectedAuthenticationError::ValidationTaskFailed),
            ),
            Some(Err(e)) => Err(
                NewsletterWritersAuthenticationError::Unexpected(UnexpectedAuthenticationError::Validation(e)),
            ),
            Some(Ok(true)) => Ok(user_id),
            Some(Ok(false)) => Err(
                NewsletterWritersAuthenticationError::Authentication(AuthenticationFailure::IncorrectPassword),
            ),
        },
    }
}

/// Authenticates a writer after the lookup of its credentials: `password` is checked
/// once, against `password_hash_to_check(&lookup)` (the stored hash, or the fallback hash
/// when the name is unknown or the lookup failed), and then `authentication_outcome`
/// decides, so that a known and an unknown name cost the same work.
pub fn authenticate_writer(lookup: CredentialsLookup, password: &str) -> (r: Result<uuid::Uuid, NewsletterWritersAuthenticationError>)
    ensures
        exists|validation: Result<bool, ValidatePasswordError>|
            validates_as(validation, argon2_check(password@, hash_to_check(lookup)))
                && #[trigger] authentication_decided(lookup, Some(validation), r),
{
    let hash = password_hash_to_check(&lookup);
    let validation = validate_password(password, hash.as_str());
    proof {
        assert(validates_as(validation, argon2_check(password@, hash_to_check(lookup))));
    }
    authentication_outcome(lookup, Some(validation))
}

/// A password is checked against a hash whether or not the user name is known, so that
/// the time taken does not tell: against the stored hash of a known name, against the
/// fallback hash of an unknown one. An unknown name is refused as such whatever that
/// check gave, even a match; a known name is accepted exactly when the check matched.
pub proof fn lemma_unknown_name_is_checked_and_refused(
    lookup: CredentialsLookup,
    password: Seq<char>,
    validation: Result<bool, ValidatePasswordError>,
    r: Result<uuid::Uuid, NewsletterWritersAuthenticationError>,
)
    requires
        validates_as(validation, argon2_check(password, hash_to_check(lookup))),
        authentication_decided(lookup, Some(validation), r),
    ensures
        lookup is UsernameNotFound ==> hash_to_check(lookup) == FALLBACK_PASSWORD_HASH@ && r matches Err(
            NewsletterWritersAuthenticationError::Authentication(AuthenticationFailure::UsernameNotFound),
        ),
        lookup matches CredentialsLookup::Found { user_id, salted_password } ==> {
            &&& hash_to_check(lookup) == salted_password@
            &&& (r is Ok <==> argon2_check(password, salted_password@) == PasswordCheckKind::Match)
            &&& r is Ok ==> r == Ok::<uuid::Uuid, NewsletterWritersAuthenticationError>(user_id)
        },
{
}

/// The id of the logged-in writer, as the session holds it.
#[derive(Debug, Clone, Copy)]
pub struct UserId(pub uuid::Uuid);

impl From<uuid::Uuid> for UserId {
    fn from(value: uuid::Uuid) -> (r: UserId) {
        UserId(value)
    }
}

impl vstd::std_specs::convert::FromSpecImpl<uuid::Uuid> for UserId {
    open spec fn obeys_from_spec() -> bool {
        true
    }

    open spec fn from_spec(value: uuid::Uuid) -> UserId {
        UserId(value)
    }
}

} // verus!
