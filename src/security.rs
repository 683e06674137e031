//! Input validation and sanitising.

use vstd::prelude::*;

verus! {

/// Whether `char::is_alphanumeric` holds of `c` (Unicode Alphabetic or
/// Numeric).
pub uninterp spec fn alphanumeric(c: char) -> bool;

/// An ASCII letter or digit.
pub open spec fn ascii_alphanumeric(c: char) -> bool {
    ('0' <= c <= '9') || ('a' <= c <= 'z') || ('A' <= c <= 'Z')
}

/// Relies on `char::is_alphanumeric`: the Unicode Alphabetic or Numeric
/// property, which among ASCII characters holds of the letters and digits
/// alone.
#[verifier::external_body]
pub fn is_alphanumeric(c: char) -> (r: bool)
    ensures
        r == alphanumeric(c),
        c <= '\u{7f}' ==> (r <==> ascii_alphanumeric(c)),
{
    c.is_alphanumeric()
}

pub open spec fn is_ascii_digit(c: char) -> bool {
    '0' <= c <= '9'
}

/// A character a GitHub login may hold.
pub open spec fn login_char(c: char) -> bool {
    alphanumeric(c) || c == '-'
}

/// A GitHub login: 1 to 39 bytes (`str::len`) of letters, digits and hyphens, neither
/// starting nor ending with a hyphen.
pub open spec fn is_valid_username(s: &str) -> bool {
    &&& 1 <= s.len() <= 39
    &&& s@.len() > 0
    &&& forall|k: int| 0 <= k < s@.len() ==> login_char(#[trigger] s@[k])
    &&& s@[0] != '-'
    &&& s@.last() != '-'
}

pub fn validate_github_username(username: &str) -> (r: bool)
    ensures
        r == is_valid_username(username),
{
    let bytes = username.len();
    if bytes > 39 || bytes < 1 {
        return false;
    }
    let n = username.unicode_len();
    if n == 0 {
        return false;
    }
    let mut i: usize = 0;
    while i < n
        invariant
            1 <= username.len() <= 39,
            n == username@.len(),
            n > 0,
            i <= n,
            forall|k: int| 0 <= k < i ==> login_char(#[trigger] username@[k]),
        decreases n - i,
    {
        let c = username.get_char(i);
        if !(is_alphanumeric(c) || c == '-') {
            return false;
        }
        i = i + 1;
    }
    username.get_char(0) != '-' && username.get_char(n - 1) != '-'
}

/// A project number: 1 to 10 ASCII digits.
pub open spec fn is_valid_project_number(s: &str) -> bool {
    &&& s.len() <= 10
    &&& s@.len() > 0
    &&& forall|k: int| 0 <= k < s@.len() ==> is_ascii_digit(#[trigger] s@[k])
}

pub fn validate_project_number(project_number: &str) -> (r: bool)
    ensures
        r == is_valid_project_number(project_number),
{
    if project_number.len() > 10 || project_number.is_empty() {
        return false;
    }
    let n = project_number.unicode_len();
    let mut i: usize = 0;
    while i < n
        invariant
            project_number.len() <= 10,
            project_number@.len() > 0,
            n == project_number@.len(),
            i <= n,
            forall|k: int| 0 <= k < i ==> is_ascii_digit(#[trigger] project_number@[k]),
        decreases n - i,
    {
        let c = project_number.get_char(i);
        if !('0' <= c && c <= '9') {
            return false;
        }
        i = i + 1;
    }
    true
}

/// A character a sanitised branch name keeps.
pub open spec fn branch_char(c: char) -> bool {
    alphanumeric(c) || c == '-' || c == '_' || c == '/' || c == '.'
}

/// The characters of `s` that a branch name keeps, in order.
pub open spec fn branch_chars(s: Seq<char>) -> Seq<char>
    decreases s.len(),
{
    if s.len() == 0 {
        seq![]
    } else {
        let p = branch_chars(s.drop_last());
        if branch_char(s.last()) {
            p.push(s.last())
        } else {
            p
        }
    }
}

/// `r` is `s` without its leading and trailing dots.
pub open spec fn is_dot_trim_of(r: Seq<char>, s: Seq<char>) -> bool {
    exists|i: int, j: int|
        #![trigger s.subrange(i, j)]
        0 <= i <= j <= s.len() && r == s.subrange(i, j) && (forall|k: int| 0 <= k < i ==> #[trigger] s[k] == '.')
            && (forall|k: int| j <= k < s.len() ==> #[trigger] s[k] == '.') && (i < j ==> s[i] != '.' && s[j - 1]
            != '.')
}

/// A branch name with every character dropped but letters, digits, `-`,
/// `_`, `/` and `.`, and then leading and trailing dots removed.
pub fn sanitize_branch_name(branch: &str) -> (r: String)
    ensures
        is_dot_trim_of(r@, branch_chars(branch@)),
{
    let n = branch.unicode_len();
    let mut kept = String::new();
    let mut i: usize = 0;
    assert(branch@.subrange(0, 0) =~= Seq::<char>::empty());
    while i < n
        invariant
            n == branch@.len(),
            i <= n,
            kept@ == branch_chars(branch@.subrange(0, i as int)),
        decreases n - i,
    {
        let c = branch.get_char(i);
        proof {
            assert(branch@.subrange(0, i + 1).drop_last() =~= branch@.subrange(0, i as int));
        }
        if is_alphanumeric(c) || c == '-' || c == '_' || c == '/' || c == '.' {
            crate::text::push_char(&mut kept, c);
        }
        i = i + 1;
    }
    assert(branch@.subrange(0, n as int) =~= branch@);
    let s = kept.as_str();
    let m = s.unicode_len();
    let mut a: usize = 0;
    while a < m && s.get_char(a) == '.'
        invariant
            m == s@.len(),
            a <= m,
            forall|k: int| 0 <= k < a ==> #[trigger] s@[k] == '.',
        decreases m - a,
    {
        a = a + 1;
    }
    let mut b: usize = m;
    while b > a && s.get_char(b - 1) == '.'
        invariant
            m == s@.len(),
            a <= b <= m,
            forall|k: int| b <= k < m ==> #[trigger] s@[k] == '.',
        decreases b,
    {
        b = b - 1;
    }
    let r = String::from_str(s.substring_char(a, b));
    assert(r@ == s@.subrange(a as int, b as int));
    r
}

/// The lowercase hexadecimal digit of `n`, for `n < 16`.
pub open spec fn hex_digit(n: u8) -> char {
    seq!['0', '1', '2', '3', '4', '5', '6', '7', '8', '9', 'a', 'b', 'c', 'd', 'e', 'f'][n as int]
}

/// Two lowercase hexadecimal digits for each byte, high half first.
pub open spec fn hex_of(b: Seq<u8>) -> Seq<char> {
    Seq::new(
        2 * b.len(),
        |i: int|
            if i % 2 == 0 {
                hex_digit(b[i / 2] / 16)
            } else {
                hex_digit(b[i / 2] % 16)
            },
    )
}

pub open spec fn is_lower_hex(c: char) -> bool {
    ('0' <= c <= '9') || ('a' <= c <= 'f')
}

proof fn hex_digit_is_lower_hex(n: u8)
    requires
        n < 16,
    ensures
        is_lower_hex(hex_digit(n)),
{
    let s = seq!['0', '1', '2', '3', '4', '5', '6', '7', '8', '9', 'a', 'b', 'c', 'd', 'e', 'f'];
    assert(s[0] == '0' && s[1] == '1' && s[2] == '2' && s[3] == '3' && s[4] == '4' && s[5] == '5');
    assert(s[6] == '6' && s[7] == '7' && s[8] == '8' && s[9] == '9' && s[10] == 'a' && s[11] == 'b');
    assert(s[12] == 'c' && s[13] == 'd' && s[14] == 'e' && s[15] == 'f');
}

/// Relies on `hex::encode`: two lowercase digits for each byte, high half
/// first (its table is `0123456789abcdef`).
#[verifier::external_body]
fn to_hex(b: &Vec<u8>) -> (r: String)
    ensures
        r@ == hex_of(b@),
{
    hex::encode(b)
}

/// The length of a secure token's randomness, in bytes.
pub const SECURE_TOKEN_BYTES: usize = 32;

/// Relies on rand's `thread_rng` and `Rng::gen` for `[u8; 32]`: 32 random
/// bytes; nothing is promised of their values.
#[verifier::external_body]
fn random_bytes() -> (r: Vec<u8>)
    ensures
        r@.len() == SECURE_TOKEN_BYTES,
{
    let bytes: [u8; 32] = rand::Rng::gen(&mut rand::thread_rng());
    bytes.to_vec()
}

/// A fresh token for CSRF protection and the like: 32 random bytes as 64
/// lowercase hexadecimal digits.
pub fn generate_secure_token() -> (r: String)
    ensures
        r@.len() == 2 * SECURE_TOKEN_BYTES,
        forall|k: int| 0 <= k < r@.len() ==> is_lower_hex(#[trigger] r@[k]),
{
    let bytes = random_bytes();
    let r = to_hex(&bytes);
    assert forall|k: int| 0 <= k < r@.len() implies is_lower_hex(#[trigger] r@[k]) by {
        let b = bytes@[k / 2];
        assert(b / 16 < 16) by (bit_vector);
        assert(b % 16 < 16) by (bit_vector);
        let d = if k % 2 == 0 { b / 16 } else { b % 16 };
        hex_digit_is_lower_hex(d);
    }
    r
}

/// The claims of a session token.
#[derive(Debug)]
pub struct JwtClaims {
    pub sub: String,
    pub user_id: u64,
    pub username: String,
    pub exp: usize,
    pub iat: usize,
}

/// Why a password could not be hashed or checked.
#[derive(Debug)]
pub enum PasswordError {
    /// Hashing failed; argon2's message.
    Hashing(String),
    /// The stored hash is not a PHC string; the parser's message.
    InvalidHash(String),
}

/// Whether `hash` parses as a PHC string (password-hash's `PasswordHash::new`).
pub uninterp spec fn phc_valid(hash: Seq<char>) -> bool;

/// Whether argon2 with its default parameters accepts `password` against the
/// PHC string `hash`.
pub uninterp spec fn argon2_accepts(password: Seq<char>, hash: Seq<char>) -> bool;

/// Relies on password-hash's `PasswordHash::new`: `Ok` exactly when `hash`
/// parses; the error's text otherwise.
#[verifier::external_body]
fn parse_phc(hash: &str) -> (r: Result<(), String>)
    ensures
        r is Ok == phc_valid(hash@),
{
    match argon2::password_hash::PasswordHash::new(hash) {
        Ok(_) => Ok(()),
        Err(e) => Err(e.to_string()),
    }
}

/// Relies on argon2's `PasswordVerifier::verify_password` with
/// `Argon2::default()`, on the parsed `hash`: whether the password matches.
/// The result depends on the two texts alone.
#[verifier::external_body]
fn argon2_verify(password: &str, hash: &str) -> (r: bool)
    requires
        phc_valid(hash@),
    ensures
        r == argon2_accepts(password@, hash@),
{
    match argon2::password_hash::PasswordHash::new(hash) {
        Ok(parsed) => argon2::PasswordVerifier::verify_password(&argon2::Argon2::default(), password.as_bytes(), &parsed).is_ok(),
        Err(_) => false,
    }
}

/// Relies on password-hash's `SaltString::generate` with the operating
/// system's generator and argon2's `PasswordHasher::hash_password` with
/// `Argon2::default()`: a PHC string for a fresh random salt, or the error's
/// text. The salt is random, so nothing is promised of the value.
#[verifier::external_body]
fn argon2_hash(password: &str) -> (r: Result<String, String>) {
    let salt = argon2::password_hash::SaltString::generate(&mut argon2::password_hash::rand_core::OsRng);
    match argon2::PasswordHasher::hash_password(&argon2::Argon2::default(), password.as_bytes(), &salt) {
        Ok(h) => Ok(h.to_string()),
        Err(e) => Err(e.to_string()),
    }
}

/// The argon2 hash of a password, as a PHC string with a fresh salt.
pub fn hash_password(password: &str) -> (r: Result<String, PasswordError>)
    ensures
        r matches Err(e) ==> e is Hashing,
{
    match argon2_hash(password) {
        Ok(h) => Ok(h),
        Err(m) => Err(PasswordError::Hashing(m)),
    }
}

/// Whether `password` matches the stored `hash`; an error when the hash is
/// not a PHC string.
pub fn verify_password(password: &str, hash: &str) -> (r: Result<bool, PasswordError>)
    ensures
        phc_valid(hash@) ==> r == Ok::<bool, PasswordError>(argon2_accepts(password@, hash@)),
        !phc_valid(hash@) ==> (r matches Err(e) && e is InvalidHash),
{
    match parse_phc(hash) {
        Ok(()) => Ok(argon2_verify(password, hash)),
        Err(m) => Err(PasswordError::InvalidHash(m)),
    }
}

} // verus!
