//! Long-term credential derivation: a time-windowed username is checked
//! against the clock, its password is derived from a shared secret, and
//! the authentication key is the digest of `username:realm:password` — a
//! fixed external protocol layout.

use crate::errors::AuthError;
use md5::Digest;
use vstd::arithmetic::div_mod::lemma_fundamental_div_mod;
use vstd::prelude::*;
use vstd::string::StrSliceExecFns;
use vstd::string::StringExecFns;

verus! {

/// Name for the HMAC-SHA1 tag computed over a key and a message.
pub uninterp spec fn hmac_sha1_of(key: Seq<char>, message: Seq<char>) -> Seq<u8>;

/// Relies on ring::hmac::sign with ring::hmac::HMAC_SHA1_FOR_LEGACY_USE_ONLY
/// (the key built by ring::hmac::Key::new from the secret's bytes): the tag
/// is a function of key and message alone, 20 bytes long.
#[verifier::external_body]
fn hmac_sha1(key: &str, message: &str) -> (r: Vec<u8>)
    ensures
        r@ == hmac_sha1_of(key@, message@),
        r@.len() == 20,
{
    let mac = ring::hmac::Key::new(ring::hmac::HMAC_SHA1_FOR_LEGACY_USE_ONLY, key.as_bytes());
    ring::hmac::sign(&mac, message.as_bytes()).as_ref().to_vec()
}

/// Name for the standard base64 encoding (with padding) of a byte string.
pub uninterp spec fn base64_of(bytes: Seq<u8>) -> Seq<char>;

/// Relies on base64::encode: the standard alphabet with padding, four
/// output characters for every started group of three input bytes, a
/// function of the input alone.
#[verifier::external_body]
fn base64_encode(bytes: &Vec<u8>) -> (r: String)
    ensures
        r@ == base64_of(bytes@),
        r@.len() == 4 * ((bytes@.len() + 2) / 3),
{
    base64::encode(bytes.as_slice())
}

/// Name for the MD5 digest of a text.
pub uninterp spec fn md5_of(text: Seq<char>) -> Seq<u8>;

/// Relies on md5::Md5::digest: a 16-byte digest, a function of the input
/// alone.
#[verifier::external_body]
fn md5_digest(text: &str) -> (r: Vec<u8>)
    ensures
        r@ == md5_of(text@),
        r@.len() == 16,
{
    md5::Md5::digest(text.as_bytes()).to_vec()
}

/// Relies on std::time::SystemTime::now for the seconds since the Unix
/// epoch; nothing is assumed of the value, and a clock before the epoch
/// reads as zero.
#[verifier::external_body]
fn now_unix_secs() -> u64 {
    match std::time::SystemTime::now().duration_since(std::time::UNIX_EPOCH) {
        Ok(d) => d.as_secs(),
        Err(_) => 0,
    }
}

/// Derives the password of a long-term credential:
/// base64(HMAC-SHA1(shared_secret, username)).
pub fn long_term_credentials(username: &str, shared_secret: &str) -> (r: String)
    ensures
        r@ == base64_of(hmac_sha1_of(shared_secret@, username@)),
        r@.len() == 28,
{
    let tag = hmac_sha1(shared_secret, username);
    base64_encode(&tag)
}

/// The text `username:realm:password` whose digest is the authentication
/// key.
pub open spec fn credential_text(
    username: Seq<char>,
    realm: Seq<char>,
    password: Seq<char>,
) -> Seq<char> {
    username + ":"@ + realm + ":"@ + password
}

/// The authentication key a username, realm and password derive: the MD5
/// digest of `username:realm:password`.
pub open spec fn auth_key_of(
    username: Seq<char>,
    realm: Seq<char>,
    password: Seq<char>,
) -> Seq<u8> {
    md5_of(credential_text(username, realm, password))
}

/// Generates keys in the format the authentication handler uses; the
/// 16-byte key is a function of its three inputs alone.
pub fn generate_auth_key(username: &str, realm: &str, password: &str) -> (r: Vec<u8>)
    ensures
        r@ == auth_key_of(username@, realm@, password@),
        r@.len() == 16,
{
    let mut text = String::from_str(username);
    text.append(":");
    text.append(realm);
    text.append(":");
    text.append(password);
    proof {
        assert(text@ =~= credential_text(username@, realm@, password@));
    }
    md5_digest(text.as_str())
}

/// Whether every character of the sequence is a decimal digit.
pub open spec fn all_digits(s: Seq<char>) -> bool {
    forall|i: int| 0 <= i < s.len() ==> '0' as int <= #[trigger] s[i] as int <= '9' as int
}

/// The decimal value a digit sequence denotes.
pub open spec fn decimal_value(s: Seq<char>) -> int
    decreases s.len(),
{
    if s.len() == 0 {
        0
    } else {
        decimal_value(s.drop_last()) * 10 + (s.last() as int - '0' as int)
    }
}

/// The digits of a timestamp string: an optional leading plus sign is
/// stripped.
pub open spec fn timestamp_digits(s: Seq<char>) -> Seq<char> {
    if s.len() > 0 && s[0] == '+' {
        s.subrange(1, s.len() as int)
    } else {
        s
    }
}

/// Whether a string is a decimal Unix timestamp: at least one digit after
/// the optional sign, and a value within the unsigned 64-bit range.
pub open spec fn is_valid_timestamp(s: Seq<char>) -> bool {
    let d = timestamp_digits(s);
    d.len() > 0 && all_digits(d) && decimal_value(d) <= u64::MAX
}

/// A digit sequence denotes a non-negative value.
proof fn lemma_decimal_value_nonneg(s: Seq<char>)
    requires
        all_digits(s),
    ensures
        decimal_value(s) >= 0,
    decreases s.len(),
{
    if s.len() > 0 {
        assert(all_digits(s.drop_last())) by {
            assert(forall|i: int| 0 <= i < s.len() - 1 ==> s.drop_last()[i] == s[i]);
        }
        lemma_decimal_value_nonneg(s.drop_last());
    }
}

/// A digit sequence denotes at least as much as any of its prefixes.
proof fn lemma_decimal_value_prefix(s: Seq<char>, j: int)
    requires
        all_digits(s),
        0 <= j <= s.len(),
    ensures
        decimal_value(s.subrange(0, j)) <= decimal_value(s),
    decreases s.len() - j,
{
    if j == s.len() {
        assert(s.subrange(0, j) =~= s);
    } else {
        let next = s.subrange(0, j + 1);
        assert(next.drop_last() =~= s.subrange(0, j));
        assert(all_digits(next.drop_last()));
        lemma_decimal_value_nonneg(next.drop_last());
        assert(decimal_value(next) == decimal_value(s.subrange(0, j)) * 10 + (s[j] as int
            - '0' as int));
        lemma_decimal_value_prefix(s, j + 1);
    }
}

/// Parses a string as a decimal Unix timestamp; an optional leading plus
/// sign is accepted, and values outside the unsigned 64-bit range are
/// rejected.
pub fn parse_timestamp(s: &str) -> (r: Option<u64>)
    ensures
        (r is Some) <==> is_valid_timestamp(s@),
        r matches Some(v) ==> v as int == decimal_value(timestamp_digits(s@)),
{
    let len = s.unicode_len();
    if len == 0 {
        return None;
    }
    let first = s.get_char(0);
    let start: usize = if first == '+' {
        1
    } else {
        0
    };
    proof {
        assert(timestamp_digits(s@) =~= s@.subrange(start as int, len as int));
    }
    if start == len {
        return None;
    }
    let ghost digits = s@.subrange(start as int, len as int);
    let mut value: u64 = 0;
    let mut i: usize = start;
    while i < len
        invariant
            start <= i <= len,
            len == s@.len(),
            start < len,
            digits == s@.subrange(start as int, len as int),
            digits == timestamp_digits(s@),
            all_digits(s@.subrange(start as int, i as int)),
            value as int == decimal_value(s@.subrange(start as int, i as int)),
        decreases len - i,
    {
        let c = s.get_char(i);
        let cv = c as u32;
        if cv < '0' as u32 || cv > '9' as u32 {
            proof {
                assert(digits[i - start] == s@[i as int]);
                assert(!all_digits(digits));
            }
            return None;
        }
        let d: u32 = cv - '0' as u32;
        let ghost pre = s@.subrange(start as int, i as int);
        let ghost cur = s@.subrange(start as int, i as int + 1);
        proof {
            assert(cur.drop_last() =~= pre);
            assert(cur.last() == s@[i as int]);
            assert(decimal_value(cur) == decimal_value(pre) * 10 + (s@[i as int] as int
                - '0' as int));
            assert(forall|k: int| 0 <= k < cur.len() ==> cur[k] == s@[start + k]);
        }
        if value > (u64::MAX - d as u64) / 10 {
            proof {
                lemma_fundamental_div_mod((u64::MAX - d) as int, 10);
                assert(value * 10 + d > u64::MAX);
                if is_valid_timestamp(s@) {
                    lemma_decimal_value_prefix(digits, i as int + 1 - start);
                    assert(digits.subrange(0, i as int + 1 - start) =~= cur);
                    assert(decimal_value(digits) > u64::MAX);
                    assert(false);
                }
            }
            return None;
        }
        value = value * 10 + d as u64;
        i += 1;
    }
    proof {
        assert(s@.subrange(start as int, i as int) =~= digits);
    }
    Some(value)
}

/// Authentication of a username and realm pair against a handler-chosen
/// credential store.
pub trait AuthHandler {
    /// Hands back the authentication key for the username and realm, or
    /// an error when authentication fails.
    fn auth_handle(&self, username: &str, realm: &str) -> Result<Vec<u8>, AuthError>;
}

/// Authenticates time-windowed usernames with passwords derived from a
/// shared secret.
pub struct LongTermAuthHandler {
    /// The shared secret passwords are derived from.
    pub shared_secret: String,
}

impl LongTermAuthHandler {
    /// Creates a handler around the given shared secret.
    pub fn new(shared_secret: String) -> (h: Self)
        ensures
            h.shared_secret@ == shared_secret@,
    {
        LongTermAuthHandler { shared_secret }
    }

    /// Authenticates a time-windowed username at the given time (seconds
    /// since the Unix epoch): a non-numeric username is rejected, a
    /// username before the given time is expired, and otherwise the
    /// 16-byte key for the username, the realm and the derived password is
    /// handed back.
    pub fn auth_handle_at(&self, username: &str, realm: &str, now_unix_secs: u64) -> (r: Result<
        Vec<u8>,
        AuthError,
    >)
        ensures
            (r == Err::<Vec<u8>, AuthError>(AuthError::InvalidTimestamp))
                <==> !is_valid_timestamp(username@),
            (r == Err::<Vec<u8>, AuthError>(AuthError::Expired)) <==> (is_valid_timestamp(
                username@,
            ) && decimal_value(timestamp_digits(username@)) < now_unix_secs),
            (r is Ok) <==> (is_valid_timestamp(username@) && decimal_value(
                timestamp_digits(username@),
            ) >= now_unix_secs),
            r matches Ok(key) ==> key@ == auth_key_of(
                username@,
                realm@,
                base64_of(hmac_sha1_of(self.shared_secret@, username@)),
            ) && key@.len() == 16,
    {
        let ts = match parse_timestamp(username) {
            Some(t) => t,
            None => {
                return Err(AuthError::InvalidTimestamp);
            },
        };
        if ts < now_unix_secs {
            return Err(AuthError::Expired);
        }
        let password = long_term_credentials(username, self.shared_secret.as_str());
        Ok(generate_auth_key(username, realm, password.as_str()))
    }
}

impl AuthHandler for LongTermAuthHandler {
    /// Authenticates against the clock's current time.  Whether a valid
    /// timestamp is expired depends on the clock; everything else does
    /// not: a non-timestamp username is rejected as such, and any key
    /// handed back is the one derived from the username, the realm and
    /// the shared secret.
    fn auth_handle(&self, username: &str, realm: &str) -> (r: Result<Vec<u8>, AuthError>)
        ensures
            (r == Err::<Vec<u8>, AuthError>(AuthError::InvalidTimestamp))
                <==> !is_valid_timestamp(username@),
            r matches Ok(key) ==> key@ == auth_key_of(
                username@,
                realm@,
                base64_of(hmac_sha1_of(self.shared_secret@, username@)),
            ) && key@.len() == 16,
    {
        let now = now_unix_secs();
        self.auth_handle_at(username, realm, now)
    }
}

} // verus!
