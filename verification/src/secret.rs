//! Secrets: random tokens, digests and password hashes.
use rand::RngCore;
use sha2::Digest;
use vstd::prelude::*;
use vstd::string::*;
use vstd::utf8::*;

verus! {

// ---------- model ----------

/// The lower-case hexadecimal digit of a value below sixteen.
pub open spec fn hex_digit(v: int) -> char
    recommends
        0 <= v < 16,
{
    if v < 10 {
        (48 + v) as char
    } else {
        (87 + v) as char
    }
}

/// Two lower-case hexadecimal digits for each byte, the high one first.
pub open spec fn hex_text(bytes: Seq<u8>) -> Seq<char> {
    Seq::new(
        2 * bytes.len(),
        |i: int|
            if i % 2 == 0 {
                hex_digit(bytes[i / 2] as int / 16)
            } else {
                hex_digit(bytes[i / 2] as int % 16)
            },
    )
}

pub open spec fn is_hex_char(c: char) -> bool {
    '0' <= c <= '9' || 'a' <= c <= 'f'
}

/// Only lower-case hexadecimal digits.
pub open spec fn is_hex(s: Seq<char>) -> bool {
    forall|i: int| 0 <= i < s.len() ==> is_hex_char(#[trigger] s[i])
}

/// The SHA-512 hash of a byte string, as `sha2` computes it.
pub uninterp spec fn sha512_of(data: Seq<u8>) -> Seq<u8>;

/// The hexadecimal SHA-512 hash of the UTF-8 form of a text.
pub open spec fn digest_text(src: Seq<char>) -> Seq<char> {
    hex_text(sha512_of(encode_utf8(src)))
}

/// What is hashed for a password: the password, a colon and the salt.
pub open spec fn salted(password: Seq<char>, salt: Seq<char>) -> Seq<char> {
    password.push(':') + salt
}

/// The stored hash of an account's password. The salt is the digest of the account's name.
pub open spec fn passhash_text(account_name: Seq<char>, password: Seq<char>) -> Seq<char> {
    digest_text(salted(password, digest_text(account_name)))
}

/// The operating system gave no random bytes.
#[derive(Debug, Clone, Copy, PartialEq, Eq)]
pub struct EntropyError;

// ---------- outside calls ----------

/// The error of `rand`'s random sources.
#[verifier::external_type_specification]
#[verifier::external_body]
pub struct ExRandError(rand::Error);

/// Calls `rand::rngs::OsRng.try_fill_bytes` on a buffer of `n` bytes. Claimed: on success the
/// buffer still has `n` bytes, and an empty buffer is filled without asking the operating system.
/// Which bytes they are, and whether the call succeeds on another buffer, is up to the operating
/// system.
#[verifier::external_body]
fn os_random_bytes(n: usize) -> (r: Result<Vec<u8>, rand::Error>)
    requires
        n <= isize::MAX,
    ensures
        r matches Ok(bytes) ==> bytes@.len() == n,
        n == 0 ==> r is Ok,
{
    let mut buf = vec![0u8; n];
    rand::rngs::OsRng.try_fill_bytes(&mut buf)?;
    Ok(buf)
}

/// Calls `hex::encode`. Claimed: the result is the lower-case hexadecimal form of the bytes.
#[verifier::external_body]
fn hex_encode(bytes: &[u8]) -> (r: String)
    requires
        2 * bytes@.len() <= isize::MAX,
    ensures
        r@ == hex_text(bytes@),
{
    hex::encode(bytes)
}

/// Hashes with `sha2::Sha512` (`new`, `update` and `finalize`). Claimed: the result is the named
/// hash of the bytes, and it is 64 bytes long.
#[verifier::external_body]
fn sha512(data: &[u8]) -> (r: Vec<u8>)
    ensures
        r@ == sha512_of(data@),
        r@.len() == 64,
{
    let mut h = sha2::Sha512::new();
    h.update(data);
    h.finalize().to_vec()
}

// ---------- functions ----------

/// The lower-case hexadecimal form of `bytes`.
pub fn hex_of(bytes: &[u8]) -> (r: String)
    requires
        2 * bytes@.len() <= isize::MAX,
    ensures
        r@ == hex_text(bytes@),
{
    hex_encode(bytes)
}

/// The hexadecimal form of the bytes that were drawn, if any were.
pub fn hex_drawn(drawn: Result<Vec<u8>, rand::Error>) -> (r: Result<String, EntropyError>)
    requires
        drawn matches Ok(bytes) ==> 2 * bytes@.len() <= isize::MAX,
    ensures
        match drawn {
            Ok(bytes) => r matches Ok(s) && s@ == hex_text(bytes@),
            Err(_) => r is Err,
        },
{
    match drawn {
        Ok(bytes) => Ok(hex_of(bytes.as_slice())),
        Err(_) => Err(EntropyError),
    }
}

/// The hexadecimal form of `n` random bytes.
///
/// Fails only where there are bytes to draw and the operating system has none to give.
pub fn rand_hex(n: usize) -> (r: Result<String, EntropyError>)
    requires
        2 * n <= isize::MAX,
    ensures
        r matches Ok(s) ==> s@.len() == 2 * n && is_hex(s@),
        n == 0 ==> r is Ok,
{
    hex_drawn(os_random_bytes(n))
}

/// The hexadecimal SHA-512 hash of `src`.
pub fn digest(src: &str) -> (r: String)
    ensures
        r@ == digest_text(src@),
        r@.len() == 128,
{
    let hash = sha512(src.as_bytes());
    hex_of(hash.as_slice())
}

/// The salt of an account's password hash.
pub fn calculate_salt(account_name: &str) -> (r: String)
    ensures
        r@ == digest_text(account_name@),
        r@.len() == 128,
{
    digest(account_name)
}

/// The text whose digest is the password hash.
pub fn salted_password(password: &str, salt: &str) -> (r: String)
    ensures
        r@ == salted(password@, salt@),
{
    let mut r = password.to_owned();
    r.append(":");
    r.append(salt);
    proof {
        reveal_strlit(":");
    }
    assert(r@ =~= salted(password@, salt@));
    r
}

/// The hash that is stored for an account's password.
pub fn calculate_passhash(account_name: &str, password: &str) -> (r: String)
    ensures
        r@ == passhash_text(account_name@, password@),
        r@.len() == 128,
{
    let salt = calculate_salt(account_name);
    let text = salted_password(password, salt.as_str());
    digest(text.as_str())
}

// ---------- laws ----------

/// A hexadecimal form has two characters for each byte, all of them lower-case digits.
pub proof fn law_hex_text(bytes: Seq<u8>)
    ensures
        hex_text(bytes).len() == 2 * bytes.len(),
        is_hex(hex_text(bytes)),
{
}

/// Different byte strings have different hexadecimal forms.
pub proof fn law_hex_text_injective(a: Seq<u8>, b: Seq<u8>)
    requires
        hex_text(a) == hex_text(b),
    ensures
        a == b,
{
    assert(hex_text(a).len() == 2 * a.len());
    assert(hex_text(b).len() == 2 * b.len());
    assert forall|i: int| 0 <= i < a.len() implies a[i] == b[i] by {
        let x = hex_text(a);
        let y = hex_text(b);
        assert(x[2 * i] == y[2 * i]);
        assert(x[2 * i + 1] == y[2 * i + 1]);
        assert((2 * i) / 2 == i && (2 * i + 1) / 2 == i);
        assert(hex_digit(a[i] as int / 16) == hex_digit(b[i] as int / 16));
        assert(hex_digit(a[i] as int % 16) == hex_digit(b[i] as int % 16));
    }
    assert(a =~= b);
}

/// The hexadecimal form of bytes is that of some and then that of the rest, and each byte has its
/// two digits, the high one first.
pub proof fn law_hex_text_by_bytes(a: Seq<u8>, b: Seq<u8>, byte: u8)
    ensures
        hex_text(Seq::empty()) == Seq::<char>::empty(),
        hex_text(a + b) == hex_text(a) + hex_text(b),
        hex_text(seq![byte]).len() == 2,
        hex_text(seq![byte])[0] as int == if byte / 16 < 10 {
            48 + byte / 16
        } else {
            87 + byte / 16
        },
        hex_text(seq![byte])[1] as int == if byte % 16 < 10 {
            48 + byte % 16
        } else {
            87 + byte % 16
        },
{
    assert(hex_text(Seq::empty()) =~= Seq::<char>::empty());
    assert forall|i: int| 0 <= i < hex_text(a + b).len() implies hex_text(a + b)[i] == (hex_text(a)
        + hex_text(b))[i] by {
        if i < 2 * a.len() {
            assert((a + b)[i / 2] == a[i / 2]);
        } else {
            let j = i - 2 * a.len();
            assert(j / 2 == i / 2 - a.len() && j % 2 == i % 2);
            assert((a + b)[i / 2] == b[j / 2]);
        }
    }
    assert(hex_text(a + b) =~= hex_text(a) + hex_text(b));
}

/// The text that is hashed for a password holds the whole password, a colon and the whole salt.
pub proof fn law_salted(password: Seq<char>, salt: Seq<char>)
    ensures
        salted(password, salt).len() == password.len() + 1 + salt.len(),
        salted(password, salt).take(password.len() as int) == password,
        salted(password, salt)[password.len() as int] == ':',
        salted(password, salt).skip(password.len() + 1int) == salt,
{
    assert(salted(password, salt).take(password.len() as int) =~= password);
    assert(salted(password, salt).skip(password.len() + 1int) =~= salt);
}

/// For one salt, different passwords are hashed as different texts.
pub proof fn law_passwords_stay_different(a: Seq<char>, b: Seq<char>, salt: Seq<char>)
    requires
        a != b,
    ensures
        salted(a, salt) != salted(b, salt),
{
    law_salted(a, salt);
    law_salted(b, salt);
}

/// The stored hash is the hexadecimal SHA-512 hash of the text that begins with the whole password,
/// goes on with a colon and ends with the hexadecimal SHA-512 hash of the whole account name.
pub proof fn law_passhash(account_name: Seq<char>, password: Seq<char>, hashed: Seq<char>)
    requires
        ({
            let salt = hex_text(sha512_of(encode_utf8(account_name)));
            &&& hashed.len() == password.len() + 1 + salt.len()
            &&& hashed.take(password.len() as int) == password
            &&& hashed[password.len() as int] == ':'
            &&& hashed.skip(password.len() + 1int) == salt
        }),
    ensures
        passhash_text(account_name, password) == hex_text(sha512_of(encode_utf8(hashed))),
{
    let salt = hex_text(sha512_of(encode_utf8(account_name)));
    assert(hashed =~= hashed.take(password.len() as int).push(hashed[password.len() as int])
        + hashed.skip(password.len() + 1int));
    assert(hashed =~= salted(password, salt));
}

/// The digest of a text is the hexadecimal SHA-512 hash of all its bytes.
pub proof fn law_digest(src: Seq<char>)
    ensures
        digest_text(src) == hex_text(sha512_of(encode_utf8(src))),
{
}

/// Hexadecimal texts are those of the ten digits and the six small letters.
pub proof fn law_is_hex(s: Seq<char>)
    ensures
        is_hex(s) <==> forall|i: int|
            0 <= i < s.len() ==> 48 <= #[trigger] s[i] as int <= 57 || 97 <= s[i] as int <= 102,
{
    if is_hex(s) {
        assert forall|i: int| 0 <= i < s.len() implies 48 <= #[trigger] s[i] as int <= 57 || 97
            <= s[i] as int <= 102 by {
            assert(is_hex_char(s[i]));
        }
    }
}

} // verus!
