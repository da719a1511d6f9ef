//! Randomness utilities: secure random bytes, base58-encoded random strings,
//! fixed-width random values backed by the operating system's CSPRNG, and
//! fast non-cryptographic random integers.

use vstd::prelude::*;
use vstd::string::StrSliceExecFns;
use vstd::string::StringExecFns;
use vstd::utf8::is_ascii_chars;

pub mod rsa;
pub mod ssh;

verus! {

/// Error returned when the operating-system randomness source cannot fill a
/// buffer with random bytes.
#[derive(Clone, Copy, Debug, PartialEq, Eq, Structural)]
pub struct RandomSourceError;

#[verifier::external_type_specification]
#[verifier::external_body]
pub struct ExSystemRandom(ring::rand::SystemRandom);

/// Relies on `ring::rand::SystemRandom::new`: it constructs a zero-sized
/// handle to the operating system's CSPRNG; all randomness state lives in the
/// OS, so every handle is interchangeable and construction always succeeds.
#[verifier::external_body]
fn secure_random() -> ring::rand::SystemRandom {
    ring::rand::SystemRandom::new()
}

/// Relies on `ring::rand::SecureRandom::fill` for `SystemRandom`: on success
/// the buffer is filled from the OS CSPRNG; the buffer's length is never
/// changed, and the only failure is the entropy source being unavailable. An
/// empty buffer always succeeds: the OS is not even consulted for it.
#[verifier::external_body]
fn fill_secure(rng: &ring::rand::SystemRandom, d: &mut Vec<u8>) -> (r: Result<(), RandomSourceError>)
    ensures
        final(d)@.len() == old(d)@.len(),
        old(d)@.len() == 0 ==> r is Ok,
{
    match ring::rand::SecureRandom::fill(rng, d.as_mut_slice()) {
        Ok(()) => Ok(()),
        Err(_) => Err(RandomSourceError),
    }
}

/// Returns `n` cryptographically random bytes, or `RandomSourceError` when
/// the OS randomness source cannot fill the buffer. `n == 0` always succeeds
/// with the empty buffer.
pub fn secure_bytes(n: usize) -> (r: Result<Vec<u8>, RandomSourceError>)
    ensures
        r matches Ok(d) ==> d@.len() == n as nat,
        n == 0 ==> r is Ok,
{
    let mut d: Vec<u8> = Vec::new();
    let mut i: usize = 0;
    while i < n
        invariant
            i <= n,
            d@.len() == i as nat,
        decreases n - i,
    {
        d.push(0u8);
        i = i + 1;
    }
    let rng = secure_random();
    match fill_secure(&rng, &mut d) {
        Ok(()) => Ok(d),
        Err(e) => Err(e),
    }
}

/// Returns one cryptographically random byte, or `RandomSourceError` when the
/// OS randomness source is unavailable.
pub fn secure_u8() -> (r: Result<u8, RandomSourceError>)
{
    match secure_bytes(1) {
        Ok(d) => Ok(d[0]),
        Err(e) => Err(e),
    }
}

/// The base58 digits that `bs58::encode` produces for the given bytes, in the
/// default (Bitcoin) alphabet.
pub uninterp spec fn base58_of(s: Seq<u8>) -> Seq<char>;

/// True of the characters of the Bitcoin base58 alphabet: the digits `1`-`9`
/// and the ASCII letters other than `I`, `O` and `l`.
pub open spec fn is_base58_char(c: char) -> bool {
    ||| '1' <= c <= '9'
    ||| ('A' <= c <= 'Z' && c != 'I' && c != 'O')
    ||| ('a' <= c <= 'z' && c != 'l')
}

pub open spec fn is_base58_seq(s: Seq<char>) -> bool {
    forall|i: int| 0 <= i < s.len() ==> is_base58_char(#[trigger] s[i])
}

proof fn lemma_base58_seq_is_ascii(s: Seq<char>)
    requires
        is_base58_seq(s),
    ensures
        is_ascii_chars(s),
{
    assert forall|i: int| 0 <= i < s.len() implies '\0' <= #[trigger] s[i] <= '\u{7f}' by {
        assert(is_base58_char(s[i]));
    }
}

/// Relies on `bs58::encode(..).into_string()` with its default (Bitcoin)
/// alphabet: the digits are a function of the input bytes alone, and every
/// digit is drawn from that 58-character ASCII alphabet. The encoding never
/// shrinks its input: each leading zero byte becomes one `1` digit, and the
/// remaining bytes form a number that takes at least one digit per byte,
/// since a byte holds more values than a digit does.
#[verifier::external_body]
fn base58_encode(d: &Vec<u8>) -> (r: String)
    ensures
        r@ == base58_of(d@),
        is_base58_seq(r@),
        r@.len() >= d@.len(),
{
    bs58::encode(d.as_slice()).into_string()
}

/// Returns a random string of length `n` over the base58 alphabet, or
/// `RandomSourceError` when the OS randomness source is unavailable.
///
/// `n` random bytes are drawn and base58-encoded; the encoding has at least
/// `n` digits (base58 expands its input), and is truncated to exactly `n`.
/// `n == 0` always succeeds with the empty string.
pub fn secure_string(n: usize) -> (r: Result<String, RandomSourceError>)
    ensures
        r matches Ok(s) ==> {
            &&& s@.len() == n as nat
            &&& is_base58_seq(s@)
            &&& exists|b: Seq<u8>| s@ == base58_of(b).take(n as int)
        },
        n == 0 ==> r is Ok,
{
    let d = match secure_bytes(n) {
        Ok(d) => d,
        Err(e) => return Err(e),
    };
    let enc = base58_encode(&d);
    proof {
        lemma_base58_seq_is_ascii(enc@);
    }
    let t = enc.as_str().substring_ascii(0, n);
    let s = t.to_owned();
    proof {
        assert(s@ == base58_of(d@).take(n as int));
    }
    Ok(s)
}

/// The view of an optional path suffix: the suffix's characters, or empty.
pub open spec fn suffix_view(sfx: Option<&str>) -> Seq<char> {
    match sfx {
        Some(s) => s@,
        None => Seq::<char>::empty(),
    }
}

/// The path that joins `dir`, a separator, the file name `name` and `sfx`.
pub open spec fn joined_path(dir: Seq<char>, name: Seq<char>, sfx: Seq<char>) -> Seq<char> {
    dir + "/"@ + name + sfx
}

/// Law: a joined path is its directory, one separator, the name and the
/// suffix, in that order; so it always begins with the directory and ends
/// with the suffix.
pub proof fn lemma_joined_path_shape(dir: Seq<char>, name: Seq<char>, sfx: Seq<char>)
    ensures
        joined_path(dir, name, sfx).len() == dir.len() + 1 + name.len() + sfx.len(),
        joined_path(dir, name, sfx).take(dir.len() as int) == dir,
        joined_path(dir, name, sfx)[dir.len() as int] == '/',
        joined_path(dir, name, sfx).skip(dir.len() + 1 + name.len() as int) == sfx,
{
    reveal_strlit("/");
    assert("/"@.len() == 1);
    assert(joined_path(dir, name, sfx).take(dir.len() as int) =~= dir);
    assert(joined_path(dir, name, sfx).skip(dir.len() + 1 + name.len() as int) =~= sfx);
}

/// Returns a path under `tmp_dir` for a temporary file: the directory, a
/// random base58 name of length `n`, and the optional suffix. The file is
/// not created, and the path fails to come only when the OS randomness
/// source does; `n == 0` always succeeds.
pub fn tmp_path(tmp_dir: &str, n: usize, sfx: Option<&str>) -> (r: Result<String, RandomSourceError>)
    ensures
        r matches Ok(p) ==> exists|name: Seq<char>|
            {
                &&& name.len() == n as nat
                &&& is_base58_seq(name)
                &&& p@ == joined_path(tmp_dir@, name, suffix_view(sfx))
            },
        n == 0 ==> r is Ok,
{
    let name = match secure_string(n) {
        Ok(s) => s,
        Err(e) => return Err(e),
    };
    let mut p = tmp_dir.to_owned();
    p.append("/");
    p.append(name.as_str());
    match sfx {
        Some(s) => p.append(s),
        None => (),
    }
    proof {
        assert(p@ =~= joined_path(tmp_dir@, name@, suffix_view(sfx)));
    }
    Ok(p)
}

/// Relies on `rand::random`, rand's fast thread-local non-cryptographic
/// generator: nothing is promised of the value drawn. The call aborts the
/// thread (rand panics) if the generator's first per-thread seeding from the
/// OS fails; that condition is environmental, so no `requires` can exclude
/// it.
pub assume_specification<T>[ rand::random::<T> ]() -> (r: T)
    where
        rand::distributions::Standard: rand::distributions::Distribution<T>,
;

/// Returns a uniformly random `usize` from the fast, non-cryptographic
/// thread-local generator; never returns an error, though rand panics if the
/// generator's first per-thread seeding fails. Not for key material.
pub fn usize() -> usize {
    rand::random::<usize>()
}

/// Returns a uniformly random `u8` from the fast, non-cryptographic
/// thread-local generator; never returns an error, though rand panics if the
/// generator's first per-thread seeding fails. Not for key material.
pub fn u8() -> u8 {
    rand::random::<u8>()
}

/// Returns a uniformly random `u16` from the fast, non-cryptographic
/// thread-local generator; never returns an error, though rand panics if the
/// generator's first per-thread seeding fails. Not for key material.
pub fn u16() -> u16 {
    rand::random::<u16>()
}

/// Returns a uniformly random `u32` from the fast, non-cryptographic
/// thread-local generator; never returns an error, though rand panics if the
/// generator's first per-thread seeding fails. Not for key material.
pub fn u32() -> u32 {
    rand::random::<u32>()
}

/// Returns a uniformly random `u64` from the fast, non-cryptographic
/// thread-local generator; never returns an error, though rand panics if the
/// generator's first per-thread seeding fails. Not for key material.
pub fn u64() -> u64 {
    rand::random::<u64>()
}

#[verifier::external_type_specification]
#[verifier::external_body]
pub struct ExH160(primitive_types::H160);

#[verifier::external_type_specification]
#[verifier::external_body]
pub struct ExH256(primitive_types::H256);

#[verifier::external_type_specification]
#[verifier::external_body]
pub struct ExU256(primitive_types::U256);

/// The 20 bytes that a 160-bit value holds.
pub uninterp spec fn h160_bytes(h: primitive_types::H160) -> Seq<u8>;

/// The 32 bytes that a 256-bit hash-sized value holds.
pub uninterp spec fn h256_bytes(h: primitive_types::H256) -> Seq<u8>;

/// The 32 big-endian bytes of a 256-bit unsigned integer.
pub uninterp spec fn u256_be_bytes(u: primitive_types::U256) -> Seq<u8>;

/// Relies on `primitive_types::H160::from_slice`: it copies the 20 given
/// bytes into the value, and panics on any other length.
#[verifier::external_body]
fn h160_from_slice(d: &Vec<u8>) -> (r: primitive_types::H160)
    requires
        d@.len() == 20,
    ensures
        h160_bytes(r) == d@,
{
    primitive_types::H160::from_slice(d.as_slice())
}

/// Relies on `primitive_types::H256::from_slice`: it copies the 32 given
/// bytes into the value, and panics on any other length.
#[verifier::external_body]
fn h256_from_slice(d: &Vec<u8>) -> (r: primitive_types::H256)
    requires
        d@.len() == 32,
    ensures
        h256_bytes(r) == d@,
{
    primitive_types::H256::from_slice(d.as_slice())
}

/// Relies on `primitive_types::U256::from_big_endian`: with a 32-byte slice
/// it reads the bytes as one big-endian 256-bit integer, so the value's
/// big-endian bytes are exactly the input; a longer slice panics.
#[verifier::external_body]
fn u256_from_big_endian(d: &Vec<u8>) -> (r: primitive_types::U256)
    requires
        d@.len() == 32,
    ensures
        u256_be_bytes(r) == d@,
{
    primitive_types::U256::from_big_endian(d.as_slice())
}

/// Returns a 160-bit value holding 20 secure random bytes, or
/// `RandomSourceError` when the OS randomness source is unavailable.
pub fn secure_h160() -> (r: Result<primitive_types::H160, RandomSourceError>)
    ensures
        r matches Ok(h) ==> h160_bytes(h).len() == 20,
{
    let d = match secure_bytes(20) {
        Ok(d) => d,
        Err(e) => return Err(e),
    };
    Ok(h160_from_slice(&d))
}

/// Returns a 256-bit hash-sized value holding 32 secure random bytes, or
/// `RandomSourceError` when the OS randomness source is unavailable.
pub fn secure_h256() -> (r: Result<primitive_types::H256, RandomSourceError>)
    ensures
        r matches Ok(h) ==> h256_bytes(h).len() == 32,
{
    let d = match secure_bytes(32) {
        Ok(d) => d,
        Err(e) => return Err(e),
    };
    Ok(h256_from_slice(&d))
}

/// Returns a 256-bit unsigned integer read big-endian from 32 secure random
/// bytes, or `RandomSourceError` when the OS randomness source is
/// unavailable.
pub fn secure_u256() -> (r: Result<primitive_types::U256, RandomSourceError>)
    ensures
        r matches Ok(u) ==> u256_be_bytes(u).len() == 32,
{
    let d = match secure_bytes(32) {
        Ok(d) => d,
        Err(e) => return Err(e),
    };
    Ok(u256_from_big_endian(&d))
}

/// Builds a 160-bit value from exactly 20 bytes; any other length is `None`.
pub fn h160_from_bytes(d: &Vec<u8>) -> (r: Option<primitive_types::H160>)
    ensures
        d@.len() == 20 ==> (r matches Some(h) && h160_bytes(h) == d@),
        d@.len() != 20 ==> r is None,
{
    if d.len() == 20 {
        Some(h160_from_slice(d))
    } else {
        None
    }
}

/// Builds a 256-bit hash-sized value from exactly 32 bytes; any other length
/// is `None`.
pub fn h256_from_bytes(d: &Vec<u8>) -> (r: Option<primitive_types::H256>)
    ensures
        d@.len() == 32 ==> (r matches Some(h) && h256_bytes(h) == d@),
        d@.len() != 32 ==> r is None,
{
    if d.len() == 32 {
        Some(h256_from_slice(d))
    } else {
        None
    }
}

/// Reads exactly 32 bytes as one big-endian 256-bit unsigned integer; any
/// other length is `None`.
pub fn u256_from_be_bytes(d: &Vec<u8>) -> (r: Option<primitive_types::U256>)
    ensures
        d@.len() == 32 ==> (r matches Some(u) && u256_be_bytes(u) == d@),
        d@.len() != 32 ==> r is None,
{
    if d.len() == 32 {
        Some(u256_from_big_endian(d))
    } else {
        None
    }
}

} // verus!
