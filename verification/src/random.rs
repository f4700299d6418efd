//! Random values for tests: strings, bytes and numbers. The randomness comes
//! from the `rand` crate; what is built from it is verified.

use rand::distributions::{Alphanumeric, DistString};
use rand::rngs::{StdRng, ThreadRng};
use rand::seq::IteratorRandom;
use rand::{Rng, RngCore, SeedableRng};
use vstd::prelude::*;
use vstd::string::*;

verus! {

/// The number of digits of a random hex string, the prefix not counted.
pub const HEX_DIGITS: usize = 40;

/// The length of a random account address.
pub const ADDRESS_LEN: usize = 42;

/// One past the greatest random time.
pub const TIME_END: i64 = 1_000_000_000;

/// `rand`'s standard generator, carried through as an opaque value.
#[verifier::external_type_specification]
#[verifier::external_body]
pub struct ExStdRng(rand::rngs::StdRng);

/// `rand`'s thread-local generator, carried through as an opaque value.
#[verifier::external_type_specification]
#[verifier::external_body]
pub struct ExThreadRng(rand::rngs::ThreadRng);

/// `String::push`: the character is appended at the end.
pub assume_specification[ String::push ](s: &mut String, c: char)
    ensures
        final(s)@ == old(s)@.push(c),
;

/// `SeedableRng::from_entropy` for `StdRng`: a generator seeded by the
/// operating system. Nothing is claimed of it. It panics where the system
/// cannot give entropy.
#[verifier::external_body]
fn entropy_rng() -> (rng: StdRng) {
    StdRng::from_entropy()
}

/// `IteratorRandom::choose` on the characters of `alphabet`: one of them, and
/// `None` if and only if there is none. Which one is not claimed.
#[verifier::external_body]
fn choose_char(rng: &mut StdRng, alphabet: &str) -> (c: Option<char>)
    ensures
        match c {
            Some(chosen) => alphabet@.contains(chosen),
            None => alphabet@.len() == 0,
        },
{
    alphabet.chars().choose(rng)
}

/// `DistString::sample_string` of `Alphanumeric`: a string of `len`
/// characters, each drawn from `A-Z`, `a-z` and `0-9`.
#[verifier::external_body]
fn sample_alphanumeric(rng: &mut StdRng, len: usize) -> (s: String)
    ensures
        is_alphanumeric_string(s@, len as nat),
{
    Alphanumeric.sample_string(rng, len)
}

/// `RngCore::fill_bytes`: overwrites the bytes of the buffer and keeps its
/// length. Nothing is claimed of the bytes.
#[verifier::external_body]
fn fill_bytes(rng: &mut StdRng, buffer: &mut Vec<u8>)
    ensures
        final(buffer)@.len() == old(buffer)@.len(),
{
    rng.fill_bytes(buffer.as_mut_slice())
}

/// `Rng::gen` at `u64`: any value can come back.
#[verifier::external_body]
fn next_u64(rng: &mut StdRng) -> (n: u64) {
    rng.gen()
}

/// `rand::thread_rng`: a handle to the generator of the current thread.
/// Nothing is claimed of it.
#[verifier::external_body]
fn thread_rng() -> (rng: ThreadRng) {
    rand::thread_rng()
}

/// `Rng::gen_range` over `low..high`: a value of the half-open range. The
/// call panics on an empty range, which is left out.
#[verifier::external_body]
fn range_i64(rng: &mut ThreadRng, low: i64, high: i64) -> (n: i64)
    requires
        low < high,
    ensures
        low <= n < high,
{
    rng.gen_range(low..high)
}

pub open spec fn is_hex_digit(c: char) -> bool {
    ('0' <= c && c <= '9') || ('a' <= c && c <= 'f')
}

pub open spec fn is_alphanumeric(c: char) -> bool {
    ('0' <= c && c <= '9') || ('a' <= c && c <= 'z') || ('A' <= c && c <= 'Z')
}

/// `len` characters, each a letter or a digit of ASCII.
pub open spec fn is_alphanumeric_string(s: Seq<char>, len: nat) -> bool {
    &&& s.len() == len
    &&& forall|i: int| 0 <= i < s.len() ==> is_alphanumeric(#[trigger] s[i])
}

/// The text of a hex string with these digits: `0x`, then the digits.
pub open spec fn hexstring_text(digits: Seq<char>) -> Seq<char> {
    seq!['0', 'x'] + digits
}

/// `0x` and forty lower-case hex digits.
pub open spec fn is_hexstring(s: Seq<char>) -> bool {
    exists|digits: Seq<char>|
        {
            &&& #[trigger] hexstring_text(digits) == s
            &&& digits.len() == HEX_DIGITS
            &&& forall|i: int| 0 <= i < digits.len() ==> is_hex_digit(#[trigger] digits[i])
        }
}

/// Writes the digits out behind the prefix `0x`.
pub fn hexstring_of(digits: &Vec<char>) -> (s: String)
    ensures
        s@ == hexstring_text(digits@),
{
    let mut s = String::from_str("0x");
    proof {
        reveal_strlit("0x");
        assert(s@ =~= seq!['0', 'x']);
    }
    let mut i: usize = 0;
    while i < digits.len()
        invariant
            i <= digits@.len(),
            s@ == seq!['0', 'x'] + digits@.take(i as int),
        decreases digits@.len() - i,
    {
        s.push(digits[i]);
        i = i + 1;
        assert(digits@.take(i as int) =~= digits@.take(i - 1).push(digits@[i - 1]));
        assert(s@ =~= seq!['0', 'x'] + digits@.take(i as int));
    }
    assert(digits@.take(i as int) =~= digits@);
    s
}

/// A random hex string: `0x` and forty digits, each chosen at random among
/// `0123456789abcdef`.
pub fn rand_hexstring() -> (s: String)
    ensures
        is_hexstring(s@),
{
    let mut rng = entropy_rng();
    let mut digits: Vec<char> = Vec::new();
    let mut i: usize = 0;
    while i < HEX_DIGITS
        invariant
            i <= HEX_DIGITS,
            digits@.len() == i,
            forall|j: int| 0 <= j < digits@.len() ==> is_hex_digit(#[trigger] digits@[j]),
        decreases HEX_DIGITS - i,
    {
        proof {
            reveal_strlit("0123456789abcdef");
        }
        let chosen = choose_char(&mut rng, "0123456789abcdef");
        digits.push(chosen.unwrap());
        i = i + 1;
    }
    let s = hexstring_of(&digits);
    assert(hexstring_text(digits@) == s@);
    s
}

/// A random string in the shape of an account address: forty-two letters and
/// digits.
pub fn rand_account_address() -> (s: String)
    ensures
        is_alphanumeric_string(s@, ADDRESS_LEN as nat),
{
    let mut rng = entropy_rng();
    sample_alphanumeric(&mut rng, ADDRESS_LEN)
}

/// A random string of `N` letters and digits.
pub fn rand_string<const N: usize>() -> (s: String)
    ensures
        is_alphanumeric_string(s@, N as nat),
{
    let mut rng = entropy_rng();
    sample_alphanumeric(&mut rng, N)
}

/// `N` random bytes.
pub fn rand_vec<const N: usize>() -> (v: Vec<u8>)
    ensures
        v@.len() == N,
{
    let mut buffer: Vec<u8> = Vec::new();
    let mut i: usize = 0;
    while i < N
        invariant
            i <= N,
            buffer@.len() == i,
        decreases N - i,
    {
        buffer.push(0u8);
        i = i + 1;
    }
    let mut rng = entropy_rng();
    fill_bytes(&mut rng, &mut buffer);
    buffer
}

/// A random `u64`: every value is possible.
pub fn rand_u64() -> u64 {
    let mut rng = entropy_rng();
    next_u64(&mut rng)
}

/// A random time: at least zero and under a thousand million.
pub fn rand_time() -> (t: i64)
    ensures
        0 <= t < TIME_END,
{
    let mut rng = thread_rng();
    range_i64(&mut rng, 0, TIME_END)
}

} // verus!
