//! Names for output files: a digest of the encoded bytes in hex, a random
//! string, or the source file's own name.

use vstd::prelude::*;

use blake2::digest::typenum::U16;
use blake2::{Blake2b, Digest};
use rand::distr::Alphanumeric;
use rand::Rng;
use sha2::Sha256;

use crate::utils::push_char;

verus! {

/// How output files are named.
#[derive(Debug, Copy, Clone, PartialEq, Eq, Structural)]
pub enum Name {
    MD5,
    SHA256,
    Blake2,
    Random,
    Same,
}

impl Default for Name {
    fn default() -> (n: Self)
        ensures
            n == Name::MD5,
    {
        Name::MD5
    }
}

/// The MD5 digest of `data` (16 bytes).
pub uninterp spec fn md5_of(data: Seq<u8>) -> Seq<u8>;

/// The SHA-256 digest of `data` (32 bytes).
pub uninterp spec fn sha256_of(data: Seq<u8>) -> Seq<u8>;

/// The BLAKE2b digest of `data` with a 16-byte output.
pub uninterp spec fn blake2b_128_of(data: Seq<u8>) -> Seq<u8>;

/// Relies on md5's `compute`: the 16-byte digest of `data`.
#[verifier::external_body]
fn md5_digest(data: &[u8]) -> (r: Vec<u8>)
    ensures
        r@ == md5_of(data@),
        r@.len() == 16,
{
    md5::compute(data).0.to_vec()
}

/// Relies on sha2's `Sha256::digest`: the 32-byte digest of `data`.
#[verifier::external_body]
fn sha256_digest(data: &[u8]) -> (r: Vec<u8>)
    ensures
        r@ == sha256_of(data@),
        r@.len() == 32,
{
    Sha256::digest(data).to_vec()
}

/// Relies on blake2's `Blake2b::<U16>::digest`: the 16-byte digest of `data`.
#[verifier::external_body]
fn blake2b_128_digest(data: &[u8]) -> (r: Vec<u8>)
    ensures
        r@ == blake2b_128_of(data@),
        r@.len() == 16,
{
    Blake2b::<U16>::digest(data).to_vec()
}

/// Lower-case hex digit for `d < 16`.
pub open spec fn hex_digit(d: int) -> char {
    if d < 10 {
        crate::utils::digit_char(d)
    } else if d == 10 {
        'a'
    } else if d == 11 {
        'b'
    } else if d == 12 {
        'c'
    } else if d == 13 {
        'd'
    } else if d == 14 {
        'e'
    } else {
        'f'
    }
}

/// Two lower-case hex digits per byte, high nibble first.
pub open spec fn hex_of(b: Seq<u8>) -> Seq<char>
    decreases b.len(),
{
    if b.len() == 0 {
        Seq::empty()
    } else {
        seq![hex_digit(b[0] as int / 16), hex_digit(b[0] as int % 16)] + hex_of(b.drop_first())
    }
}

/// Relies on hex's `encode`: two lower-case digits per byte, in order.
#[verifier::external_body]
fn hex_encode(b: &[u8]) -> (r: String)
    ensures
        r@ == hex_of(b@),
{
    hex::encode(b)
}

/// An ASCII letter or digit.
pub open spec fn ascii_alnum(c: u8) -> bool {
    (48 <= c <= 57) || (65 <= c <= 90) || (97 <= c <= 122)
}

/// A lower-case ASCII letter or a digit.
pub open spec fn lower_alnum(c: char) -> bool {
    ('0' <= c <= '9') || ('a' <= c <= 'z')
}

/// Relies on rand's thread-local generator and `Alphanumeric`, whose
/// samples are ASCII letters and digits.
#[verifier::external_body]
fn random_alphanumeric(n: usize) -> (r: Vec<u8>)
    ensures
        r@.len() == n,
        forall|i: int| 0 <= i < n ==> ascii_alnum(#[trigger] r@[i]),
{
    rand::rng().sample_iter(&Alphanumeric).take(n).collect()
}

/// Length of a random name.
pub const RANDOM_NAME_LEN: usize = 32;

impl Name {
    /// The name of an output file for `encoded_data`, whose source file
    /// was named `source_name` (without extension).
    pub fn generate_name(self, encoded_data: &Vec<u8>, source_name: &String) -> (r: String)
        ensures
            self == Name::MD5 ==> r@ == hex_of(md5_of(encoded_data@)),
            self == Name::SHA256 ==> r@ == hex_of(sha256_of(encoded_data@)),
            self == Name::Blake2 ==> r@ == hex_of(blake2b_128_of(encoded_data@)),
            self == Name::Random ==> r@.len() == RANDOM_NAME_LEN && forall|i: int|
                0 <= i < r@.len() ==> lower_alnum(#[trigger] r@[i]),
            self == Name::Same ==> r@ == source_name@,
    {
        match self {
            Name::MD5 => hex_encode(md5_digest(encoded_data.as_slice()).as_slice()),
            Name::SHA256 => hex_encode(sha256_digest(encoded_data.as_slice()).as_slice()),
            Name::Blake2 => hex_encode(blake2b_128_digest(encoded_data.as_slice()).as_slice()),
            Name::Random => Self::random_string(),
            Name::Same => source_name.clone(),
        }
    }

    /// A random name of lower-case letters and digits.
    fn random_string() -> (r: String)
        ensures
            r@.len() == RANDOM_NAME_LEN,
            forall|i: int| 0 <= i < r@.len() ==> lower_alnum(#[trigger] r@[i]),
    {
        let raw = random_alphanumeric(RANDOM_NAME_LEN);
        let mut out = String::new();
        let mut i: usize = 0;
        while i < raw.len()
            invariant
                raw@.len() == RANDOM_NAME_LEN,
                forall|j: int| 0 <= j < RANDOM_NAME_LEN ==> ascii_alnum(#[trigger] raw@[j]),
                i <= raw.len(),
                out@.len() == i,
                forall|j: int| 0 <= j < i ==> lower_alnum(#[trigger] out@[j]),
            decreases raw.len() - i,
        {
            let c = raw[i];
            assert(ascii_alnum(raw@[i as int]));
            let lower: u8 = if 65 <= c && c <= 90 {
                c + 32
            } else {
                c
            };
            let ch = lower as char;
            assert(lower_alnum(ch)) by {
                assert(('0' as u8) == 48u8 && ('9' as u8) == 57u8 && ('a' as u8) == 97u8 && ('z' as u8) == 122u8);
            }
            push_char(&mut out, ch);
            i = i + 1;
        }
        out
    }
}

} // verus!
