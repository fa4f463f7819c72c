//! Content digests and their hexadecimal rendering.

use sha2::Digest;
use vstd::prelude::*;

verus! {

/// The digest algorithms a checksum can be asked for.
#[derive(Clone, Copy, Debug, PartialEq, Eq, Structural)]
pub enum Algorithm {
    Md5,
    Sha1,
    Sha256,
    Sha512,
}

/// The MD5 digest of `data`: what `md5::compute` returns for these bytes.
pub uninterp spec fn md5_of(data: Seq<u8>) -> Seq<u8>;

/// The SHA-1 digest of `data`: what `sha1::Sha1::digest` returns.
pub uninterp spec fn sha1_of(data: Seq<u8>) -> Seq<u8>;

/// The SHA-256 digest of `data`: what `sha2::Sha256::digest` returns.
pub uninterp spec fn sha256_of(data: Seq<u8>) -> Seq<u8>;

/// The SHA-512 digest of `data`: what `sha2::Sha512::digest` returns.
pub uninterp spec fn sha512_of(data: Seq<u8>) -> Seq<u8>;

/// Calls `md5::compute`. Trusted: the result is a function of the bytes
/// alone and is the 16-byte array that the crate's `Digest` wraps.
#[verifier::external_body]
fn md5_bytes(data: &[u8]) -> (out: Vec<u8>)
    ensures
        out@ == md5_of(data@),
        out@.len() == 16,
{
    md5::compute(data).0.to_vec()
}

/// Calls `sha1::Sha1::digest`. Trusted: the result is a function of the
/// bytes alone and has the hasher's output size of 20 bytes.
#[verifier::external_body]
fn sha1_bytes(data: &[u8]) -> (out: Vec<u8>)
    ensures
        out@ == sha1_of(data@),
        out@.len() == 20,
{
    sha1::Sha1::digest(data).to_vec()
}

/// Calls `sha2::Sha256::digest`. Trusted: the result is a function of the
/// bytes alone and has the hasher's output size of 32 bytes.
#[verifier::external_body]
fn sha256_bytes(data: &[u8]) -> (out: Vec<u8>)
    ensures
        out@ == sha256_of(data@),
        out@.len() == 32,
{
    sha2::Sha256::digest(data).to_vec()
}

/// Calls `sha2::Sha512::digest`. Trusted: the result is a function of the
/// bytes alone and has the hasher's output size of 64 bytes.
#[verifier::external_body]
fn sha512_bytes(data: &[u8]) -> (out: Vec<u8>)
    ensures
        out@ == sha512_of(data@),
        out@.len() == 64,
{
    sha2::Sha512::digest(data).to_vec()
}

impl Algorithm {
    /// The algorithm that `name` selects, if any. Names are matched exactly
    /// and in lower case.
    pub open spec fn named(name: Seq<char>) -> Option<Algorithm> {
        if name == "md5"@ {
            Some(Algorithm::Md5)
        } else if name == "sha1"@ {
            Some(Algorithm::Sha1)
        } else if name == "sha256"@ {
            Some(Algorithm::Sha256)
        } else if name == "sha512"@ {
            Some(Algorithm::Sha512)
        } else {
            None
        }
    }

    /// The number of bytes in every digest of this algorithm.
    pub open spec fn digest_len(self) -> nat {
        match self {
            Algorithm::Md5 => 16,
            Algorithm::Sha1 => 20,
            Algorithm::Sha256 => 32,
            Algorithm::Sha512 => 64,
        }
    }

    /// What the algorithm's hasher returns for `data`.
    pub open spec fn hashed(self, data: Seq<u8>) -> Seq<u8> {
        match self {
            Algorithm::Md5 => md5_of(data),
            Algorithm::Sha1 => sha1_of(data),
            Algorithm::Sha256 => sha256_of(data),
            Algorithm::Sha512 => sha512_of(data),
        }
    }

    /// The digest of `data` under this algorithm: what the hasher
    /// returns, which always has the algorithm's length. The model gives
    /// a digest of that length to every input, as the hashers' fixed-size
    /// output types do.
    pub open spec fn digest_of(self, data: Seq<u8>) -> Seq<u8> {
        if self.hashed(data).len() == self.digest_len() {
            self.hashed(data)
        } else {
            Seq::new(self.digest_len(), |i: int| 0u8)
        }
    }

    /// The algorithm that `name` selects, if any.
    pub fn from_name(name: &str) -> (r: Option<Algorithm>)
        ensures
            r == Algorithm::named(name@),
    {
        if str::eq(name, "md5") {
            Some(Algorithm::Md5)
        } else if str::eq(name, "sha1") {
            Some(Algorithm::Sha1)
        } else if str::eq(name, "sha256") {
            Some(Algorithm::Sha256)
        } else if str::eq(name, "sha512") {
            Some(Algorithm::Sha512)
        } else {
            None
        }
    }

    /// The digest of `data` under this algorithm.
    pub fn digest(self, data: &[u8]) -> (out: Vec<u8>)
        ensures
            out@ == self.digest_of(data@),
            out@.len() == self.digest_len(),
    {
        match self {
            Algorithm::Md5 => md5_bytes(data),
            Algorithm::Sha1 => sha1_bytes(data),
            Algorithm::Sha256 => sha256_bytes(data),
            Algorithm::Sha512 => sha512_bytes(data),
        }
    }
}

/// The lower-case hexadecimal digit for a value below sixteen.
pub open spec fn hex_char(nibble: int) -> char {
    if nibble == 0 {
        '0'
    } else if nibble == 1 {
        '1'
    } else if nibble == 2 {
        '2'
    } else if nibble == 3 {
        '3'
    } else if nibble == 4 {
        '4'
    } else if nibble == 5 {
        '5'
    } else if nibble == 6 {
        '6'
    } else if nibble == 7 {
        '7'
    } else if nibble == 8 {
        '8'
    } else if nibble == 9 {
        '9'
    } else if nibble == 10 {
        'a'
    } else if nibble == 11 {
        'b'
    } else if nibble == 12 {
        'c'
    } else if nibble == 13 {
        'd'
    } else if nibble == 14 {
        'e'
    } else {
        'f'
    }
}

/// Whether `c` is one of `0`-`9` or `a`-`f`.
pub open spec fn is_lower_hex(c: char) -> bool {
    exists|n: int| 0 <= n < 16 && c == #[trigger] hex_char(n)
}

/// Two lower-case hexadecimal digits per byte, high nibble first.
pub open spec fn hex_encoding(bytes: Seq<u8>) -> Seq<char> {
    Seq::new(
        2 * bytes.len(),
        |i: int|
            if i % 2 == 0 {
                hex_char(bytes[i / 2] as int / 16)
            } else {
                hex_char(bytes[i / 2] as int % 16)
            },
    )
}

/// The checksum text of `data`: the hexadecimal form of its digest.
pub open spec fn checksum_text(algorithm: Algorithm, data: Seq<u8>) -> Seq<char> {
    hex_encoding(algorithm.digest_of(data))
}

fn hex_digit(nibble: u8) -> (c: char)
    requires
        nibble < 16,
    ensures
        c == hex_char(nibble as int),
{
    if nibble == 0 {
        '0'
    } else if nibble == 1 {
        '1'
    } else if nibble == 2 {
        '2'
    } else if nibble == 3 {
        '3'
    } else if nibble == 4 {
        '4'
    } else if nibble == 5 {
        '5'
    } else if nibble == 6 {
        '6'
    } else if nibble == 7 {
        '7'
    } else if nibble == 8 {
        '8'
    } else if nibble == 9 {
        '9'
    } else if nibble == 10 {
        'a'
    } else if nibble == 11 {
        'b'
    } else if nibble == 12 {
        'c'
    } else if nibble == 13 {
        'd'
    } else if nibble == 14 {
        'e'
    } else {
        'f'
    }
}

/// The lower-case hexadecimal form of `bytes`.
pub fn to_hex(bytes: &[u8]) -> (s: String)
    ensures
        s@ == hex_encoding(bytes@),
{
    let mut s = String::new();
    let mut i: usize = 0;
    while i < bytes.len()
        invariant
            i <= bytes.len(),
            s@ == hex_encoding(bytes@.take(i as int)),
        decreases bytes.len() - i,
    {
        let b: u8 = bytes[i];
        s.push(hex_digit(b / 16));
        s.push(hex_digit(b % 16));
        i = i + 1;
        assert(s@ =~= hex_encoding(bytes@.take(i as int)));
    }
    assert(bytes@.take(i as int) =~= bytes@);
    s
}

/// A hexadecimal rendering has two characters per byte, each of them a
/// lower-case hexadecimal digit.
pub proof fn lemma_hex_encoding_shape(bytes: Seq<u8>)
    ensures
        hex_encoding(bytes).len() == 2 * bytes.len(),
        forall|i: int| 0 <= i < hex_encoding(bytes).len() ==> is_lower_hex(#[trigger] hex_encoding(bytes)[i]),
{
    assert forall|i: int| 0 <= i < hex_encoding(bytes).len() implies is_lower_hex(
        #[trigger] hex_encoding(bytes)[i],
    ) by {
        let byte = bytes[i / 2] as int;
        assert(hex_encoding(bytes)[i] == hex_char(byte / 16) || hex_encoding(bytes)[i] == hex_char(
            byte % 16,
        ));
    }
}

/// The shape of a checksum text: two characters per digest byte, so 32
/// for MD5, 40 for SHA-1, 64 for SHA-256 and 128 for SHA-512, all of them
/// lower-case hexadecimal digits.
pub proof fn lemma_checksum_shape(algorithm: Algorithm, data: Seq<u8>)
    ensures
        checksum_text(algorithm, data).len() == 2 * algorithm.digest_len(),
        algorithm == Algorithm::Md5 ==> checksum_text(algorithm, data).len() == 32,
        algorithm == Algorithm::Sha1 ==> checksum_text(algorithm, data).len() == 40,
        algorithm == Algorithm::Sha256 ==> checksum_text(algorithm, data).len() == 64,
        algorithm == Algorithm::Sha512 ==> checksum_text(algorithm, data).len() == 128,
        forall|i: int|
            0 <= i < checksum_text(algorithm, data).len() ==> is_lower_hex(
                #[trigger] checksum_text(algorithm, data)[i],
            ),
{
    lemma_hex_encoding_shape(algorithm.digest_of(data));
}

/// The checksum of given content under a given algorithm is one text, so
/// equal content has equal checksums.
pub proof fn lemma_checksum_deterministic(algorithm: Algorithm, first: Seq<u8>, second: Seq<u8>)
    requires
        first == second,
    ensures
        checksum_text(algorithm, first) == checksum_text(algorithm, second),
{
}

/// Byte strings with the same hexadecimal form are the same: two checksum
/// texts agree only where the digests do.
pub proof fn lemma_hex_encoding_injective(a: Seq<u8>, b: Seq<u8>)
    requires
        hex_encoding(a) == hex_encoding(b),
    ensures
        a == b,
{
    assert(hex_encoding(a).len() == 2 * a.len());
    assert forall|k: int| 0 <= k < a.len() implies a[k] == b[k] by {
        assert(hex_encoding(a)[2 * k] == hex_char(a[k] as int / 16));
        assert(hex_encoding(a)[2 * k + 1] == hex_char(a[k] as int % 16));
    }
}

} // verus!
