//! Hash algorithms of the event log.

use vstd::prelude::*;
use crate::token::str_eq;

verus! {

/// The SHA-256 digest of a byte string.
pub uninterp spec fn sha256_of(data: Seq<u8>) -> Seq<u8>;

/// The SHA-384 digest of a byte string.
pub uninterp spec fn sha384_of(data: Seq<u8>) -> Seq<u8>;

/// The SHA-512 digest of a byte string.
pub uninterp spec fn sha512_of(data: Seq<u8>) -> Seq<u8>;

/// Relies on `sha2::Sha256::digest` (the `Digest` trait of sha2): the SHA-256
/// digest of `data`, 32 bytes long.
#[verifier::external_body]
fn sha256_digest(data: &[u8]) -> (r: Vec<u8>)
    ensures
        r@ == sha256_of(data@),
        r@.len() == 32,
{
    <sha2::Sha256 as sha2::Digest>::digest(data).to_vec()
}

/// Relies on `sha2::Sha384::digest` (the `Digest` trait of sha2): the SHA-384
/// digest of `data`, 48 bytes long.
#[verifier::external_body]
fn sha384_digest(data: &[u8]) -> (r: Vec<u8>)
    ensures
        r@ == sha384_of(data@),
        r@.len() == 48,
{
    <sha2::Sha384 as sha2::Digest>::digest(data).to_vec()
}

/// Relies on `sha2::Sha512::digest` (the `Digest` trait of sha2): the SHA-512
/// digest of `data`, 64 bytes long.
#[verifier::external_body]
fn sha512_digest(data: &[u8]) -> (r: Vec<u8>)
    ensures
        r@ == sha512_of(data@),
        r@.len() == 64,
{
    <sha2::Sha512 as sha2::Digest>::digest(data).to_vec()
}

/// A sequence of `n` copies of `c`.
pub open spec fn repeat_char(c: char, n: nat) -> Seq<char> {
    Seq::new(n, |_i: int| c)
}

/// The hash algorithm that digests event-log entries.
#[derive(Clone, Copy, Debug, PartialEq, Eq, Structural)]
pub enum HashAlgorithm {
    Sha256,
    Sha384,
    Sha512,
}

impl HashAlgorithm {
    /// Length in bytes of a digest under this algorithm.
    pub open spec fn digest_len(self) -> nat {
        match self {
            HashAlgorithm::Sha256 => 32,
            HashAlgorithm::Sha384 => 48,
            HashAlgorithm::Sha512 => 64,
        }
    }

    /// The digest of `data` under this algorithm.
    pub open spec fn spec_digest(self, data: Seq<u8>) -> Seq<u8> {
        match self {
            HashAlgorithm::Sha256 => sha256_of(data),
            HashAlgorithm::Sha384 => sha384_of(data),
            HashAlgorithm::Sha512 => sha512_of(data),
        }
    }

    /// The lower-case name of the algorithm, as it appears in the log.
    pub open spec fn spec_name(self) -> Seq<char> {
        match self {
            HashAlgorithm::Sha256 => seq!['s', 'h', 'a', '2', '5', '6'],
            HashAlgorithm::Sha384 => seq!['s', 'h', 'a', '3', '8', '4'],
            HashAlgorithm::Sha512 => seq!['s', 'h', 'a', '5', '1', '2'],
        }
    }

    /// The all-zero digest, as bytes.
    pub open spec fn spec_zero_digest(self) -> Seq<u8> {
        Seq::new(self.digest_len(), |_i: int| 0u8)
    }

    /// The all-zero digest, as lower-case hex: two `'0'` per byte.
    pub open spec fn spec_zero_digest_hex(self) -> Seq<char> {
        repeat_char('0', 2 * self.digest_len())
    }

    /// The algorithm whose name is `name`, if any.
    pub fn from_name(name: &str) -> (r: Option<HashAlgorithm>)
        ensures
            r matches Some(a) ==> a.spec_name() == name@,
            r is None ==> forall|a: HashAlgorithm| a.spec_name() != name@,
    {
        if str_eq(name, HashAlgorithm::Sha256.name()) {
            Some(HashAlgorithm::Sha256)
        } else if str_eq(name, HashAlgorithm::Sha384.name()) {
            Some(HashAlgorithm::Sha384)
        } else if str_eq(name, HashAlgorithm::Sha512.name()) {
            Some(HashAlgorithm::Sha512)
        } else {
            None
        }
    }

    /// Length in bytes of a digest under this algorithm.
    pub fn output_len(&self) -> (r: usize)
        ensures
            r as nat == self.digest_len(),
    {
        match self {
            HashAlgorithm::Sha256 => 32,
            HashAlgorithm::Sha384 => 48,
            HashAlgorithm::Sha512 => 64,
        }
    }

    /// The lower-case name of the algorithm.
    pub fn name(&self) -> (r: &'static str)
        ensures
            r@ == self.spec_name(),
    {
        match self {
            HashAlgorithm::Sha256 => {
                proof {
                    reveal_strlit("sha256");
                }
                "sha256"
            },
            HashAlgorithm::Sha384 => {
                proof {
                    reveal_strlit("sha384");
                }
                "sha384"
            },
            HashAlgorithm::Sha512 => {
                proof {
                    reveal_strlit("sha512");
                }
                "sha512"
            },
        }
    }

    /// The digest of `data` under this algorithm.
    pub fn digest(&self, data: &[u8]) -> (r: Vec<u8>)
        ensures
            r@ == self.spec_digest(data@),
            r@.len() == self.digest_len(),
    {
        match self {
            HashAlgorithm::Sha256 => sha256_digest(data),
            HashAlgorithm::Sha384 => sha384_digest(data),
            HashAlgorithm::Sha512 => sha512_digest(data),
        }
    }

    /// The all-zero digest: the value a measurement register holds before any
    /// extension.
    pub fn zero_digest(&self) -> (r: Vec<u8>)
        ensures
            r@ == self.spec_zero_digest(),
    {
        let n = self.output_len();
        let mut r: Vec<u8> = Vec::new();
        let mut i: usize = 0;
        while i < n
            invariant
                n as nat == self.digest_len(),
                i <= n,
                r@ == Seq::new(i as nat, |_j: int| 0u8),
            decreases n - i,
        {
            r.push(0u8);
            i = i + 1;
            assert(r@ =~= Seq::new(i as nat, |_j: int| 0u8));
        }
        r
    }

    /// The all-zero digest rendered as lower-case hex.
    pub fn zero_digest_hex(&self) -> (r: String)
        ensures
            r@ == self.spec_zero_digest_hex(),
    {
        let n = self.output_len();
        let mut r = String::new();
        let mut i: usize = 0;
        while i < n
            invariant
                n as nat == self.digest_len(),
                i <= n,
                r@ == repeat_char('0', 2 * i as nat),
            decreases n - i,
        {
            proof {
                reveal_strlit("00");
            }
            r.append("00");
            i = i + 1;
            assert(r@ =~= repeat_char('0', 2 * i as nat));
        }
        r
    }
}

} // verus!
