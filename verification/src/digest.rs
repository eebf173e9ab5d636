//! The 256-bit digest that names transactions and blocks.
use vstd::prelude::*;
use crypto::digest::Digest;
use crypto::sha2::Sha256;

verus! {

/// The SHA-256 digest of `data`, written as lowercase hexadecimal text.
pub uninterp spec fn sha256_hex_digest(data: Seq<u8>) -> Seq<char>;

/// Feeds `data` to a fresh `crypto::sha2::Sha256` and returns
/// `Digest::result_str`: the digest named by [`sha256_hex_digest`], which is
/// the hexadecimal form of 32 bytes and so 64 characters long.
#[verifier::external_body]
pub(crate) fn sha256_hex(data: &[u8]) -> (r: String)
    ensures
        r@ == sha256_hex_digest(data@),
        r@.len() == 64,
{
    let mut hasher = Sha256::new();
    hasher.input(data);
    hasher.result_str()
}

/// True when the first `target` characters of `hash` exist and are all `'0'`.
pub open spec fn meets_target(hash: Seq<char>, target: int) -> bool {
    &&& 0 <= target <= hash.len()
    &&& forall|i: int| 0 <= i < target ==> hash[i] == '0'
}

/// Tests the leading-zero condition on a hash.
pub fn has_zero_prefix(hash: &str, target: usize) -> (r: bool)
    ensures
        r == meets_target(hash@, target as int),
{
    let n: usize = hash.unicode_len();
    if target > n {
        return false;
    }
    let mut i: usize = 0;
    while i < target
        invariant
            i <= target <= n,
            n == hash@.len(),
            forall|j: int| 0 <= j < i ==> hash@[j] == '0',
        decreases target - i,
    {
        if hash.get_char(i) != '0' {
            return false;
        }
        i += 1;
    }
    true
}

} // verus!
