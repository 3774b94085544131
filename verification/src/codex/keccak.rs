use vstd::prelude::*;
use tiny_keccak::{Hasher, Keccak};

verus! {

/// The Keccak-256 digest of `data`, as tiny_keccak computes it.
pub uninterp spec fn spec_keccak256(data: Seq<u8>) -> Seq<u8>;

/// Keccak-256 of `data`, through tiny_keccak (`Keccak::v256`, `update`, `finalize`).
/// Trusted: the 32 bytes it returns are `spec_keccak256(data@)`; nothing more is stated of them.
#[verifier::external_body]
pub fn keccak256(data: &[u8]) -> (out: [u8; 32])
    ensures
        out@ == spec_keccak256(data@),
{
    let mut k = Keccak::v256();
    k.update(data);
    let mut out = [0u8; 32];
    k.finalize(&mut out);
    out
}

} // verus!
