//! Address prefix checks.
//!
//! Full bech32 address validation is the chain runtime's job and stays
//! outside this crate; the protocol itself only ever checks that a principal
//! carries the prefix its deployment expects.

use vstd::prelude::*;

use crate::errors::ContractError;
use vstd::string::StringSliceAdditionalSpecFns;

verus! {

/// True if `p` is a prefix of `s`.
pub open spec fn has_byte_prefix(s: Seq<u8>, p: Seq<u8>) -> bool {
    p.len() <= s.len() && s.subrange(0, p.len() as int) == p
}

/// Whether the byte sequence of `s` starts with that of `prefix`.
pub fn str_has_prefix(s: &str, prefix: &str) -> (r: bool)
    ensures
        r == has_byte_prefix(s.spec_bytes(), prefix.spec_bytes()),
{
    let sb = s.as_bytes();
    let pb = prefix.as_bytes();
    let n = pb.len();
    if n > sb.len() {
        return false;
    }
    for i in 0..n
        invariant
            n == pb@.len() <= sb@.len(),
            sb@ == s.spec_bytes(),
            pb@ == prefix.spec_bytes(),
            forall|j: int| 0 <= j < i ==> sb@[j] == pb@[j],
    {
        if sb[i] != pb[i] {
            proof {
                assert(s.spec_bytes().subrange(0, n as int)[i as int] != pb@[i as int]);
            }
            return false;
        }
    }
    proof {
        assert(s.spec_bytes().subrange(0, n as int) =~= prefix.spec_bytes());
    }
    true
}

/// Rejects a principal that does not carry the chain prefix this deployment
/// expects.
pub fn assert_valid_prefix(owner: &str, prefix: &str) -> (r: Result<(), ContractError>)
    ensures
        r is Ok <==> has_byte_prefix(owner.spec_bytes(), prefix.spec_bytes()),
        r matches Err(e) ==> e matches ContractError::InvalidChainPrefix(p) && p@ == prefix@,
{
    if !str_has_prefix(owner, prefix) {
        return Err(ContractError::InvalidChainPrefix(prefix.to_owned()));
    }
    Ok(())
}

} // verus!
