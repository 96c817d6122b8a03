//! The calls that this library makes into other code, each with what it relies on.

use vstd::prelude::*;

verus! {

/// The `keccak256` digest of the UTF-8 encoding of a text.
pub uninterp spec fn keccak256_of(preimage: Seq<char>) -> Seq<u8>;

/// The IPFS content digest (multihash bytes) of the UTF-8 encoding of a text.
pub uninterp spec fn ipfs_of(preimage: Seq<char>) -> Seq<u8>;

/// Relies on era_compiler_common::Hash::keccak256: a function of the text's bytes alone,
/// whose byte form is a 32-byte array.
#[verifier::external_body]
pub(crate) fn keccak256(preimage: &str) -> (r: Vec<u8>)
    ensures
        r@ == keccak256_of(preimage@),
        r@.len() == 32,
{
    era_compiler_common::Hash::keccak256(preimage.as_bytes()).as_bytes().to_vec()
}

/// Relies on era_compiler_common::Hash::ipfs: a function of the text's bytes alone,
/// whose byte form is a 34-byte array.
#[verifier::external_body]
pub(crate) fn ipfs(preimage: &str) -> (r: Vec<u8>)
    ensures
        r@ == ipfs_of(preimage@),
        r@.len() == 34,
{
    era_compiler_common::Hash::ipfs(preimage.as_bytes()).as_bytes().to_vec()
}

/// Relies on era_compiler_common::EXIT_CODE_SUCCESS, which is zero.
#[verifier::external_body]
pub(crate) fn exit_code_success() -> (r: i32)
    ensures
        r == 0,
{
    era_compiler_common::EXIT_CODE_SUCCESS
}

/// Relies on era_compiler_common::ContractName::new: the full path is the path,
/// followed by `:` and the name where there is one.
#[verifier::external_body]
pub(crate) fn contract_full_path(path: &String, name: &Option<String>) -> (r: String)
    ensures
        r@ == match name {
            Some(n) => path@ + seq![':'] + n@,
            None => path@,
        },
{
    era_compiler_common::ContractName::new(path.clone(), name.clone()).full_path
}

} // verus!
