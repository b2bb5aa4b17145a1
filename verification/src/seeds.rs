use vstd::prelude::*;

use crate::consts::ascii_bytes;

verus! {

/// `seeds` are the signer seeds of a program-derived address: `prefix`, a 32-byte
/// `key` and the one byte `bump`, in this order.
pub open spec fn are_signer_seeds(seeds: Seq<Vec<u8>>, prefix: Seq<u8>, key: Seq<u8>, bump: u8) -> bool {
    &&& seeds.len() == 3
    &&& seeds[0]@ == prefix
    &&& seeds[1]@ == key
    &&& seeds[2]@ == seq![bump]
}

/// Builds the signer seeds `[prefix, key, [bump]]`.
pub fn signer_seeds(prefix: &'static str, key: &[u8; 32], bump: u8) -> (r: Vec<Vec<u8>>)
    requires
        vstd::string::is_ascii(prefix),
    ensures
        are_signer_seeds(r@, ascii_bytes(prefix@), key@, bump),
{
    proof {
        vstd::string::is_ascii_spec_bytes(prefix);
    }
    let prefix_bytes = vstd::slice::slice_to_vec(prefix.as_bytes());
    let key_bytes = vstd::slice::slice_to_vec(key.as_slice());
    let bump_bytes = vec![bump];
    assert(prefix_bytes@ =~= ascii_bytes(prefix@));
    assert(key_bytes@ =~= key@);
    assert(bump_bytes@ =~= seq![bump]);
    vec![prefix_bytes, key_bytes, bump_bytes]
}

} // verus!
