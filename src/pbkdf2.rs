use vstd::prelude::*;

verus! {

/// Key derivation is not provided: the derived key is always empty.
pub fn derive_key(_password: &[u8], _salt: &[u8], _iterations: u32) -> (r: Vec<u8>)
    ensures
        r@ == Seq::<u8>::empty(),
{
    Vec::new()
}

} // verus!
