//! The content-identifier type of the `cid` crate, declared so that it can
//! stand in signatures and fields.  A value of it is opaque here: the bridge
//! only carries identifiers through and serializes them at the store
//! boundary.

use vstd::prelude::*;

verus! {

#[verifier::external_type_specification]
#[verifier::external_body]
pub struct ExCid<const S: usize>(cid::CidGeneric<S>);

/// The canonical binary encoding of a content identifier (version, codec,
/// multihash): a function of the identifier alone, so structurally equal
/// identifiers yield identical key bytes.
pub uninterp spec fn cid_key_bytes(k: cid::Cid) -> Seq<u8>;

/// Relies on `CidGeneric::to_bytes`: the canonical binary encoding of the
/// identifier, used as the key handed across the store boundary.
#[verifier::external_body]
pub(crate) fn cid_to_bytes(k: &cid::Cid) -> (r: Vec<u8>)
    ensures
        r@ == cid_key_bytes(*k),
{
    k.to_bytes()
}

} // verus!
