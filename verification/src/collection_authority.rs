use vstd::prelude::*;

use crate::principal::Principal;

verus! {

/// One record per collection, created together with the collection and never
/// mutated afterwards. It binds the collection identity to its approving
/// creator and keeps the derivation nonce from which the collection's
/// delegated signing authority is re-derived on demand: no secret key is
/// ever stored, only the recipe to reproduce the authority's identity.
#[derive(Clone, PartialEq, Eq, Debug)]
pub struct CollectionAuthority {
    /// Nonce returned by the derivation engine when the record was created.
    pub bump: u8,
    /// The whitelisted principal that created the collection.
    pub creator: Principal,
    /// Identity of the governed collection.
    pub collection: Principal,
    /// Cached metadata for entities later minted under the collection.
    pub nft_name: String,
    /// Cached metadata for entities later minted under the collection.
    pub nft_uri: String,
}

} // verus!
