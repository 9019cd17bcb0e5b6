//! Authorization core for a gated collection registry: a bounded whitelist of
//! approved principals, one authority record per collection, and a
//! deterministic derivation scheme that stands in for a held signing key.

mod collection_authority;
mod create_collection;
mod derivation;
mod error;
mod principal;
mod thaw_nft;
mod whitelist_creator;
mod whitelisted_creators;

pub use derivation::authority_tag_str;
pub use derivation::derive_address;
pub use collection_authority::CollectionAuthority;
pub use create_collection::CreateCollection;
pub use create_collection::CreateCollectionArgs;
pub use create_collection::CreateCollectionCall;
pub use error::GateError;
pub use principal::Principal;
pub use thaw_nft::ThawCall;
pub use thaw_nft::ThawNft;
pub use whitelist_creator::WhitelistCreator;
pub use whitelisted_creators::WhitelistedCreators;
pub use whitelisted_creators::MAX_CREATORS;
