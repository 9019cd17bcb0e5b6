use vstd::prelude::*;

use crate::collection_authority::CollectionAuthority;
use crate::derivation::authority_tag;
use crate::derivation::authority_tag_str;
use crate::derivation::derivable;
use crate::derivation::derive_address;
use crate::derivation::derived_address;
use crate::derivation::derived_bump;
use crate::error::GateError;
use crate::principal::Principal;
use crate::whitelisted_creators::WhitelistedCreators;

verus! {

/// Collection and nested-entity metadata handed to one creation call.
#[derive(Clone, PartialEq, Eq, Debug)]
pub struct CreateCollectionArgs {
    pub name: String,
    pub uri: String,
    pub nft_name: String,
    pub nft_uri: String,
}

/// The single forwarded call that creates the collection inside the external
/// registry. This crate only constructs it; the surrounding runtime performs
/// it, attaching no initial behaviour plugins. Its administrative authority
/// is the derived identity, never a held key.
#[derive(Clone, PartialEq, Eq, Debug)]
pub struct CreateCollectionCall {
    /// The creator pays for the operation.
    pub payer: Principal,
    /// Identity of the collection to create.
    pub collection: Principal,
    /// The derived authority that will administer the collection.
    pub update_authority: Principal,
    pub name: String,
    pub uri: String,
}

/// One collection-creation attempt: the caller, the collection identity, the
/// whitelist to check the caller against, and the authority-record slot for
/// this collection, which must still be empty. That the caller has actually
/// signed is the surrounding runtime's fact to establish before the attempt
/// is assembled.
pub struct CreateCollection {
    /// The caller; must be whitelisted.
    pub creator: Principal,
    /// Identity of the collection to be created.
    pub collection: Principal,
    /// Identity of the hosting program, under which authorities are derived.
    pub program: Principal,
    /// The singleton registry of approved principals.
    pub whitelisted_creators: WhitelistedCreators,
    /// The storage slot for this collection's authority record.
    pub collection_authority: Option<CollectionAuthority>,
}

impl CreateCollection {
    /// The caller appears in the whitelist.
    pub open spec fn authorized(self) -> bool {
        self.whitelisted_creators@.contains(self.creator)
    }

    /// No authority record exists for this collection yet.
    pub open spec fn slot_empty(self) -> bool {
        self.collection_authority is None
    }

    /// The derivation engine yields an authority for this collection.
    pub open spec fn derivation_possible(self) -> bool {
        derivable(authority_tag(), self.collection@, self.program@)
    }

    /// The record a successful creation writes: the creator, the collection,
    /// the derivation nonce, and the cached metadata.
    pub open spec fn new_record(self, args: CreateCollectionArgs) -> CollectionAuthority {
        CollectionAuthority {
            bump: derived_bump(authority_tag(), self.collection@, self.program@),
            creator: self.creator,
            collection: self.collection,
            nft_name: args.nft_name,
            nft_uri: args.nft_uri,
        }
    }

    /// What one creation attempt does. An unauthorized caller is refused
    /// before anything else is looked at; an occupied slot is refused next,
    /// leaving the record of the earlier creation untouched; otherwise the
    /// record is written and the forwarded registry call is handed back,
    /// carrying the derived identity as the collection's administrative
    /// authority.
    pub open spec fn create_outcome(
        pre: CreateCollection,
        post: CreateCollection,
        args: CreateCollectionArgs,
        r: Result<CreateCollectionCall, GateError>,
    ) -> bool {
        &&& (!pre.authorized() ==> r == Err::<CreateCollectionCall, GateError>(
            GateError::NotAuthorized,
        ) && post == pre)
        &&& (pre.authorized() && !pre.slot_empty() ==> r == Err::<CreateCollectionCall, GateError>(
            GateError::CollectionAlreadyInitialized,
        ) && post == pre)
        &&& (pre.authorized() && pre.slot_empty() ==> {
            &&& r is Ok
            &&& post.collection_authority == Some(pre.new_record(args))
            &&& post.creator == pre.creator
            &&& post.collection == pre.collection
            &&& post.program == pre.program
            &&& post.whitelisted_creators == pre.whitelisted_creators
            &&& (r matches Ok(c) ==> {
                &&& c.payer == pre.creator
                &&& c.collection == pre.collection
                &&& c.update_authority@ == derived_address(
                    authority_tag(),
                    pre.collection@,
                    pre.program@,
                )
                &&& c.name == args.name
                &&& c.uri == args.uri
            })
        })
    }

    /// Validate the caller, write the authority record, and construct the
    /// forwarded registry call, as [`Self::create_outcome`] states. The
    /// derivation engine is assumed to yield an authority for the collection;
    /// [`Self::try_create_collection`] establishes that at run time.
    pub fn create_collection(&mut self, args: CreateCollectionArgs) -> (r: Result<
        CreateCollectionCall,
        GateError,
    >)
        requires
            old(self).whitelisted_creators.wf(),
            old(self).authorized() && old(self).slot_empty() ==> old(self).derivation_possible(),
        ensures
            Self::create_outcome(*old(self), *final(self), args, r),
    {
        if !self.whitelisted_creators.contains(&self.creator) {
            return Err(GateError::NotAuthorized);
        }
        if self.collection_authority.is_some() {
            return Err(GateError::CollectionAlreadyInitialized);
        }
        match derive_address(authority_tag_str(), &self.collection, &self.program) {
            Some((authority, bump)) => {
                self.collection_authority = Some(
                    CollectionAuthority {
                        bump,
                        creator: self.creator,
                        collection: self.collection,
                        nft_name: args.nft_name,
                        nft_uri: args.nft_uri,
                    },
                );
                Ok(
                    CreateCollectionCall {
                        payer: self.creator,
                        collection: self.collection,
                        update_authority: authority,
                        name: args.name,
                        uri: args.uri,
                    },
                )
            },
            None => {
                proof {
                    assert(false);
                }
                Err(GateError::NotAuthorized)
            },
        }
    }

    /// As [`Self::create_collection`], checking at run time that the
    /// derivation engine yields an authority for this collection: in the
    /// statistically improbable case that it does not, `None` comes back and
    /// nothing has changed.
    pub fn try_create_collection(&mut self, args: CreateCollectionArgs) -> (r: Option<
        Result<CreateCollectionCall, GateError>,
    >)
        requires
            old(self).whitelisted_creators.wf(),
        ensures
            old(self).authorized() && old(self).slot_empty() && !old(self).derivation_possible()
                ==> r is None && *final(self) == *old(self),
            !(old(self).authorized() && old(self).slot_empty() && !old(
                self,
            ).derivation_possible()) ==> r is Some,
            (r matches Some(res) ==> Self::create_outcome(*old(self), *final(self), args, res)),
    {
        if self.whitelisted_creators.contains(&self.creator) && self.collection_authority.is_none()
        {
            match derive_address(authority_tag_str(), &self.collection, &self.program) {
                Some(_) => Some(self.create_collection(args)),
                None => None,
            }
        } else {
            Some(self.create_collection(args))
        }
    }
}

/// Law: creating the same collection twice. Starting from an authorized
/// caller and an empty record slot, the first attempt succeeds and fills the
/// slot; the second attempt on the resulting state fails with
/// `CollectionAlreadyInitialized` and leaves the record written by the first
/// attempt unchanged.
pub proof fn lemma_second_creation_fails(
    s0: CreateCollection,
    s1: CreateCollection,
    s2: CreateCollection,
    args1: CreateCollectionArgs,
    args2: CreateCollectionArgs,
    r1: Result<CreateCollectionCall, GateError>,
    r2: Result<CreateCollectionCall, GateError>,
)
    requires
        s0.authorized(),
        s0.slot_empty(),
        CreateCollection::create_outcome(s0, s1, args1, r1),
        CreateCollection::create_outcome(s1, s2, args2, r2),
    ensures
        r1 is Ok,
        r2 == Err::<CreateCollectionCall, GateError>(GateError::CollectionAlreadyInitialized),
        s2 == s1,
        s1.collection_authority == Some(s0.new_record(args1)),
{
    assert(s1.whitelisted_creators == s0.whitelisted_creators && s1.creator == s0.creator);
    assert(s1.authorized());
    assert(!s1.slot_empty());
}

} // verus!
