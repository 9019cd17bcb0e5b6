use vstd::prelude::*;

use crate::collection_authority::CollectionAuthority;
use crate::derivation::authority_tag;
use crate::derivation::authority_tag_str;
use crate::derivation::create_address;
use crate::derivation::pda_of;
use crate::error::GateError;
use crate::principal::Principal;

verus! {

/// The single forwarded call that clears an asset's freeze flag inside the
/// external registry. This crate only authorizes and constructs it; the
/// surrounding runtime performs it, presenting the re-derived authority as
/// the signer.
#[derive(Clone, PartialEq, Eq, Debug)]
pub struct ThawCall {
    /// The asset whose freeze flag is cleared.
    pub asset: Principal,
    /// The collection the asset belongs to.
    pub collection: Principal,
    /// The re-derived authority that signs the mutation.
    pub authority: Principal,
    /// The caller pays for the operation.
    pub payer: Principal,
    /// The target state of the freeze flag: unfrozen.
    pub frozen: bool,
}

/// One delegated thaw attempt: the caller, the governed collection and asset,
/// the collection's authority record, and the externally read owner of the
/// collection's storage.
pub struct ThawNft {
    /// The caller; must be the record's creator.
    pub payer: Principal,
    /// Identity of the governed collection.
    pub collection: Principal,
    /// Who administers the collection's storage, as the environment reports.
    pub collection_owner: Principal,
    /// Identity of the external registry that should own the collection.
    pub core_program: Principal,
    /// The authority record created together with the collection.
    pub collection_authority: CollectionAuthority,
    /// The asset to thaw.
    pub asset: Principal,
    /// Identity of the hosting program, under which authorities are derived.
    pub program: Principal,
}

impl ThawNft {
    /// The external registry itself, and no other system, administers the
    /// collection.
    pub open spec fn collection_valid(self) -> bool {
        self.collection_owner == self.core_program
    }

    /// The caller is the principal that created the collection.
    pub open spec fn payer_is_creator(self) -> bool {
        self.collection_authority.creator == self.payer
    }

    /// The record's nonce re-derives a valid authority identity for this
    /// collection.
    pub open spec fn rederivable(self) -> bool {
        pda_of(
            authority_tag(),
            self.collection@,
            self.collection_authority.bump,
            self.program@,
        ) is Some
    }

    /// The identity the record's nonce re-derives.
    pub open spec fn rederived_authority(self) -> Seq<u8> {
        pda_of(
            authority_tag(),
            self.collection@,
            self.collection_authority.bump,
            self.program@,
        ).unwrap()
    }

    /// What one thaw attempt does. A collection that the external registry
    /// does not administer is refused; a caller other than the record's
    /// creator is refused, whatever else the caller may be; otherwise the
    /// one-shot signing credential is re-derived from the record's nonce and
    /// the forwarded mutation is handed back, its freeze flag cleared.
    pub open spec fn thaw_outcome(self, r: Result<ThawCall, GateError>) -> bool {
        &&& (!self.collection_valid() ==> r == Err::<ThawCall, GateError>(
            GateError::InvalidCollection,
        ))
        &&& (self.collection_valid() && !self.payer_is_creator() ==> r == Err::<
            ThawCall,
            GateError,
        >(GateError::NotAuthorized))
        &&& (self.collection_valid() && self.payer_is_creator() ==> {
            &&& r is Ok
            &&& (r matches Ok(c) ==> {
                &&& c.asset == self.asset
                &&& c.collection == self.collection
                &&& c.authority@ == self.rederived_authority()
                &&& c.payer == self.payer
                &&& c.frozen == false
            })
        })
    }

    /// Authorize one delegated thaw and construct the forwarded mutation, as
    /// [`Self::thaw_outcome`] states. No local state is mutated: this is a
    /// pure authorization-and-forward step. The record's nonce is assumed to
    /// re-derive an identity; [`Self::try_thaw_nft`] establishes that at run
    /// time.
    pub fn thaw_nft(&self) -> (r: Result<ThawCall, GateError>)
        requires
            self.collection_valid() && self.payer_is_creator() ==> self.rederivable(),
        ensures
            self.thaw_outcome(r),
    {
        if !self.collection_owner.equals(&self.core_program) {
            return Err(GateError::InvalidCollection);
        }
        if !self.collection_authority.creator.equals(&self.payer) {
            return Err(GateError::NotAuthorized);
        }
        match create_address(
            authority_tag_str(),
            &self.collection,
            self.collection_authority.bump,
            &self.program,
        ) {
            Some(authority) => Ok(
                ThawCall {
                    asset: self.asset,
                    collection: self.collection,
                    authority,
                    payer: self.payer,
                    frozen: false,
                },
            ),
            None => {
                proof {
                    assert(false);
                }
                Err(GateError::NotAuthorized)
            },
        }
    }

    /// As [`Self::thaw_nft`], checking at run time that the record's nonce
    /// re-derives an identity: in the statistically improbable case that it
    /// does not, `None` comes back and no mutation is forwarded.
    pub fn try_thaw_nft(&self) -> (r: Option<Result<ThawCall, GateError>>)
        ensures
            self.collection_valid() && self.payer_is_creator() && !self.rederivable() ==> r
                is None,
            !(self.collection_valid() && self.payer_is_creator() && !self.rederivable()) ==> r
                is Some,
            (r matches Some(res) ==> self.thaw_outcome(res)),
    {
        if self.collection_owner.equals(&self.core_program)
            && self.collection_authority.creator.equals(&self.payer) {
            match create_address(
                authority_tag_str(),
                &self.collection,
                self.collection_authority.bump,
                &self.program,
            ) {
                Some(_) => Some(self.thaw_nft()),
                None => None,
            }
        } else {
            Some(self.thaw_nft())
        }
    }
}

} // verus!
