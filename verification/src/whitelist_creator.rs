use vstd::prelude::*;

use crate::error::GateError;
use crate::principal::Principal;
use crate::whitelisted_creators::WhitelistedCreators;

verus! {

/// The administrative gate in front of the whitelist: only the subsystem's
/// owning authority may register new principals. Which principal owns the
/// subsystem is an externally recorded fact that the surrounding runtime
/// reads and hands in here.
pub struct WhitelistCreator {
    /// The caller asking to register a principal.
    pub payer: Principal,
    /// The candidate principal to be registered.
    pub creator: Principal,
    /// The externally recorded owning authority of this subsystem, if any.
    pub upgrade_authority: Option<Principal>,
    /// The singleton registry of approved principals.
    pub whitelisted_creators: WhitelistedCreators,
}

impl WhitelistCreator {
    /// The caller is the externally recorded owning authority.
    pub open spec fn payer_is_admin(self) -> bool {
        self.upgrade_authority == Some(self.payer)
    }

    /// Register `creator`, provided `payer` is the subsystem's owning
    /// authority; else the call fails with `NotAuthorized`. `CapacityExceeded`
    /// and `AlreadyWhitelisted` surface unchanged from the registry. Nothing
    /// but the registry is ever touched.
    pub fn whitelist_creator(&mut self) -> (r: Result<(), GateError>)
        requires
            old(self).whitelisted_creators.wf(),
        ensures
            final(self).whitelisted_creators.wf(),
            final(self).payer == old(self).payer,
            final(self).creator == old(self).creator,
            final(self).upgrade_authority == old(self).upgrade_authority,
            final(self).whitelisted_creators.bump == old(self).whitelisted_creators.bump,
            !old(self).payer_is_admin() ==> r == Err::<(), GateError>(GateError::NotAuthorized)
                && *final(self) == *old(self),
            old(self).payer_is_admin() ==> WhitelistedCreators::add_outcome(
                old(self).whitelisted_creators,
                final(self).whitelisted_creators,
                old(self).creator,
                r,
            ),
    {
        match &self.upgrade_authority {
            Some(authority) => {
                if !authority.equals(&self.payer) {
                    return Err(GateError::NotAuthorized);
                }
            },
            None => {
                return Err(GateError::NotAuthorized);
            },
        }
        let creator = self.creator;
        self.whitelisted_creators.whitelist_creator(&creator)
    }
}

} // verus!
