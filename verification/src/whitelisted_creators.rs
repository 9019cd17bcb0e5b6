use vstd::prelude::*;

use crate::error::GateError;
use crate::principal::Principal;

verus! {

/// Fixed capacity of the whitelist.
pub const MAX_CREATORS: usize = 10;

/// The singleton bounded set of approved principals: a fixed-capacity array
/// plus a count of the entries that are valid. Only the filled prefix is
/// ever consulted; the tail holds default values that mean nothing and must
/// never answer a membership test. Entries are only appended, never removed.
#[derive(Clone)]
pub struct WhitelistedCreators {
    pub creators: [Principal; MAX_CREATORS],
    pub num_creators: u8,
    pub bump: u8,
}

impl View for WhitelistedCreators {
    type V = Seq<Principal>;

    /// The registry denotes the sequence of its valid entries, in insertion
    /// order.
    open spec fn view(&self) -> Seq<Principal> {
        self.creators@.take(self.num_creators as int)
    }
}

impl WhitelistedCreators {
    /// The count never passes the capacity and the valid prefix holds no
    /// duplicates.
    pub open spec fn wf(self) -> bool {
        &&& self.num_creators as int <= MAX_CREATORS as int
        &&& forall|i: int, j: int| 0 <= i < j < self@.len() ==> self@[i] != self@[j]
    }

    /// A freshly initialized registry: no valid entries.
    pub fn new(bump: u8) -> (r: WhitelistedCreators)
        ensures
            r.wf(),
            r.num_creators == 0,
            r@ == Seq::<Principal>::empty(),
            r.bump == bump,
    {
        let r = WhitelistedCreators {
            creators: [Principal { bytes: [0u8; 32] }; MAX_CREATORS],
            num_creators: 0,
            bump,
        };
        proof {
            assert(r@ =~= Seq::<Principal>::empty());
        }
        r
    }

    /// True iff `creator` appears among the valid entries. Only the filled
    /// prefix is scanned: checking the whole array would give false
    /// positives against unfilled default-valued slots.
    pub fn contains(&self, creator: &Principal) -> (r: bool)
        requires
            self.wf(),
        ensures
            r == self@.contains(*creator),
    {
        let n = self.num_creators as usize;
        let mut i: usize = 0;
        while i < n
            invariant
                self.wf(),
                n == self.num_creators as usize,
                i <= n,
                forall|j: int| 0 <= j < i ==> self@[j] != *creator,
            decreases n - i,
        {
            if self.creators[i].equals(creator) {
                proof {
                    assert(self@[i as int] == *creator);
                }
                return true;
            }
            i = i + 1;
        }
        false
    }

    /// What one append attempt does: it fails with `CapacityExceeded` when
    /// the registry is full, and with `AlreadyWhitelisted` when the
    /// principal is already present, regardless of its position; on failure
    /// nothing changes. On success the principal is placed at the end:
    /// insertion order is preserved and earlier entries stay exactly where
    /// they were.
    pub open spec fn add_outcome(
        pre: WhitelistedCreators,
        post: WhitelistedCreators,
        p: Principal,
        r: Result<(), GateError>,
    ) -> bool {
        &&& (pre@.len() == MAX_CREATORS as int ==> r == Err::<(), GateError>(
            GateError::CapacityExceeded,
        ) && post == pre)
        &&& (pre@.len() < MAX_CREATORS as int && pre@.contains(p) ==> r == Err::<(), GateError>(
            GateError::AlreadyWhitelisted,
        ) && post == pre)
        &&& (pre@.len() < MAX_CREATORS as int && !pre@.contains(p) ==> r == Ok::<(), GateError>(())
            && post@ == pre@.push(p))
    }

    /// Append `creator` to the whitelist, as [`Self::add_outcome`] states.
    pub fn whitelist_creator(&mut self, creator: &Principal) -> (r: Result<(), GateError>)
        requires
            old(self).wf(),
        ensures
            final(self).wf(),
            final(self).bump == old(self).bump,
            Self::add_outcome(*old(self), *final(self), *creator, r),
    {
        if self.num_creators as usize >= MAX_CREATORS {
            return Err(GateError::CapacityExceeded);
        }
        if self.contains(creator) {
            return Err(GateError::AlreadyWhitelisted);
        }
        let idx = self.num_creators as usize;
        self.creators[idx] = *creator;
        self.num_creators = self.num_creators + 1;
        proof {
            assert(self@ =~= old(self)@.push(*creator));
        }
        Ok(())
    }
}

/// Law: membership survives an append. A principal already among the entries
/// is still among them after another principal is appended.
pub proof fn lemma_append_preserves_members(s: Seq<Principal>, p: Principal, q: Principal)
    requires
        s.contains(q),
    ensures
        s.push(p).contains(q),
{
    let i = choose|i: int| 0 <= i < s.len() && s[i] == q;
    assert(s.push(p)[i] == q);
}

/// Law: a freshly initialized registry contains no principal at all, the
/// all-zero default value included.
pub proof fn lemma_fresh_registry_contains_nothing(r: WhitelistedCreators, p: Principal)
    requires
        r.num_creators == 0,
    ensures
        !r@.contains(p),
{
    assert(r@.len() == 0);
}

} // verus!
