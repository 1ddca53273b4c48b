//! The keyed collection of protection records: one record per protected
//! agent wallet for its whole lifetime. Creation refuses a wallet that
//! already has a record, and closing a record is terminal.

use vstd::prelude::*;
use crate::address::Address;
use crate::config::ShieldConfig;
use crate::events::Notification;
use crate::events::ShieldInitialized;
use crate::shield::Shield;
use crate::shield::ShieldError;
use crate::shield::shield_eq;
use crate::shield::spec_new_shield;

verus! {

/// An explicit mapping from agent wallet to protection record, with
/// read-your-writes get and put.
pub struct ShieldStore {
    shields: Vec<Shield>,
}

impl ShieldStore {
    /// The stored records, in insertion order.
    pub closed spec fn records(self) -> Seq<Shield> {
        self.shields@
    }

    /// A store is well formed when no two records protect the same wallet
    /// and every record is well formed.
    pub open spec fn wf(self) -> bool {
        &&& forall|i: int, j: int|
            0 <= i < j < self.records().len() ==> #[trigger] self.records()[i].agent_wallet
                != #[trigger] self.records()[j].agent_wallet
        &&& forall|i: int| 0 <= i < self.records().len() ==> (#[trigger] self.records()[i]).wf()
    }

    /// True iff some record protects `w`.
    pub open spec fn contains_wallet(self, w: Address) -> bool {
        exists|i: int| 0 <= i < self.records().len() && #[trigger] self.records()[i].agent_wallet == w
    }

    /// An empty store.
    pub fn new() -> (s: ShieldStore)
        ensures
            s.records() == Seq::<Shield>::empty(),
            s.wf(),
    {
        ShieldStore { shields: Vec::new() }
    }

    /// Where the record for `agent_wallet` sits, if anywhere.
    fn find_index(&self, agent_wallet: Address) -> (r: Option<usize>)
        ensures
            r matches Some(i) ==> i < self.records().len() && self.records()[i as int].agent_wallet
                == agent_wallet,
            r is None ==> !self.contains_wallet(agent_wallet),
    {
        let mut i: usize = 0;
        while i < self.shields.len()
            invariant
                i <= self.shields@.len(),
                forall|j: int| 0 <= j < i ==> self.shields@[j].agent_wallet != agent_wallet,
            decreases self.shields@.len() - i,
        {
            if self.shields[i].agent_wallet == agent_wallet {
                return Some(i);
            }
            i += 1;
        }
        None
    }

    /// True iff the store holds a record for `agent_wallet`.
    pub fn has_shield(&self, agent_wallet: Address) -> (r: bool)
        ensures
            r == self.contains_wallet(agent_wallet),
    {
        match self.find_index(agent_wallet) {
            Some(_) => true,
            None => false,
        }
    }

    /// Creates the record for `agent_wallet`, refusing a wallet that already
    /// has one; nothing changes on refusal.
    pub fn initialize(
        &mut self,
        authority: Address,
        agent_wallet: Address,
        config: ShieldConfig,
        now: i64,
    ) -> (r: Result<Notification, ShieldError>)
        requires
            old(self).wf(),
            config.wf(),
        ensures
            old(self).contains_wallet(agent_wallet) ==> r == Result::<
                Notification,
                ShieldError,
            >::Err(ShieldError::AlreadyExists) && *final(self) == *old(self),
            !old(self).contains_wallet(agent_wallet) ==> {
                &&& final(self).records() == old(self).records().push(
                    spec_new_shield(authority, agent_wallet, config, now),
                )
                &&& final(self).contains_wallet(agent_wallet)
                &&& r == Result::<Notification, ShieldError>::Ok(
                    Notification::ShieldInitialized(
                        ShieldInitialized { agent_wallet, authority },
                    ),
                )
            },
            final(self).wf(),
    {
        match self.find_index(agent_wallet) {
            Some(_) => Err(ShieldError::AlreadyExists),
            None => {
                let s = Shield::new(authority, agent_wallet, config, now);
                self.shields.push(s);
                proof {
                    let n: int = self.records().len() - 1;
                    assert(self.records()[n].agent_wallet == agent_wallet);
                }
                Ok(Notification::ShieldInitialized(ShieldInitialized { agent_wallet, authority }))
            },
        }
    }

    /// Reads the record for `agent_wallet` out of the store, as a copy that
    /// agrees with the stored one field for field.
    pub fn get(&self, agent_wallet: Address) -> (r: Option<Shield>)
        requires
            self.wf(),
        ensures
            r is Some <==> self.contains_wallet(agent_wallet),
            r matches Some(s) ==> exists|i: int|
                0 <= i < self.records().len() && #[trigger] self.records()[i].agent_wallet
                    == agent_wallet && shield_eq(s, self.records()[i]),
    {
        match self.find_index(agent_wallet) {
            Some(i) => {
                let s = self.shields[i].clone();
                proof {
                    assert(self.records()[i as int].agent_wallet == agent_wallet && shield_eq(
                        s,
                        self.records()[i as int],
                    ));
                }
                Some(s)
            },
            None => None,
        }
    }

    /// Writes `shield` back over the stored record for its wallet, refusing
    /// a wallet that has no record; nothing changes on refusal.
    pub fn put(&mut self, shield: Shield) -> (r: Result<(), ShieldError>)
        requires
            old(self).wf(),
            shield.wf(),
        ensures
            !old(self).contains_wallet(shield.agent_wallet) ==> r == Result::<
                (),
                ShieldError,
            >::Err(ShieldError::NotFound) && *final(self) == *old(self),
            old(self).contains_wallet(shield.agent_wallet) ==> r is Ok,
            forall|j: int|
                0 <= j < old(self).records().len() && #[trigger] old(self).records()[j].agent_wallet
                    == shield.agent_wallet ==> final(self).records() == old(self).records().update(
                    j,
                    shield,
                ),
            final(self).wf(),
    {
        match self.find_index(shield.agent_wallet) {
            None => Err(ShieldError::NotFound),
            Some(i) => {
                self.shields.set(i, shield);
                Ok(())
            },
        }
    }

    /// Removes the record for `agent_wallet` for good. Only its authority
    /// may close it; nothing changes on refusal.
    pub fn close_shield(&mut self, agent_wallet: Address, caller: Address) -> (r: Result<
        (),
        ShieldError,
    >)
        requires
            old(self).wf(),
        ensures
            !old(self).contains_wallet(agent_wallet) ==> r == Result::<(), ShieldError>::Err(
                ShieldError::NotFound,
            ) && *final(self) == *old(self),
            forall|j: int|
                0 <= j < old(self).records().len() && #[trigger] old(self).records()[j].agent_wallet
                    == agent_wallet && caller == old(self).records()[j].authority ==> r is Ok
                    && final(self).records() == old(self).records().remove(j),
            forall|j: int|
                0 <= j < old(self).records().len() && #[trigger] old(self).records()[j].agent_wallet
                    == agent_wallet && caller != old(self).records()[j].authority ==> r == Result::<
                    (),
                    ShieldError,
                >::Err(ShieldError::Unauthorized) && *final(self) == *old(self),
            r is Ok ==> !final(self).contains_wallet(agent_wallet),
            final(self).wf(),
    {
        match self.find_index(agent_wallet) {
            None => Err(ShieldError::NotFound),
            Some(i) => {
                if self.shields[i].authority == caller {
                    self.shields.remove(i);
                    proof {
                        assert forall|k: int|
                            0 <= k < self.records().len() implies self.records()[k].agent_wallet
                            != agent_wallet by {
                            if k < i {
                                assert(self.records()[k] == old(self).records()[k]);
                            } else {
                                assert(self.records()[k] == old(self).records()[k + 1]);
                            }
                        }
                    }
                    Ok(())
                } else {
                    Err(ShieldError::Unauthorized)
                }
            },
        }
    }
}

} // verus!
