use vstd::prelude::*;

use crate::error::ContractError;
use crate::Contract;

verus! {

impl Contract {
    /// Everything but the manager allow-list is as in `pre`.
    pub open(crate) spec fn same_but_managers(&self, pre: &Contract) -> bool {
        &&& self.greeting == pre.greeting
        &&& self.note_book == pre.note_book
        &&& self.ft_id == pre.ft_id
        &&& self.w_near_id == pre.w_near_id
        &&& self.next_entry_id == pre.next_entry_id
        &&& self.user_points == pre.user_points
        &&& self.version == pre.version
        &&& self.paused == pre.paused
    }

    /// Whether `account` is on the manager allow-list.
    pub fn is_manager(&self, account: &String) -> (r: bool)
        requires
            self.wf(),
        ensures
            r == self.manager_set().contains(account@),
    {
        self.managers.contains(account)
    }

    /// Rejects a `caller` that is not a manager.
    pub(crate) fn assert_manager(&self, caller: &String) -> (r: Result<(), ContractError>)
        requires
            self.wf(),
        ensures
            r is Ok <==> self.manager_set().contains(caller@),
            r is Err ==> r == Err::<(), ContractError>(ContractError::NotManager),
    {
        if self.managers.contains(caller) {
            Ok(())
        } else {
            Err(ContractError::NotManager)
        }
    }

    /// Adds `manager` to the allow-list; only a manager may do so.
    pub fn add_manager(&mut self, caller: &String, manager: String) -> (r: Result<(), ContractError>)
        requires
            old(self).wf(),
        ensures
            final(self).wf(),
            r is Ok <==> old(self).manager_set().contains(caller@),
            r is Ok ==> final(self).manager_set() == old(self).manager_set().insert(manager@)
                && final(self).same_but_managers(&*old(self)),
            r is Err ==> r == Err::<(), ContractError>(ContractError::NotManager) && *final(self)
                == *old(self),
    {
        match self.assert_manager(caller) {
            Ok(()) => {},
            Err(e) => {
                return Err(e);
            },
        }
        self.managers.insert(manager, ());
        Ok(())
    }

    /// Removes `manager` from the allow-list; only a manager may do so, and the
    /// last manager cannot be removed. Removing an account that is not a manager
    /// changes nothing.
    pub fn remove_manager(&mut self, caller: &String, manager: &String) -> (r: Result<(), ContractError>)
        requires
            old(self).wf(),
        ensures
            final(self).wf(),
            !old(self).manager_set().contains(caller@) ==> r == Err::<(), ContractError>(
                ContractError::NotManager,
            ),
            old(self).manager_set().contains(caller@) && old(self).manager_set() == set![manager@]
                ==> r == Err::<(), ContractError>(ContractError::LastManager),
            r is Ok <==> old(self).manager_set().contains(caller@) && old(self).manager_set()
                != set![manager@],
            r is Ok ==> final(self).manager_set() == old(self).manager_set().remove(manager@)
                && final(self).same_but_managers(&*old(self)),
            r is Err ==> *final(self) == *old(self),
    {
        match self.assert_manager(caller) {
            Ok(()) => {},
            Err(e) => {
                return Err(e);
            },
        }
        if self.managers.is_only_key(manager) {
            return Err(ContractError::LastManager);
        }
        self.managers.remove(manager);
        Ok(())
    }
}

} // verus!
