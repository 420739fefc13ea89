use vstd::prelude::*;

use crate::error::ContractError;
use crate::Contract;

verus! {

/// A contract that can be paused and resumed.
pub trait Pausable: Sized {
    /// Whether the contract is paused, as a specification value.
    spec fn paused_state(&self) -> bool;

    /// Whether `self` and `other` agree on everything but the pause flag.
    spec fn same_but_pause(&self, other: &Self) -> bool;

    /// Flips between paused and running and changes nothing else. Who may call it
    /// is for the implementor's callers to decide.
    fn toggle_pause(&mut self)
        ensures
            final(self).paused_state() == !old(self).paused_state(),
            final(self).same_but_pause(&*old(self)),
    ;

    fn is_paused(&self) -> (r: bool)
        ensures
            r == self.paused_state(),
    ;

    /// Rejects when the contract is paused.
    fn assert_not_paused(&self) -> (r: Result<(), ContractError>)
        ensures
            r is Ok <==> !self.paused_state(),
            r is Err ==> r == Err::<(), ContractError>(ContractError::Paused),
    ;
}

impl Pausable for Contract {
    open spec fn paused_state(&self) -> bool {
        self.spec_paused()
    }

    open spec fn same_but_pause(&self, other: &Contract) -> bool {
        &&& self.wf() == other.wf()
        &&& self.same_notes(other)
        &&& self.points() == other.points()
        &&& self.manager_set() == other.manager_set()
        &&& self.ft_account() == other.ft_account()
        &&& self.w_near_account() == other.w_near_account()
        &&& self.spec_version() == other.spec_version()
        &&& self.spec_greeting() == other.spec_greeting()
    }

    fn toggle_pause(&mut self) {
        self.paused = !self.paused;
    }

    fn is_paused(&self) -> (r: bool) {
        self.paused
    }

    fn assert_not_paused(&self) -> (r: Result<(), ContractError>) {
        if self.paused {
            Err(ContractError::Paused)
        } else {
            Ok(())
        }
    }
}

impl Contract {
    /// Flips the pause flag on behalf of `caller`, who must be a manager.
    pub fn toggle_pause_as(&mut self, caller: &String) -> (r: Result<(), ContractError>)
        requires
            old(self).wf(),
        ensures
            final(self).wf(),
            r is Ok <==> old(self).manager_set().contains(caller@),
            r is Ok ==> final(self).spec_paused() == !old(self).spec_paused()
                && final(self).same_but_pause(&*old(self)),
            r is Err ==> r == Err::<(), ContractError>(ContractError::NotManager) && *final(self)
                == *old(self),
    {
        match self.assert_manager(caller) {
            Ok(()) => {},
            Err(e) => {
                return Err(e);
            },
        }
        self.paused = !self.paused;
        Ok(())
    }
}

} // verus!
