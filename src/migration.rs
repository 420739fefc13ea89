//! The previous state layout and the step from it to the current one.
use vstd::prelude::*;

use crate::account_map::AccountMap;
use crate::error::ContractError;
use crate::{Contract, PostedNote};

verus! {

/// The version of the layout that `OldState` describes.
pub const OLD_SCHEMA_VERSION: u64 = 1;

/// The state layout before the version counter and the pause flag were stored.
pub struct OldState {
    pub greeting: String,
    pub note_book: AccountMap<Vec<PostedNote>>,
    pub ft_id: String,
    pub w_near_id: String,
    pub next_entry_id: Option<u64>,
    pub managers: AccountMap<()>,
    pub user_points: AccountMap<u128>,
}

/// The current state layout, field by field, for storing and loading the contract.
pub struct ContractState {
    pub greeting: String,
    pub note_book: AccountMap<Vec<PostedNote>>,
    pub ft_id: String,
    pub w_near_id: String,
    pub next_entry_id: Option<u64>,
    pub managers: AccountMap<()>,
    pub user_points: AccountMap<u128>,
    pub version: u64,
    pub paused: bool,
}

impl OldState {
    /// The stores are well formed.
    pub open spec fn wf(&self) -> bool {
        &&& self.note_book.wf()
        &&& self.managers.wf()
        &&& self.user_points.wf()
    }
}

impl Contract {
    /// The note store: each account's notes.
    pub open(crate) spec fn notebook(&self) -> Map<Seq<char>, Vec<PostedNote>> {
        self.note_book@
    }

    /// Authorizes an upgrade by `caller` and hands back the new code to deploy;
    /// the deployment then calls `migrate`.
    pub fn update_contract(&self, caller: &String, code: Option<Vec<u8>>) -> (r: Result<
        Vec<u8>,
        ContractError,
    >)
        requires
            self.wf(),
        ensures
            !self.manager_set().contains(caller@) ==> r == Err::<Vec<u8>, ContractError>(
                ContractError::NotManager,
            ),
            self.manager_set().contains(caller@) && code is None ==> r == Err::<
                Vec<u8>,
                ContractError,
            >(ContractError::NoInput),
            self.manager_set().contains(caller@) && code is Some ==> r == Ok::<
                Vec<u8>,
                ContractError,
            >(code.unwrap()),
    {
        match self.assert_manager(caller) {
            Ok(()) => {},
            Err(e) => {
                return Err(e);
            },
        }
        match code {
            Some(c) => Ok(c),
            None => Err(ContractError::NoInput),
        }
    }

    /// Builds the current state from the previous layout: every field is carried
    /// over, the version counter moves one past the old layout's, and the contract
    /// starts unpaused.
    pub fn migrate(old_state: OldState) -> (r: Contract)
        requires
            old_state.wf(),
        ensures
            r.wf(),
            r.notebook() == old_state.note_book@,
            r.points() == old_state.user_points@,
            r.manager_set() == old_state.managers@.dom(),
            r.id_counter() == old_state.next_entry_id,
            r.next_id() == match old_state.next_entry_id {
                Some(n) => n as int,
                None => 0,
            },
            r.ft_account() == old_state.ft_id@,
            r.w_near_account() == old_state.w_near_id@,
            r.spec_greeting() == old_state.greeting@,
            r.spec_version() == OLD_SCHEMA_VERSION + 1,
            !r.spec_paused(),
    {
        Contract {
            greeting: old_state.greeting,
            note_book: old_state.note_book,
            ft_id: old_state.ft_id,
            w_near_id: old_state.w_near_id,
            next_entry_id: old_state.next_entry_id,
            managers: old_state.managers,
            user_points: old_state.user_points,
            version: OLD_SCHEMA_VERSION + 1,
            paused: false,
        }
    }

    /// Loads a contract from its stored fields.
    pub fn from_state(state: ContractState) -> (r: Contract)
        requires
            state.note_book.wf(),
            state.managers.wf(),
            state.user_points.wf(),
        ensures
            r.wf(),
            r.notebook() == state.note_book@,
            r.points() == state.user_points@,
            r.manager_set() == state.managers@.dom(),
            r.id_counter() == state.next_entry_id,
            r.ft_account() == state.ft_id@,
            r.w_near_account() == state.w_near_id@,
            r.spec_greeting() == state.greeting@,
            r.spec_version() == state.version,
            r.spec_paused() == state.paused,
    {
        Contract {
            greeting: state.greeting,
            note_book: state.note_book,
            ft_id: state.ft_id,
            w_near_id: state.w_near_id,
            next_entry_id: state.next_entry_id,
            managers: state.managers,
            user_points: state.user_points,
            version: state.version,
            paused: state.paused,
        }
    }

    /// The contract's fields, for storing it.
    pub fn into_state(self) -> (r: ContractState)
        ensures
            self.notebook() == r.note_book@,
            self.points() == r.user_points@,
            self.manager_set() == r.managers@.dom(),
            self.id_counter() == r.next_entry_id,
            self.ft_account() == r.ft_id@,
            self.w_near_account() == r.w_near_id@,
            self.spec_greeting() == r.greeting@,
            self.spec_version() == r.version,
            self.spec_paused() == r.paused,
            self.wf() ==> r.note_book.wf() && r.managers.wf() && r.user_points.wf(),
    {
        ContractState {
            greeting: self.greeting,
            note_book: self.note_book,
            ft_id: self.ft_id,
            w_near_id: self.w_near_id,
            next_entry_id: self.next_entry_id,
            managers: self.managers,
            user_points: self.user_points,
            version: self.version,
            paused: self.paused,
        }
    }
}

} // verus!
