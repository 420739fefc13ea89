use vstd::prelude::*;

use crate::error::ContractError;
use crate::exchange::{
    can_credit, credited, exchange_output, ledger_error, min_exchange, optimistic, optimistic_ok, token_out,
    PendingExchange, TransferRequest,
};
use crate::token_units::{whole_to_yocto, yocto_per_token};
use crate::{note_views, Contract, NoteView, PostedNote};

verus! {

/// The two tokens the contract trades.
#[derive(Debug, Clone, Copy, PartialEq, Eq, Structural)]
pub enum Token {
    Near,
    FungibleToken,
}

impl Token {
    /// The token's display name.
    pub fn display_name(&self) -> (r: &'static str)
        ensures
            *self == Token::Near ==> r@ == "WNEAR"@,
            *self == Token::FungibleToken ==> r@ == "FungibleToken"@,
    {
        match self {
            Token::Near => "WNEAR",
            Token::FungibleToken => "FungibleToken",
        }
    }
}

/// The intent carried by a deposit notification.
#[derive(Debug, Clone)]
pub enum FtMessage {
    /// Stores the note's title and body; its id is always the next one the contract hands out.
    AddNote(PostedNote),
    RemoveNote(u64),
    Exchange,
}

/// What the router did with a deposit.
#[derive(Debug, Clone)]
pub enum Dispatch {
    /// A note was stored; `consumed` is the part of the deposit kept.
    NoteAdded { consumed: u128 },
    /// The sender's notes with the given id are gone; nothing of the deposit is kept.
    NoteRemoved { consumed: u128 },
    /// An exchange was started: `transfer` is to be issued, and `pending` handed to
    /// the resolution once the transfer settles.
    ExchangeStarted { transfer: TransferRequest, pending: PendingExchange },
}

/// Keeps the notes whose id is not `id`.
pub open spec fn keeps(id: u64) -> spec_fn(NoteView) -> bool {
    |n: NoteView| n.id != Some(id)
}

/// The notes of `notes` whose id is not `id`, in their order.
fn without_id(notes: &Vec<PostedNote>, id: u64) -> (r: Vec<PostedNote>)
    ensures
        note_views(r@) == note_views(notes@).filter(keeps(id)),
{
    let ghost views = note_views(notes@);
    let mut out: Vec<PostedNote> = Vec::new();
    let mut i: usize = 0;
    while i < notes.len()
        invariant
            i <= notes@.len(),
            views == note_views(notes@),
            note_views(out@) == views.subrange(0, i as int).filter(keeps(id)),
        decreases notes@.len() - i,
    {
        let ghost before = out@;
        let matches = match notes[i].id {
            Some(n) => n == id,
            None => false,
        };
        proof {
            assert(views.subrange(0, i + 1) =~= views.subrange(0, i as int).push(views[i as int]));
            views.subrange(0, i as int).lemma_filter_push(views[i as int], keeps(id));
        }
        if !matches {
            out.push(notes[i].copied());
            assert(note_views(out@) =~= note_views(before).push(views[i as int]));
        }
        i = i + 1;
    }
    assert(views.subrange(0, notes@.len() as int) =~= views);
    out
}

impl Contract {
    /// The token whose ledger is `account`; the native wrapper is tried first.
    pub open(crate) spec fn token_of(&self, account: Seq<char>) -> Option<Token> {
        if account == self.w_near_account() {
            Some(Token::Near)
        } else if account == self.ft_account() {
            Some(Token::FungibleToken)
        } else {
            None
        }
    }

    /// The ledger account configured for `token`.
    pub open(crate) spec fn token_account_spec(&self, token: Token) -> Seq<char> {
        match token {
            Token::Near => self.w_near_account(),
            Token::FungibleToken => self.ft_account(),
        }
    }

    /// The token whose ledger is `account`; the native wrapper is tried first.
    pub fn token_from_account(&self, account: &String) -> (r: Result<Token, ContractError>)
        ensures
            r == match self.token_of(account@) {
                Some(t) => Ok::<Token, ContractError>(t),
                None => Err(ContractError::TokenNotSupported),
            },
    {
        if *account == self.w_near_id {
            Ok(Token::Near)
        } else if *account == self.ft_id {
            Ok(Token::FungibleToken)
        } else {
            Err(ContractError::TokenNotSupported)
        }
    }

    /// The ledger account configured for `token`.
    pub fn token_account(&self, token: Token) -> (r: String)
        ensures
            r@ == self.token_account_spec(token),
    {
        match token {
            Token::Near => self.w_near_id.clone(),
            Token::FungibleToken => self.ft_id.clone(),
        }
    }

    /// Removes every note of `account_id` whose id is `id`; nothing happens when there is none.
    pub fn remove_note(&mut self, account_id: &String, id: u64)
        requires
            old(self).wf(),
        ensures
            final(self).wf(),
            final(self).same_but_notes(&*old(self)),
            final(self).next_id() == old(self).next_id(),
            final(self).notes_of(account_id@) == old(self).notes_of(account_id@).filter(keeps(id)),
            forall|b: Seq<char>|
                #[trigger] final(self).has_notebook(b) == old(self).has_notebook(b),
            forall|b: Seq<char>|
                b != account_id@ ==> #[trigger] final(self).notes_of(b) == old(self).notes_of(b),
    {
        let ghost pre = *self;
        let placeholder: Vec<PostedNote> = Vec::new();
        match self.note_book.replace(account_id, placeholder) {
            Some(existing) => {
                let kept = without_id(&existing, id);
                self.note_book.insert(account_id.clone(), kept);
            },
            None => {
                assert(Seq::<NoteView>::empty().filter(keeps(id)) =~= Seq::<NoteView>::empty());
            },
        }
        assert(forall|b: Seq<char>| b != account_id@ && self.note_book@.contains_key(b) ==> self.note_book@[b]
            == pre.note_book@[b]);
    }

    /// Handles a deposit of `amount` by `sender_id`, notified by the token ledger
    /// `predecessor_id`, with the intent `msg`. A rejected deposit changes nothing.
    pub fn ft_on_transfer(
        &mut self,
        predecessor_id: &String,
        sender_id: String,
        amount: u128,
        msg: FtMessage,
    ) -> (r: Result<Dispatch, ContractError>)
        requires
            old(self).wf(),
        ensures
            final(self).wf(),
            r is Err ==> *final(self) == *old(self),
            old(self).token_of(predecessor_id@) is None ==> r == Err::<Dispatch, ContractError>(
                ContractError::TokenNotSupported,
            ),
            old(self).token_of(predecessor_id@) is Some ==> match msg {
                FtMessage::AddNote(note) => {
                    let next = old(self).next_id();
                    let id = next as u64;
                    &&& amount < yocto_per_token() ==> r == Err::<Dispatch, ContractError>(
                        ContractError::MinimumDeposit,
                    )
                    &&& amount >= yocto_per_token() && next == u64::MAX ==> r == Err::<
                        Dispatch,
                        ContractError,
                    >(ContractError::IdsExhausted)
                    &&& amount >= yocto_per_token() && next < u64::MAX && !can_credit(
                        old(self).points(),
                        sender_id@,
                        amount,
                    ) ==> r == Err::<Dispatch, ContractError>(ContractError::AmountOverflow)
                    &&& r is Ok <==> amount >= yocto_per_token() && next < u64::MAX && can_credit(
                        old(self).points(),
                        sender_id@,
                        amount,
                    )
                    &&& r is Ok ==> {
                        &&& r == Ok::<Dispatch, ContractError>(Dispatch::NoteAdded { consumed: amount })
                        &&& final(self).note_added(
                            &*old(self),
                            sender_id@,
                            NoteView { id: Some(id), title: note.title@, body: note.body@ },
                            next,
                        )
                        &&& final(self).points() == credited(old(self).points(), sender_id@, amount)
                        &&& final(self).same_config(&*old(self))
                    }
                },
                FtMessage::RemoveNote(id) => {
                    &&& r == Ok::<Dispatch, ContractError>(Dispatch::NoteRemoved { consumed: 0 })
                    &&& final(self).same_but_notes(&*old(self))
                    &&& final(self).next_id() == old(self).next_id()
                    &&& final(self).notes_of(sender_id@) == old(self).notes_of(sender_id@).filter(
                        keeps(id),
                    )
                    &&& forall|b: Seq<char>|
                        b != sender_id@ ==> #[trigger] final(self).notes_of(b) == old(self).notes_of(
                            b,
                        )
                },
                FtMessage::Exchange => {
                    let tok = old(self).token_of(predecessor_id@).unwrap();
                    let out = exchange_output(tok, amount as int);
                    &&& amount < min_exchange(tok) ==> r == Err::<Dispatch, ContractError>(
                        ContractError::MinAmount,
                    )
                    &&& amount >= min_exchange(tok) && out > u128::MAX ==> r == Err::<
                        Dispatch,
                        ContractError,
                    >(ContractError::AmountOverflow)
                    &&& amount >= min_exchange(tok) && out <= u128::MAX && !optimistic_ok(
                        old(self).points(),
                        sender_id@,
                        tok,
                        out as u128,
                    ) ==> r == Err::<Dispatch, ContractError>(ledger_error(tok))
                    &&& r is Ok <==> amount >= min_exchange(tok) && out <= u128::MAX && optimistic_ok(
                        old(self).points(),
                        sender_id@,
                        tok,
                        out as u128,
                    )
                    &&& match r {
                        Ok(Dispatch::ExchangeStarted { transfer, pending }) => {
                            &&& final(self).points() == optimistic(
                                old(self).points(),
                                sender_id@,
                                tok,
                                out as u128,
                            )
                            &&& final(self).same_but_points(&*old(self))
                            &&& transfer.ledger_id@ == old(self).token_account_spec(token_out(tok))
                            &&& transfer.receiver_id@ == sender_id@
                            &&& transfer.amount == out
                            &&& transfer.attached_deposit == 1
                            &&& pending.sender_id@ == sender_id@
                            &&& pending.token_in == tok
                            &&& pending.amount == out
                        },
                        Ok(_) => false,
                        Err(_) => true,
                    }
                },
            },
    {
        let ghost pre = *self;
        let token = match self.token_from_account(predecessor_id) {
            Ok(t) => t,
            Err(e) => {
                return Err(e);
            },
        };
        match msg {
            FtMessage::AddNote(note) => {
                if amount < whole_to_yocto(1) {
                    return Err(ContractError::MinimumDeposit);
                }
                let next_entry_id = match self.next_entry_id {
                    Some(n) => n,
                    None => 0,
                };
                if next_entry_id == u64::MAX {
                    return Err(ContractError::IdsExhausted);
                }
                match self.user_points.get(&sender_id) {
                    Some(p) => {
                        if p.checked_add(amount).is_none() {
                            return Err(ContractError::AmountOverflow);
                        }
                    },
                    None => {},
                }
                let id = next_entry_id;
                let ghost view = NoteView { id: Some(id), title: note.title@, body: note.body@ };
                let note = PostedNote { id: Some(id), ..note };
                assert(note@ == view);
                self.internal_add_note(sender_id.clone(), note, next_entry_id);
                let ghost mid = *self;
                let credited = self.credit_points(sender_id, amount);
                assert(credited is Ok);
                assert(self.note_book == mid.note_book);
                assert(self.next_id() == mid.next_id());
                assert(mid.note_added(&pre, sender_id@, view, next_entry_id as int));
                assert forall|b: Seq<char>| #[trigger] self.notes_of(b) == mid.notes_of(b) by {}
                assert forall|b: Seq<char>| #[trigger] self.has_notebook(b) == mid.has_notebook(b) by {}
                assert(self.wf());
                assert(self.next_id() == next_entry_id + 1);
                assert(self.has_notebook(sender_id@));
                assert(self.notes_of(sender_id@) == crate::with_note(pre.notes_of(sender_id@), view));
                assert forall|b: Seq<char>| b != sender_id@ implies #[trigger] self.notes_of(b) == pre.notes_of(b)
                    && self.has_notebook(b) == pre.has_notebook(b) by {
                    assert(self.notes_of(b) == mid.notes_of(b));
                    assert(self.has_notebook(b) == mid.has_notebook(b));
                }

                Ok(Dispatch::NoteAdded { consumed: amount })
            },
            FtMessage::RemoveNote(id) => {
                self.remove_note(&sender_id, id);
                Ok(Dispatch::NoteRemoved { consumed: 0 })
            },
            FtMessage::Exchange => {
                match self.start_exchange(sender_id, token, amount) {
                    Ok((transfer, pending)) => Ok(Dispatch::ExchangeStarted { transfer, pending }),
                    Err(e) => Err(e),
                }
            },
        }
    }
}

} // verus!
