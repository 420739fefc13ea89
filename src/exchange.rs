//! Fixed-rate exchange between the native token and the fungible token.
//!
//! One whole native token buys four fungible tokens. The point ledger is
//! updated optimistically when the outbound transfer is issued, and the
//! update is undone if that transfer fails.
use vstd::prelude::*;

use crate::error::ContractError;
use crate::ft_receiver::Token;
use crate::token_units::{whole_to_yocto, yocto_per_token};
use crate::Contract;

verus! {

/// Fungible tokens per native token.
pub const RATE: u128 = 4;

/// The balance of `a`; an account with no ledger entry has none.
pub open spec fn balance(points: Map<Seq<char>, u128>, a: Seq<char>) -> int {
    if points.contains_key(a) {
        points[a] as int
    } else {
        0
    }
}

/// Crediting `amount` to `a` fits in 128 bits.
pub open spec fn can_credit(points: Map<Seq<char>, u128>, a: Seq<char>, amount: u128) -> bool {
    points.contains_key(a) ==> points[a] + amount <= u128::MAX
}

/// The ledger after crediting `amount` to `a`; an absent entry is opened with `amount`.
pub open spec fn credited(points: Map<Seq<char>, u128>, a: Seq<char>, amount: u128) -> Map<
    Seq<char>,
    u128,
> {
    if points.contains_key(a) {
        points.insert(a, (points[a] + amount) as u128)
    } else {
        points.insert(a, amount)
    }
}

/// Debiting `amount` from `a` does not go below zero; an account with no ledger
/// entry has a balance of zero.
pub open spec fn can_debit(points: Map<Seq<char>, u128>, a: Seq<char>, amount: u128) -> bool {
    balance(points, a) >= amount
}

/// The ledger after debiting `amount` from `a`; debiting nothing from an account
/// with no entry opens it at zero.
pub open spec fn debited(points: Map<Seq<char>, u128>, a: Seq<char>, amount: u128) -> Map<
    Seq<char>,
    u128,
> {
    if points.contains_key(a) {
        points.insert(a, (points[a] - amount) as u128)
    } else {
        points.insert(a, 0)
    }
}

/// The optimistic update can be applied.
pub open spec fn optimistic_ok(
    points: Map<Seq<char>, u128>,
    a: Seq<char>,
    token_in: Token,
    amount: u128,
) -> bool {
    match token_in {
        Token::Near => can_credit(points, a, amount),
        Token::FungibleToken => can_debit(points, a, amount),
    }
}

/// The ledger after the optimistic update: selling the native token credits the
/// sender, selling the fungible token debits it.
pub open spec fn optimistic(
    points: Map<Seq<char>, u128>,
    a: Seq<char>,
    token_in: Token,
    amount: u128,
) -> Map<Seq<char>, u128> {
    match token_in {
        Token::Near => credited(points, a, amount),
        Token::FungibleToken => debited(points, a, amount),
    }
}

/// The compensation can be applied.
pub open spec fn compensation_ok(
    points: Map<Seq<char>, u128>,
    a: Seq<char>,
    token_in: Token,
    amount: u128,
) -> bool {
    match token_in {
        Token::Near => can_debit(points, a, amount),
        Token::FungibleToken => can_credit(points, a, amount),
    }
}

/// The ledger after undoing the optimistic update.
pub open spec fn compensated(
    points: Map<Seq<char>, u128>,
    a: Seq<char>,
    token_in: Token,
    amount: u128,
) -> Map<Seq<char>, u128> {
    match token_in {
        Token::Near => debited(points, a, amount),
        Token::FungibleToken => credited(points, a, amount),
    }
}

/// The token paid out for `token_in`.
pub open spec fn token_out(token_in: Token) -> Token {
    match token_in {
        Token::Near => Token::FungibleToken,
        Token::FungibleToken => Token::Near,
    }
}

/// The smallest amount of `token_in` that can be exchanged, in yocto units.
pub open spec fn min_exchange(token_in: Token) -> int {
    match token_in {
        Token::Near => yocto_per_token(),
        Token::FungibleToken => RATE * yocto_per_token(),
    }
}

/// What `amount` of `token_in` buys; the remainder of the division is kept by the contract.
pub open spec fn exchange_output(token_in: Token, amount: int) -> int {
    match token_in {
        Token::Near => amount * RATE,
        Token::FungibleToken => amount / RATE as int,
    }
}

/// Why the optimistic update for `token_in` can fail: a credit overflows, a debit underflows.
pub open spec fn ledger_error(token_in: Token) -> ContractError {
    match token_in {
        Token::Near => ContractError::AmountOverflow,
        Token::FungibleToken => ContractError::PointsUnderflow,
    }
}

/// The outcome of a transfer on a remote token ledger.
#[derive(Debug, Clone, Copy, PartialEq, Eq, Structural)]
pub enum TransferStatus {
    Success,
    Failure,
}

/// A transfer to be issued on a remote token ledger.
#[derive(Debug, Clone)]
pub struct TransferRequest {
    /// The token ledger that performs the transfer.
    pub ledger_id: String,
    pub receiver_id: String,
    pub amount: u128,
    /// The deposit attached to the transfer call, in yocto units.
    pub attached_deposit: u128,
}

/// An exchange whose transfer has been issued and not yet resolved.
#[derive(Debug, Clone)]
pub struct PendingExchange {
    pub sender_id: String,
    pub token_in: Token,
    pub amount: u128,
}

/// The price of `amount` of `token_in`: the token paid out and how much of it.
pub fn exchange_quote(token_in: Token, amount: u128) -> (r: Result<(Token, u128), ContractError>)
    ensures
        amount < min_exchange(token_in) ==> r == Err::<(Token, u128), ContractError>(
            ContractError::MinAmount,
        ),
        amount >= min_exchange(token_in) && exchange_output(token_in, amount as int) <= u128::MAX
            ==> r == Ok::<(Token, u128), ContractError>(
            (token_out(token_in), exchange_output(token_in, amount as int) as u128),
        ),
        amount >= min_exchange(token_in) && exchange_output(token_in, amount as int) > u128::MAX
            ==> r == Err::<(Token, u128), ContractError>(ContractError::AmountOverflow),
{
    match token_in {
        Token::Near => {
            if amount < whole_to_yocto(1) {
                return Err(ContractError::MinAmount);
            }
            match amount.checked_mul(RATE) {
                Some(out) => Ok((Token::FungibleToken, out)),
                None => Err(ContractError::AmountOverflow),
            }
        },
        Token::FungibleToken => {
            if amount < whole_to_yocto(RATE) {
                return Err(ContractError::MinAmount);
            }
            Ok((Token::Near, amount / RATE))
        },
    }
}

/// After an exchange whose transfer failed, every balance is exactly what it was
/// before the exchange began, in both directions and for every account.
pub proof fn lemma_failed_exchange_restores_balances(
    points: Map<Seq<char>, u128>,
    sender: Seq<char>,
    token_in: Token,
    amount: u128,
)
    requires
        optimistic_ok(points, sender, token_in, amount),
    ensures
        compensation_ok(optimistic(points, sender, token_in, amount), sender, token_in, amount),
        forall|a: Seq<char>|
            #[trigger] balance(
                compensated(optimistic(points, sender, token_in, amount), sender, token_in, amount),
                a,
            ) == balance(points, a),
{
}

impl Contract {
    /// Everything but the point ledger is as in `pre`.
    pub open(crate) spec fn same_but_points(&self, pre: &Contract) -> bool {
        &&& self.greeting == pre.greeting
        &&& self.note_book == pre.note_book
        &&& self.ft_id == pre.ft_id
        &&& self.w_near_id == pre.w_near_id
        &&& self.next_entry_id == pre.next_entry_id
        &&& self.managers == pre.managers
        &&& self.version == pre.version
        &&& self.paused == pre.paused
    }

    /// Credits `amount` to `account`.
    pub(crate) fn credit_points(&mut self, account: String, amount: u128) -> (r: Result<(), ContractError>)
        requires
            old(self).wf(),
        ensures
            final(self).wf(),
            can_credit(old(self).points(), account@, amount) ==> r is Ok && final(self).points()
                == credited(old(self).points(), account@, amount) && final(self).same_but_points(
                &*old(self),
            ),
            !can_credit(old(self).points(), account@, amount) ==> r == Err::<(), ContractError>(
                ContractError::AmountOverflow,
            ) && *final(self) == *old(self),
    {
        let next = match self.user_points.get(&account) {
            Some(p) => {
                match p.checked_add(amount) {
                    Some(n) => n,
                    None => {
                        return Err(ContractError::AmountOverflow);
                    },
                }
            },
            None => amount,
        };
        self.user_points.insert(account, next);
        Ok(())
    }

    /// Debits `amount` from `account`; an account with no entry has nothing to debit.
    pub(crate) fn debit_points(&mut self, account: String, amount: u128) -> (r: Result<(), ContractError>)
        requires
            old(self).wf(),
        ensures
            final(self).wf(),
            can_debit(old(self).points(), account@, amount) ==> r is Ok && final(self).points()
                == debited(old(self).points(), account@, amount) && final(self).same_but_points(
                &*old(self),
            ),
            !can_debit(old(self).points(), account@, amount) ==> r == Err::<(), ContractError>(
                ContractError::PointsUnderflow,
            ) && *final(self) == *old(self),
    {
        let next = match self.user_points.get(&account) {
            Some(p) => {
                if *p < amount {
                    return Err(ContractError::PointsUnderflow);
                }
                *p - amount
            },
            None => {
                if amount > 0 {
                    return Err(ContractError::PointsUnderflow);
                }
                0
            },
        };
        self.user_points.insert(account, next);
        Ok(())
    }

    /// Applies the optimistic ledger update for an exchange of `token_in` that pays
    /// out `amount_out` of `token_out`, and returns the transfer to issue.
    pub fn internal_exchange(
        &mut self,
        sender_id: String,
        token_in: Token,
        token_out: Token,
        amount_out: u128,
    ) -> (r: Result<TransferRequest, ContractError>)
        requires
            old(self).wf(),
        ensures
            final(self).wf(),
            optimistic_ok(old(self).points(), sender_id@, token_in, amount_out) <==> r is Ok,
            match r {
                Ok(t) => {
                    &&& final(self).points() == optimistic(
                        old(self).points(),
                        sender_id@,
                        token_in,
                        amount_out,
                    )
                    &&& final(self).same_but_points(&*old(self))
                    &&& t.ledger_id@ == old(self).token_account_spec(token_out)
                    &&& t.receiver_id@ == sender_id@
                    &&& t.amount == amount_out
                    &&& t.attached_deposit == 1
                },
                Err(e) => {
                    &&& *final(self) == *old(self)
                    &&& token_in == Token::Near ==> e == ContractError::AmountOverflow
                    &&& token_in == Token::FungibleToken ==> e == ContractError::PointsUnderflow
                },
            },
    {
        let destination = self.token_account(token_out);
        let receiver = sender_id.clone();
        let updated = match token_in {
            Token::Near => self.credit_points(sender_id, amount_out),
            Token::FungibleToken => self.debit_points(sender_id, amount_out),
        };
        match updated {
            Ok(()) => Ok(
                TransferRequest {
                    ledger_id: destination,
                    receiver_id: receiver,
                    amount: amount_out,
                    attached_deposit: 1,
                },
            ),
            Err(e) => Err(e),
        }
    }

    /// Starts an exchange of `amount` of `token_in` for `sender_id`: prices it, applies
    /// the optimistic update and returns the transfer to issue with the record that
    /// its resolution needs.
    pub fn start_exchange(&mut self, sender_id: String, token_in: Token, amount: u128) -> (r: Result<
        (TransferRequest, PendingExchange),
        ContractError,
    >)
        requires
            old(self).wf(),
        ensures
            final(self).wf(),
            amount < min_exchange(token_in) ==> r == Err::<
                (TransferRequest, PendingExchange),
                ContractError,
            >(ContractError::MinAmount),
            r is Err ==> *final(self) == *old(self),
            amount >= min_exchange(token_in) && exchange_output(token_in, amount as int) > u128::MAX
                ==> r == Err::<(TransferRequest, PendingExchange), ContractError>(
                ContractError::AmountOverflow,
            ),
            amount >= min_exchange(token_in) && exchange_output(token_in, amount as int) <= u128::MAX
                && !optimistic_ok(
                old(self).points(),
                sender_id@,
                token_in,
                exchange_output(token_in, amount as int) as u128,
            ) ==> r == Err::<(TransferRequest, PendingExchange), ContractError>(
                ledger_error(token_in),
            ),
            r is Ok <==> {
                &&& amount >= min_exchange(token_in)
                &&& exchange_output(token_in, amount as int) <= u128::MAX
                &&& optimistic_ok(
                    old(self).points(),
                    sender_id@,
                    token_in,
                    exchange_output(token_in, amount as int) as u128,
                )
            },
            match r {
                Ok((t, p)) => {
                    let out = exchange_output(token_in, amount as int) as u128;
                    &&& final(self).points() == optimistic(old(self).points(), sender_id@, token_in, out)
                    &&& final(self).same_but_points(&*old(self))
                    &&& t.ledger_id@ == old(self).token_account_spec(token_out(token_in))
                    &&& t.receiver_id@ == sender_id@
                    &&& t.amount == out
                    &&& t.attached_deposit == 1
                    &&& p.sender_id@ == sender_id@
                    &&& p.token_in == token_in
                    &&& p.amount == out
                },
                Err(_) => true,
            },
    {
        let (out_token, amount_out) = match exchange_quote(token_in, amount) {
            Ok(q) => q,
            Err(e) => {
                return Err(e);
            },
        };
        let pending = PendingExchange { sender_id: sender_id.clone(), token_in, amount: amount_out };
        match self.internal_exchange(sender_id, token_in, out_token, amount_out) {
            Ok(t) => Ok((t, pending)),
            Err(e) => Err(e),
        }
    }

    /// Settles an exchange once its transfer is known: on success nothing changes, on
    /// failure the optimistic update is undone. Returns the exchanged amount either way.
    pub fn resolve_exchange(
        &mut self,
        sender_id: String,
        token_in: Token,
        amount: u128,
        status: TransferStatus,
    ) -> (r: Result<u128, ContractError>)
        requires
            old(self).wf(),
        ensures
            final(self).wf(),
            status == TransferStatus::Success ==> r == Ok::<u128, ContractError>(amount)
                && *final(self) == *old(self),
            status == TransferStatus::Failure ==> {
                &&& r is Ok <==> compensation_ok(old(self).points(), sender_id@, token_in, amount)
                &&& r is Ok ==> r == Ok::<u128, ContractError>(amount) && final(self).points()
                    == compensated(old(self).points(), sender_id@, token_in, amount)
                    && final(self).same_but_points(&*old(self))
                &&& r is Err ==> *final(self) == *old(self)
            },
    {
        match status {
            TransferStatus::Success => Ok(amount),
            TransferStatus::Failure => {
                let undone = match token_in {
                    Token::Near => self.debit_points(sender_id, amount),
                    Token::FungibleToken => self.credit_points(sender_id, amount),
                };
                match undone {
                    Ok(()) => Ok(amount),
                    Err(e) => Err(e),
                }
            },
        }
    }
}

} // verus!
