//! The balances pallet: a ledger from account identity to an unsigned
//! balance. Absence of an account means a balance of zero, never an error.
//! A transfer validates both the debit and the credit before it mutates
//! anything, so a failing transfer leaves the ledger untouched.

use vstd::prelude::*;
use vstd::hash_map::StringHashMap;
use crate::support::{DispatchError, DispatchResult};

verus! {

/// The balance an account holds in the ledger `m`: the stored value, or
/// zero when the account is absent.
pub open spec fn balance_of(m: Map<Seq<char>, u128>, who: Seq<char>) -> u128 {
    if m.contains_key(who) {
        m[who]
    } else {
        0
    }
}

/// The ledger `m` after the debit side of a transfer alone: `caller`'s
/// balance lowered by `amount`.
pub open spec fn debited(m: Map<Seq<char>, u128>, caller: Seq<char>, amount: u128) -> Map<
    Seq<char>,
    u128,
> {
    m.insert(caller, (balance_of(m, caller) - amount) as u128)
}

/// Whether a transfer of `amount` from `caller` to `to` succeeds on the
/// ledger `m`, and with which error it fails otherwise. The debit is
/// checked first, so an underflow masks a simultaneous overflow; the
/// credit is checked against the ledger as it stands after the debit, so
/// a transfer to oneself can never overflow.
pub open spec fn transfer_check(
    m: Map<Seq<char>, u128>,
    caller: Seq<char>,
    to: Seq<char>,
    amount: u128,
) -> DispatchResult {
    if balance_of(m, caller) < amount {
        Err(DispatchError::InsufficientFunds)
    } else if balance_of(debited(m, caller, amount), to) + amount > u128::MAX {
        Err(DispatchError::Overflow)
    } else {
        Ok(())
    }
}

/// The ledger after a transfer: the debit is applied first and the credit
/// is computed over the debited ledger, so a transfer to oneself nets no
/// change; a failing transfer leaves the ledger unchanged.
pub open spec fn transfer_effect(
    m: Map<Seq<char>, u128>,
    caller: Seq<char>,
    to: Seq<char>,
    amount: u128,
) -> Map<Seq<char>, u128> {
    if transfer_check(m, caller, to, amount) is Ok {
        let after_debit = debited(m, caller, amount);
        after_debit.insert(to, (balance_of(after_debit, to) + amount) as u128)
    } else {
        m
    }
}

/// The balances pallet: keeps track of how much balance each account has.
pub struct Pallet {
    balances: StringHashMap<u128>,
}

impl View for Pallet {
    type V = Map<Seq<char>, u128>;

    closed spec fn view(&self) -> Map<Seq<char>, u128> {
        self.balances@
    }
}

impl Pallet {
    /// Creates a pallet with an empty ledger.
    pub fn new() -> (result: Self)
        ensures
            result@ == Map::<Seq<char>, u128>::empty(),
    {
        Pallet { balances: StringHashMap::new() }
    }

    /// Sets the balance of account `who` to `amount`, unconditionally.
    /// Used for seeding state; not reachable through dispatch.
    pub fn set_balance(&mut self, who: &String, amount: u128)
        ensures
            final(self)@ == old(self)@.insert(who@, amount),
    {
        self.balances.insert(who.clone(), amount);
    }

    /// Returns the balance of account `who`, zero if the account has no
    /// stored balance.
    pub fn balance(&self, who: &String) -> (amount: u128)
        ensures
            amount == balance_of(self@, who@),
    {
        match self.balances.get(who.as_str()) {
            Some(amount) => *amount,
            None => 0,
        }
    }

    /// Transfers `amount` from `caller` to `to`. Fails with
    /// `InsufficientFunds` if `caller`'s balance cannot cover the amount,
    /// then with `Overflow` if `to`'s balance — as it stands once the
    /// debit is accounted for — cannot absorb it; on either failure no
    /// balance changes. Only after both checks pass are the two new
    /// balances written, so a successful transfer conserves the sum of
    /// the involved balances, a transfer to oneself included.
    pub fn transfer(&mut self, caller: String, to: String, amount: u128) -> (result:
        DispatchResult)
        ensures
            result == transfer_check(old(self)@, caller@, to@, amount),
            final(self)@ == transfer_effect(old(self)@, caller@, to@, amount),
    {
        let caller_balance = self.balance(&caller);
        let new_caller_balance = match caller_balance.checked_sub(amount) {
            Some(b) => b,
            None => {
                return Err(DispatchError::InsufficientFunds);
            },
        };
        let to_balance = if caller == to {
            new_caller_balance
        } else {
            self.balance(&to)
        };
        let new_to_balance = match to_balance.checked_add(amount) {
            Some(b) => b,
            None => {
                return Err(DispatchError::Overflow);
            },
        };
        self.balances.insert(caller, new_caller_balance);
        self.balances.insert(to, new_to_balance);
        Ok(())
    }
}

/// The call a block extrinsic can address to this pallet.
#[allow(non_camel_case_types)]
pub enum Call {
    transfer { to: String, amount: u128 },
}

impl Clone for Call {
    fn clone(&self) -> (result: Self)
        ensures
            result == *self,
    {
        match self {
            Call::transfer { to, amount } => Call::transfer { to: to.clone(), amount: *amount },
        }
    }
}

/// Whether a call to this pallet succeeds on the ledger `m`, and with
/// which error it fails otherwise.
pub open spec fn dispatch_check(m: Map<Seq<char>, u128>, caller: Seq<char>, call: Call)
    -> DispatchResult {
    match call {
        Call::transfer { to, amount } => transfer_check(m, caller, to@, amount),
    }
}

/// The ledger after a call to this pallet; unchanged when the call fails.
pub open spec fn dispatch_effect(m: Map<Seq<char>, u128>, caller: Seq<char>, call: Call) -> Map<
    Seq<char>,
    u128,
> {
    match call {
        Call::transfer { to, amount } => transfer_effect(m, caller, to@, amount),
    }
}

impl Pallet {
    /// Routes a call from `caller` to the owning operation of this pallet.
    pub fn dispatch(&mut self, caller: String, call: Call) -> (result: DispatchResult)
        ensures
            result == dispatch_check(old(self)@, caller@, call),
            final(self)@ == dispatch_effect(old(self)@, caller@, call),
    {
        match call {
            Call::transfer { to, amount } => self.transfer(caller, to, amount),
        }
    }
}

/// For any unknown account the ledger reports a balance of zero.
pub proof fn lemma_unknown_account_balance_is_zero(m: Map<Seq<char>, u128>, who: Seq<char>)
    requires
        !m.contains_key(who),
    ensures
        balance_of(m, who) == 0,
{
}

/// A transfer that would underflow the sender's balance fails with
/// `InsufficientFunds` and leaves both involved balances — indeed the whole
/// ledger — unchanged.
pub proof fn lemma_transfer_underflow_unchanged(
    m: Map<Seq<char>, u128>,
    caller: Seq<char>,
    to: Seq<char>,
    amount: u128,
)
    requires
        balance_of(m, caller) < amount,
    ensures
        transfer_check(m, caller, to, amount) == Err::<(), DispatchError>(
            DispatchError::InsufficientFunds,
        ),
        transfer_effect(m, caller, to, amount) == m,
{
}

/// A transfer that would overflow the recipient's balance — as it stands
/// once the debit is accounted for — fails with `Overflow` and leaves both
/// involved balances — indeed the whole ledger — unchanged.
pub proof fn lemma_transfer_overflow_unchanged(
    m: Map<Seq<char>, u128>,
    caller: Seq<char>,
    to: Seq<char>,
    amount: u128,
)
    requires
        balance_of(m, caller) >= amount,
        balance_of(debited(m, caller, amount), to) + amount > u128::MAX,
    ensures
        transfer_check(m, caller, to, amount) == Err::<(), DispatchError>(DispatchError::Overflow),
        transfer_effect(m, caller, to, amount) == m,
{
}

/// Every successful transfer conserves the sum of the two involved
/// accounts' balances, a transfer to oneself included.
pub proof fn lemma_transfer_preserves_sum(
    m: Map<Seq<char>, u128>,
    caller: Seq<char>,
    to: Seq<char>,
    amount: u128,
)
    requires
        transfer_check(m, caller, to, amount) is Ok,
    ensures
        balance_of(transfer_effect(m, caller, to, amount), caller) + balance_of(
            transfer_effect(m, caller, to, amount),
            to,
        ) == balance_of(m, caller) + balance_of(m, to),
{
}

} // verus!
