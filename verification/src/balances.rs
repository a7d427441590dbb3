//! The native-currency backend.
//!
//! Every account holds a free and a reserved balance. An account exists while
//! its total balance is positive; operations that would leave a live account
//! below the existential deposit are refused when asked to keep the account
//! alive, and deposits that would create an account below that threshold are
//! silently dropped, mirroring the conventional chain-currency policy.

use vstd::prelude::*;
use vstd::hash_map::HashMapWithView;

verus! {

broadcast use vstd::std_specs::hash::group_hash_axioms;

/// Why a currency operation was refused.
#[derive(Clone, Copy, Debug, PartialEq, Eq, Structural)]
pub enum Error {
    /// The source account's free balance cannot cover the amount.
    InsufficientBalance,
    /// The operation would leave a kept-alive account below the existential
    /// deposit.
    KeepAlive,
    /// The beneficiary would be created with less than the existential
    /// deposit.
    ExistentialDeposit,
    /// A balance would exceed the representable range.
    Overflow,
}

/// One account's native-currency balances.
#[derive(Clone, Copy, Debug, PartialEq, Eq, Structural)]
pub struct AccountData {
    /// Balance at the account's free disposal.
    pub free: u128,
    /// Balance held back as collateral, not spendable.
    pub reserved: u128,
}

/// The native-currency ledger: balances per account, and the existential
/// deposit below which accounts are not created.
pub struct Balances {
    accounts: HashMapWithView<u64, AccountData>,
    existential_deposit: u128,
}

impl Balances {
    /// The balances of `who`; an untracked account holds nothing.
    pub closed spec fn spec_account(self, who: u64) -> AccountData {
        if self.accounts@.contains_key(who) {
            self.accounts@[who]
        } else {
            AccountData { free: 0, reserved: 0 }
        }
    }

    /// The free balance of `who`.
    pub open spec fn spec_free(self, who: u64) -> u128 {
        self.spec_account(who).free
    }

    /// The reserved balance of `who`.
    pub open spec fn spec_reserved(self, who: u64) -> u128 {
        self.spec_account(who).reserved
    }

    /// The total balance of `who`; the account exists while it is positive.
    pub open spec fn spec_total(self, who: u64) -> int {
        self.spec_free(who) + self.spec_reserved(who)
    }

    /// The existential deposit this ledger was configured with.
    pub closed spec fn spec_ed(self) -> u128 {
        self.existential_deposit
    }

    /// Creates an empty ledger with the given existential deposit.
    pub fn new(existential_deposit: u128) -> (r: Balances)
        ensures
            forall|w: u64| #[trigger] r.spec_account(w) == (AccountData { free: 0, reserved: 0 }),
            r.spec_ed() == existential_deposit,
    {
        Balances { accounts: HashMapWithView::new(), existential_deposit }
    }

    fn account(&self, who: u64) -> (acc: AccountData)
        ensures
            acc == self.spec_account(who),
    {
        match self.accounts.get(&who) {
            Some(a) => *a,
            None => AccountData { free: 0, reserved: 0 },
        }
    }

    /// The free balance of `who`.
    pub fn free_balance(&self, who: u64) -> (r: u128)
        ensures
            r == self.spec_free(who),
    {
        self.account(who).free
    }

    /// The reserved balance of `who`.
    pub fn reserved_balance(&self, who: u64) -> (r: u128)
        ensures
            r == self.spec_reserved(who),
    {
        self.account(who).reserved
    }

    /// Whether a transfer would go through, and the error it is refused with
    /// otherwise.
    pub open spec fn spec_transfer_check(
        self,
        from: u64,
        to: u64,
        amount: u128,
        keep_alive: bool,
    ) -> Result<(), Error> {
        if self.spec_free(from) < amount {
            Err(Error::InsufficientBalance)
        } else if from == to {
            Ok(())
        } else if keep_alive && self.spec_free(from) - amount + self.spec_reserved(from)
            < self.spec_ed() {
            Err(Error::KeepAlive)
        } else if self.spec_total(to) == 0 && amount < self.spec_ed() {
            Err(Error::ExistentialDeposit)
        } else if self.spec_free(to) + amount > u128::MAX {
            Err(Error::Overflow)
        } else {
            Ok(())
        }
    }

    /// How a successful transfer changes the ledger.
    pub open spec fn spec_transfer_updates(
        pre: Balances,
        post: Balances,
        from: u64,
        to: u64,
        amount: u128,
    ) -> bool {
        &&& post.spec_ed() == pre.spec_ed()
        &&& if from == to {
            forall|w: u64| #[trigger] post.spec_account(w) == pre.spec_account(w)
        } else {
            &&& post.spec_free(from) == pre.spec_free(from) - amount
            &&& post.spec_free(to) == pre.spec_free(to) + amount
            &&& post.spec_reserved(from) == pre.spec_reserved(from)
            &&& post.spec_reserved(to) == pre.spec_reserved(to)
            &&& forall|w: u64|
                w != from && w != to ==> #[trigger] post.spec_account(w) == pre.spec_account(w)
        }
    }

    /// Decides a transfer without performing it, so that a caller can make
    /// a multi-step operation all-or-nothing.
    pub fn check_transfer(&self, from: u64, to: u64, amount: u128, keep_alive: bool) -> (r: Result<
        (),
        Error,
    >)
        ensures
            r == self.spec_transfer_check(from, to, amount, keep_alive),
    {
        let from_acc = self.account(from);
        if from_acc.free < amount {
            return Err(Error::InsufficientBalance);
        }
        if from == to {
            return Ok(());
        }
        let remaining = from_acc.free - amount;
        if keep_alive && remaining < self.existential_deposit && from_acc.reserved
            < self.existential_deposit - remaining {
            return Err(Error::KeepAlive);
        }
        let to_acc = self.account(to);
        if to_acc.free == 0 && to_acc.reserved == 0 && amount < self.existential_deposit {
            return Err(Error::ExistentialDeposit);
        }
        if amount > u128::MAX - to_acc.free {
            return Err(Error::Overflow);
        }
        Ok(())
    }

    /// Moves `amount` of free balance from `from` to `to`.
    ///
    /// Fails if `from` cannot cover the amount; if `keep_alive` is set and
    /// `from` would be left below the existential deposit; if `to` would be
    /// created below the existential deposit; or if `to`'s balance would
    /// overflow. On failure nothing changes.
    pub fn transfer(&mut self, from: u64, to: u64, amount: u128, keep_alive: bool) -> (r: Result<
        (),
        Error,
    >)
        ensures
            r == old(self).spec_transfer_check(from, to, amount, keep_alive),
            r is Err ==> *final(self) == *old(self),
            r is Ok ==> Balances::spec_transfer_updates(*old(self), *final(self), from, to, amount),
    {
        let from_acc = self.account(from);
        if from_acc.free < amount {
            return Err(Error::InsufficientBalance);
        }
        if from == to {
            return Ok(());
        }
        let remaining = from_acc.free - amount;
        if keep_alive && remaining < self.existential_deposit && from_acc.reserved
            < self.existential_deposit - remaining {
            return Err(Error::KeepAlive);
        }
        let to_acc = self.account(to);
        if to_acc.free == 0 && to_acc.reserved == 0 && amount < self.existential_deposit {
            return Err(Error::ExistentialDeposit);
        }
        if amount > u128::MAX - to_acc.free {
            return Err(Error::Overflow);
        }
        self.accounts.insert(from, AccountData { free: remaining, reserved: from_acc.reserved });
        self.accounts.insert(to, AccountData { free: to_acc.free + amount, reserved: to_acc.reserved });
        Ok(())
    }

    /// Whether a reserve would go through, and the error otherwise.
    pub open spec fn spec_reserve_check(self, who: u64, amount: u128) -> Result<(), Error> {
        if self.spec_free(who) < amount {
            Err(Error::InsufficientBalance)
        } else if self.spec_reserved(who) + amount > u128::MAX {
            Err(Error::Overflow)
        } else {
            Ok(())
        }
    }

    /// How a successful reserve changes the ledger.
    pub open spec fn spec_reserve_updates(
        pre: Balances,
        post: Balances,
        who: u64,
        amount: u128,
    ) -> bool {
        &&& post.spec_ed() == pre.spec_ed()
        &&& post.spec_free(who) == pre.spec_free(who) - amount
        &&& post.spec_reserved(who) == pre.spec_reserved(who) + amount
        &&& forall|w: u64| w != who ==> #[trigger] post.spec_account(w) == pre.spec_account(w)
    }

    /// Moves `amount` of `who`'s free balance into its reserved balance.
    /// Fails if the free balance cannot cover it; on failure nothing changes.
    pub fn reserve(&mut self, who: u64, amount: u128) -> (r: Result<(), Error>)
        ensures
            r == old(self).spec_reserve_check(who, amount),
            r is Err ==> *final(self) == *old(self),
            r is Ok ==> Balances::spec_reserve_updates(*old(self), *final(self), who, amount),
    {
        let acc = self.account(who);
        if acc.free < amount {
            return Err(Error::InsufficientBalance);
        }
        if amount > u128::MAX - acc.reserved {
            return Err(Error::Overflow);
        }
        self.accounts.insert(
            who,
            AccountData { free: acc.free - amount, reserved: acc.reserved + amount },
        );
        Ok(())
    }

    /// Whether a withdrawal would go through, and the error otherwise.
    pub open spec fn spec_withdraw_check(
        self,
        who: u64,
        amount: u128,
        keep_alive: bool,
    ) -> Result<(), Error> {
        if self.spec_free(who) < amount {
            Err(Error::InsufficientBalance)
        } else if keep_alive && self.spec_free(who) - amount + self.spec_reserved(who)
            < self.spec_ed() {
            Err(Error::KeepAlive)
        } else {
            Ok(())
        }
    }

    /// How a successful withdrawal changes the ledger.
    pub open spec fn spec_withdraw_updates(
        pre: Balances,
        post: Balances,
        who: u64,
        amount: u128,
    ) -> bool {
        &&& post.spec_ed() == pre.spec_ed()
        &&& post.spec_free(who) == pre.spec_free(who) - amount
        &&& post.spec_reserved(who) == pre.spec_reserved(who)
        &&& forall|w: u64| w != who ==> #[trigger] post.spec_account(w) == pre.spec_account(w)
    }

    /// Destroys `amount` of `who`'s free balance.
    ///
    /// Fails if the free balance cannot cover it, or if `keep_alive` is set
    /// and the account would be left below the existential deposit. On
    /// failure nothing changes.
    pub fn withdraw(&mut self, who: u64, amount: u128, keep_alive: bool) -> (r: Result<(), Error>)
        ensures
            r == old(self).spec_withdraw_check(who, amount, keep_alive),
            r is Err ==> *final(self) == *old(self),
            r is Ok ==> Balances::spec_withdraw_updates(*old(self), *final(self), who, amount),
    {
        let acc = self.account(who);
        if acc.free < amount {
            return Err(Error::InsufficientBalance);
        }
        let remaining = acc.free - amount;
        if keep_alive && remaining < self.existential_deposit && acc.reserved
            < self.existential_deposit - remaining {
            return Err(Error::KeepAlive);
        }
        self.accounts.insert(who, AccountData { free: remaining, reserved: acc.reserved });
        Ok(())
    }

    /// How an infallible creating deposit changes the ledger: the amount is
    /// credited to `who`'s free balance, unless it would create the account
    /// below the existential deposit or overflow its balance, in which case
    /// nothing happens.
    pub open spec fn spec_deposit_creating_updates(
        pre: Balances,
        post: Balances,
        who: u64,
        amount: u128,
    ) -> bool {
        &&& post.spec_ed() == pre.spec_ed()
        &&& if pre.spec_total(who) == 0 && amount < pre.spec_ed() {
            forall|w: u64| #[trigger] post.spec_account(w) == pre.spec_account(w)
        } else if pre.spec_free(who) + amount > u128::MAX {
            forall|w: u64| #[trigger] post.spec_account(w) == pre.spec_account(w)
        } else {
            &&& post.spec_free(who) == pre.spec_free(who) + amount
            &&& post.spec_reserved(who) == pre.spec_reserved(who)
            &&& forall|w: u64| w != who ==> #[trigger] post.spec_account(w) == pre.spec_account(w)
        }
    }

    /// Credits `amount` to `who`, creating the account if needed. Never
    /// fails: a deposit that would create an account below the existential
    /// deposit, or overflow its balance, is silently dropped.
    pub fn deposit_creating(&mut self, who: u64, amount: u128)
        ensures
            Balances::spec_deposit_creating_updates(*old(self), *final(self), who, amount),
    {
        let acc = self.account(who);
        if acc.free == 0 && acc.reserved == 0 && amount < self.existential_deposit {
            return;
        }
        if amount > u128::MAX - acc.free {
            return;
        }
        self.accounts.insert(who, AccountData { free: acc.free + amount, reserved: acc.reserved });
    }

    /// Overwrites `who`'s balances outright. A privileged bootstrap and test
    /// helper, performing no validation by design.
    pub fn set_balance(&mut self, who: u64, free: u128, reserved: u128)
        ensures
            final(self).spec_account(who) == (AccountData { free, reserved }),
            final(self).spec_ed() == old(self).spec_ed(),
            forall|w: u64|
                w != who ==> #[trigger] final(self).spec_account(w) == old(self).spec_account(w),
    {
        self.accounts.insert(who, AccountData { free, reserved });
    }
}

} // verus!
