//! The category-token backend.
//!
//! Tokens live in classes identified by a 128-bit asset id. Each class is
//! created with an owner and a minimum balance; the minimum balance guards
//! the keep-alive transfer policy, under which a transfer may not drain the
//! source account below it. Minting and burning change supply one-for-one
//! with the amounts the settlement engine exchanges.

use vstd::prelude::*;
use vstd::hash_map::HashMapWithView;

verus! {

broadcast use vstd::std_specs::hash::group_hash_axioms;

/// Why a token operation was refused.
#[derive(Clone, Copy, Debug, PartialEq, Eq, Structural)]
pub enum Error {
    /// The asset id is already taken.
    InUse,
    /// No asset class exists under the id.
    Unknown,
    /// The source account's token balance cannot cover the amount.
    BalanceLow,
    /// The transfer would drain a kept-alive account below the class's
    /// minimum balance.
    WouldDie,
    /// A balance would exceed the representable range.
    Overflow,
}

/// One asset class: its configuration and the balances held in it.
struct Asset {
    owner: u64,
    min_balance: u128,
    balances: HashMapWithView<u64, u128>,
}

/// The token ledger: every asset class, keyed by asset id.
pub struct Assets {
    assets: HashMapWithView<u128, Asset>,
}

impl Assets {
    /// Whether an asset class exists under `id`.
    pub closed spec fn spec_asset_exists(self, id: u128) -> bool {
        self.assets@.contains_key(id)
    }

    /// The minimum balance the class under `id` was created with.
    pub closed spec fn spec_min_balance(self, id: u128) -> u128 {
        if self.assets@.contains_key(id) {
            self.assets@[id].min_balance
        } else {
            0
        }
    }

    /// The owner the class under `id` was created with.
    pub closed spec fn spec_owner(self, id: u128) -> u64 {
        if self.assets@.contains_key(id) {
            self.assets@[id].owner
        } else {
            0
        }
    }

    /// `who`'s balance of the token under `id`.
    pub closed spec fn spec_balance_of(self, id: u128, who: u64) -> u128 {
        if self.assets@.contains_key(id) && self.assets@[id].balances@.contains_key(who) {
            self.assets@[id].balances@[who]
        } else {
            0
        }
    }

    /// All classes other than `id` are untouched between `pre` and `post`.
    pub open spec fn spec_same_except(pre: Assets, post: Assets, id: u128) -> bool {
        &&& forall|a: u128|
            a != id ==> #[trigger] post.spec_asset_exists(a) == pre.spec_asset_exists(a)
        &&& forall|a: u128| a != id ==> #[trigger] post.spec_min_balance(a) == pre.spec_min_balance(a)
        &&& forall|a: u128| a != id ==> #[trigger] post.spec_owner(a) == pre.spec_owner(a)
        &&& forall|a: u128, w: u64|
            a != id ==> #[trigger] post.spec_balance_of(a, w) == pre.spec_balance_of(a, w)
    }

    /// The class under `id` keeps its existence and configuration between
    /// `pre` and `post`.
    pub open spec fn spec_same_class(pre: Assets, post: Assets, id: u128) -> bool {
        &&& post.spec_asset_exists(id) == pre.spec_asset_exists(id)
        &&& post.spec_min_balance(id) == pre.spec_min_balance(id)
        &&& post.spec_owner(id) == pre.spec_owner(id)
    }

    /// Creates an empty token ledger.
    pub fn new() -> (r: Assets)
        ensures
            forall|a: u128| !#[trigger] r.spec_asset_exists(a),
            forall|a: u128, w: u64| #[trigger] r.spec_balance_of(a, w) == 0,
    {
        Assets { assets: HashMapWithView::new() }
    }

    /// `who`'s balance of the token under `id`.
    pub fn balance_of(&self, id: u128, who: u64) -> (r: u128)
        ensures
            r == self.spec_balance_of(id, who),
    {
        match self.assets.get(&id) {
            Some(asset) => match asset.balances.get(&who) {
                Some(b) => *b,
                None => 0,
            },
            None => 0,
        }
    }

    /// Whether an asset class exists under `id`.
    pub fn asset_exists(&self, id: u128) -> (r: bool)
        ensures
            r == self.spec_asset_exists(id),
    {
        self.assets.contains_key(&id)
    }

    /// Whether creating a class under `id` would go through.
    pub open spec fn spec_create_check(self, id: u128) -> Result<(), Error> {
        if self.spec_asset_exists(id) {
            Err(Error::InUse)
        } else {
            Ok(())
        }
    }

    /// Registers a new asset class. Fails if the id is taken; on failure
    /// nothing changes.
    pub fn create(&mut self, id: u128, owner: u64, min_balance: u128) -> (r: Result<(), Error>)
        ensures
            r == old(self).spec_create_check(id),
            r is Err ==> *final(self) == *old(self),
            r is Ok ==> {
                &&& final(self).spec_asset_exists(id)
                &&& final(self).spec_min_balance(id) == min_balance
                &&& final(self).spec_owner(id) == owner
                &&& forall|w: u64| #[trigger] final(self).spec_balance_of(id, w) == 0
                &&& Assets::spec_same_except(*old(self), *final(self), id)
            },
    {
        if self.assets.contains_key(&id) {
            return Err(Error::InUse);
        }
        self.assets.insert(id, Asset { owner, min_balance, balances: HashMapWithView::new() });
        Ok(())
    }

    /// Whether a mint would go through, and the error otherwise.
    pub open spec fn spec_mint_check(self, id: u128, who: u64, amount: u128) -> Result<(), Error> {
        if !self.spec_asset_exists(id) {
            Err(Error::Unknown)
        } else if self.spec_balance_of(id, who) + amount > u128::MAX {
            Err(Error::Overflow)
        } else {
            Ok(())
        }
    }

    /// How a successful mint changes the ledger.
    pub open spec fn spec_mint_updates(
        pre: Assets,
        post: Assets,
        id: u128,
        who: u64,
        amount: u128,
    ) -> bool {
        &&& post.spec_balance_of(id, who) == pre.spec_balance_of(id, who) + amount
        &&& forall|w: u64|
            w != who ==> #[trigger] post.spec_balance_of(id, w) == pre.spec_balance_of(id, w)
        &&& Assets::spec_same_class(pre, post, id)
        &&& Assets::spec_same_except(pre, post, id)
    }

    /// Decides a mint without performing it, so that a caller can make a
    /// multi-step operation all-or-nothing.
    pub fn check_mint(&self, id: u128, who: u64, amount: u128) -> (r: Result<(), Error>)
        ensures
            r == self.spec_mint_check(id, who, amount),
    {
        if !self.asset_exists(id) {
            return Err(Error::Unknown);
        }
        if amount > u128::MAX - self.balance_of(id, who) {
            return Err(Error::Overflow);
        }
        Ok(())
    }

    /// Creates `amount` new tokens of the class under `id` in `who`'s
    /// balance. Fails if the class does not exist or the balance would
    /// overflow; on failure nothing changes.
    pub fn mint_into(&mut self, id: u128, who: u64, amount: u128) -> (r: Result<(), Error>)
        ensures
            r == old(self).spec_mint_check(id, who, amount),
            r is Err ==> *final(self) == *old(self),
            r is Ok ==> Assets::spec_mint_updates(*old(self), *final(self), id, who, amount),
    {
        let balance = match self.assets.get(&id) {
            None => {
                return Err(Error::Unknown);
            },
            Some(asset) => match asset.balances.get(&who) {
                Some(b) => *b,
                None => 0,
            },
        };
        if amount > u128::MAX - balance {
            return Err(Error::Overflow);
        }
        let mut asset = self.assets.remove(&id).unwrap();
        asset.balances.insert(who, balance + amount);
        self.assets.insert(id, asset);
        Ok(())
    }

    /// Whether a burn would go through, and the error otherwise.
    pub open spec fn spec_burn_check(self, id: u128, who: u64, amount: u128) -> Result<(), Error> {
        if !self.spec_asset_exists(id) {
            Err(Error::Unknown)
        } else if self.spec_balance_of(id, who) < amount {
            Err(Error::BalanceLow)
        } else {
            Ok(())
        }
    }

    /// How a successful burn changes the ledger.
    pub open spec fn spec_burn_updates(
        pre: Assets,
        post: Assets,
        id: u128,
        who: u64,
        amount: u128,
    ) -> bool {
        &&& post.spec_balance_of(id, who) == pre.spec_balance_of(id, who) - amount
        &&& forall|w: u64|
            w != who ==> #[trigger] post.spec_balance_of(id, w) == pre.spec_balance_of(id, w)
        &&& Assets::spec_same_class(pre, post, id)
        &&& Assets::spec_same_except(pre, post, id)
    }

    /// Decides a burn without performing it, so that a caller can make a
    /// multi-step operation all-or-nothing.
    pub fn check_burn(&self, id: u128, who: u64, amount: u128) -> (r: Result<(), Error>)
        ensures
            r == self.spec_burn_check(id, who, amount),
    {
        if !self.asset_exists(id) {
            return Err(Error::Unknown);
        }
        if self.balance_of(id, who) < amount {
            return Err(Error::BalanceLow);
        }
        Ok(())
    }

    /// Destroys `amount` tokens of the class under `id` from `who`'s
    /// balance. Fails if the class does not exist or the balance cannot
    /// cover the amount; on failure nothing changes.
    pub fn burn_from(&mut self, id: u128, who: u64, amount: u128) -> (r: Result<(), Error>)
        ensures
            r == old(self).spec_burn_check(id, who, amount),
            r is Err ==> *final(self) == *old(self),
            r is Ok ==> Assets::spec_burn_updates(*old(self), *final(self), id, who, amount),
    {
        let balance = match self.assets.get(&id) {
            None => {
                return Err(Error::Unknown);
            },
            Some(asset) => match asset.balances.get(&who) {
                Some(b) => *b,
                None => 0,
            },
        };
        if balance < amount {
            return Err(Error::BalanceLow);
        }
        let mut asset = self.assets.remove(&id).unwrap();
        asset.balances.insert(who, balance - amount);
        self.assets.insert(id, asset);
        Ok(())
    }

    /// Whether a token transfer would go through, and the error otherwise.
    pub open spec fn spec_transfer_check(
        self,
        id: u128,
        from: u64,
        to: u64,
        amount: u128,
        keep_alive: bool,
    ) -> Result<(), Error> {
        if !self.spec_asset_exists(id) {
            Err(Error::Unknown)
        } else if self.spec_balance_of(id, from) < amount {
            Err(Error::BalanceLow)
        } else if from == to {
            Ok(())
        } else if keep_alive && self.spec_balance_of(id, from) - amount < self.spec_min_balance(
            id,
        ) {
            Err(Error::WouldDie)
        } else if self.spec_balance_of(id, to) + amount > u128::MAX {
            Err(Error::Overflow)
        } else {
            Ok(())
        }
    }

    /// How a successful token transfer changes the ledger.
    pub open spec fn spec_transfer_updates(
        pre: Assets,
        post: Assets,
        id: u128,
        from: u64,
        to: u64,
        amount: u128,
    ) -> bool {
        &&& if from == to {
            forall|w: u64| #[trigger] post.spec_balance_of(id, w) == pre.spec_balance_of(id, w)
        } else {
            &&& post.spec_balance_of(id, from) == pre.spec_balance_of(id, from) - amount
            &&& post.spec_balance_of(id, to) == pre.spec_balance_of(id, to) + amount
            &&& forall|w: u64|
                w != from && w != to ==> #[trigger] post.spec_balance_of(id, w)
                    == pre.spec_balance_of(id, w)
        }
        &&& Assets::spec_same_class(pre, post, id)
        &&& Assets::spec_same_except(pre, post, id)
    }

    /// Moves `amount` tokens of the class under `id` from `from` to `to`.
    ///
    /// Fails if the class does not exist, if `from` cannot cover the amount,
    /// if `keep_alive` is set and `from` would be drained below the class's
    /// minimum balance, or if `to`'s balance would overflow. On failure
    /// nothing changes.
    pub fn transfer(
        &mut self,
        id: u128,
        from: u64,
        to: u64,
        amount: u128,
        keep_alive: bool,
    ) -> (r: Result<(), Error>)
        ensures
            r == old(self).spec_transfer_check(id, from, to, amount, keep_alive),
            r is Err ==> *final(self) == *old(self),
            r is Ok ==> Assets::spec_transfer_updates(
                *old(self),
                *final(self),
                id,
                from,
                to,
                amount,
            ),
    {
        let (from_balance, min_balance) = match self.assets.get(&id) {
            None => {
                return Err(Error::Unknown);
            },
            Some(asset) => {
                let b = match asset.balances.get(&from) {
                    Some(b) => *b,
                    None => 0,
                };
                (b, asset.min_balance)
            },
        };
        if from_balance < amount {
            return Err(Error::BalanceLow);
        }
        if from == to {
            return Ok(());
        }
        let remaining = from_balance - amount;
        if keep_alive && remaining < min_balance {
            return Err(Error::WouldDie);
        }
        let to_balance = self.balance_of(id, to);
        if amount > u128::MAX - to_balance {
            return Err(Error::Overflow);
        }
        let mut asset = self.assets.remove(&id).unwrap();
        asset.balances.insert(from, remaining);
        asset.balances.insert(to, to_balance + amount);
        self.assets.insert(id, asset);
        Ok(())
    }
}

} // verus!
