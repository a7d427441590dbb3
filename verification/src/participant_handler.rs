//! Two-phase onboarding of NGOs and sellers.
//!
//! An applicant with a verified identity stakes a fixed collateral and
//! enters a waiting list; a governance approval moves the entry, unchanged,
//! into the active list. Active membership is the eligibility gate the
//! settlement engine and the marketplace consult. The identity oracle and
//! the governance-origin check are external collaborators: the host hands
//! this module the oracle's verdict and only forwards approvals it has
//! authorized.

use vstd::prelude::*;
use vstd::hash_map::HashMapWithView;
use crate::balances;
use crate::balances::Balances;

verus! {

broadcast use vstd::std_specs::hash::group_hash_axioms;

/// A product category; its stable numeric id doubles as the token-asset id.
#[derive(Clone, Copy, Debug, PartialEq, Eq, Structural)]
pub enum Category {
    Pharmaceutical,
    Stationery,
    Grocery,
    Clothing,
}

impl Category {
    /// The stable numeric id of the category.
    pub open spec fn spec_id(self) -> u8 {
        match self {
            Category::Pharmaceutical => 0,
            Category::Stationery => 1,
            Category::Grocery => 2,
            Category::Clothing => 3,
        }
    }

    /// The stable numeric id of the category.
    pub fn get_id(&self) -> (r: u8)
        ensures
            r == self.spec_id(),
    {
        match self {
            Category::Pharmaceutical => 0,
            Category::Stationery => 1,
            Category::Grocery => 2,
            Category::Clothing => 3,
        }
    }
}

impl Default for Category {
    /// The default category.
    fn default() -> (r: Self)
        ensures
            r == Category::Pharmaceutical,
    {
        Category::Pharmaceutical
    }
}

/// A seller's registration record: its single category and an opaque
/// content id describing it.
#[derive(Clone, Copy, Debug)]
pub struct SellerInfo {
    pub category: Category,
    pub cid: [u8; 32],
}

impl SellerInfo {
    /// Whether the seller trades in `category`.
    pub fn is_category_allowed(&self, category: &Category) -> (r: bool)
        ensures
            r == (*category == self.category),
    {
        *category == self.category
    }
}

/// An NGO's registration record: the categories it accepts (a bounded set
/// of at most a hundred) and an opaque content id describing it.
#[derive(Clone, Debug)]
pub struct NgoInfo {
    pub categories: Vec<Category>,
    pub cid: [u8; 32],
}

impl NgoInfo {
    /// The record respects the bound on how many categories one NGO may
    /// accept.
    pub open spec fn wf(self) -> bool {
        self.categories@.len() <= 100
    }

    /// Whether the NGO accepts donations in `category`.
    pub fn is_category_allowed(&self, category: &Category) -> (r: bool)
        ensures
            r == self.categories@.contains(*category),
    {
        let n = self.categories.len();
        let mut i: usize = 0;
        while i < n
            invariant
                i <= n,
                n == self.categories@.len(),
                forall|j: int| 0 <= j < i ==> self.categories@[j] != *category,
            decreases n - i,
        {
            if self.categories[i] == *category {
                return true;
            }
            i += 1;
        }
        false
    }
}

/// Why a registry operation was refused.
#[derive(Clone, Copy, Debug, PartialEq, Eq, Structural)]
pub enum Error {
    /// The applicant already sits in the waiting list for this role.
    AlreadyPartOfWaitingList,
    /// The applicant holds no verified identity.
    IdentityNotFound,
    /// The account is not in the waiting list for this role.
    NotPartOfWaitingList,
    /// The account is already in the active list for this role.
    AlreadyPartOfActiveList,
    /// No such applicant is tracked.
    ApplicantNotFound,
    /// Reserving the stake failed in the currency backend.
    Currency(balances::Error),
}

/// The participant registry: waiting and active lists per role, and the
/// staking amounts applicants must put up.
pub struct Pallet {
    ngo_waiting: HashMapWithView<u64, NgoInfo>,
    ngo_active: HashMapWithView<u64, NgoInfo>,
    seller_waiting: HashMapWithView<u64, SellerInfo>,
    seller_active: HashMapWithView<u64, SellerInfo>,
    ngo_staking_amount: u128,
    seller_staking_amount: u128,
}

impl Pallet {
    /// The NGO waiting list.
    pub closed spec fn spec_ngo_waiting(self) -> Map<u64, NgoInfo> {
        self.ngo_waiting@
    }

    /// The NGO active list.
    pub closed spec fn spec_ngo_active(self) -> Map<u64, NgoInfo> {
        self.ngo_active@
    }

    /// The seller waiting list.
    pub closed spec fn spec_seller_waiting(self) -> Map<u64, SellerInfo> {
        self.seller_waiting@
    }

    /// The seller active list.
    pub closed spec fn spec_seller_active(self) -> Map<u64, SellerInfo> {
        self.seller_active@
    }

    /// The stake an NGO applicant must put up.
    pub closed spec fn spec_ngo_staking_amount(self) -> u128 {
        self.ngo_staking_amount
    }

    /// The stake a seller applicant must put up.
    pub closed spec fn spec_seller_staking_amount(self) -> u128 {
        self.seller_staking_amount
    }

    /// Whether `who` is an approved NGO.
    pub open spec fn spec_is_active_ngo(self, who: u64) -> bool {
        self.spec_ngo_active().contains_key(who)
    }

    /// Whether `who` is an approved seller.
    pub open spec fn spec_is_active_seller(self, who: u64) -> bool {
        self.spec_seller_active().contains_key(who)
    }

    /// The staking configuration is unchanged between `pre` and `post`.
    pub open spec fn spec_same_config(pre: Pallet, post: Pallet) -> bool {
        &&& post.spec_ngo_staking_amount() == pre.spec_ngo_staking_amount()
        &&& post.spec_seller_staking_amount() == pre.spec_seller_staking_amount()
    }

    /// Both seller lists are unchanged between `pre` and `post`.
    pub open spec fn spec_same_seller_lists(pre: Pallet, post: Pallet) -> bool {
        &&& post.spec_seller_waiting() == pre.spec_seller_waiting()
        &&& post.spec_seller_active() == pre.spec_seller_active()
    }

    /// Both NGO lists are unchanged between `pre` and `post`.
    pub open spec fn spec_same_ngo_lists(pre: Pallet, post: Pallet) -> bool {
        &&& post.spec_ngo_waiting() == pre.spec_ngo_waiting()
        &&& post.spec_ngo_active() == pre.spec_ngo_active()
    }

    /// Creates an empty registry with the given staking amounts.
    pub fn new(ngo_staking_amount: u128, seller_staking_amount: u128) -> (r: Pallet)
        ensures
            r.spec_ngo_waiting() == Map::<u64, NgoInfo>::empty(),
            r.spec_ngo_active() == Map::<u64, NgoInfo>::empty(),
            r.spec_seller_waiting() == Map::<u64, SellerInfo>::empty(),
            r.spec_seller_active() == Map::<u64, SellerInfo>::empty(),
            r.spec_ngo_staking_amount() == ngo_staking_amount,
            r.spec_seller_staking_amount() == seller_staking_amount,
    {
        Pallet {
            ngo_waiting: HashMapWithView::new(),
            ngo_active: HashMapWithView::new(),
            seller_waiting: HashMapWithView::new(),
            seller_active: HashMapWithView::new(),
            ngo_staking_amount,
            seller_staking_amount,
        }
    }

    /// Whether `who` is an approved NGO.
    pub fn is_active_ngo(&self, who: u64) -> (r: bool)
        ensures
            r == self.spec_is_active_ngo(who),
    {
        self.ngo_active.contains_key(&who)
    }

    /// Whether `who` is an approved seller.
    pub fn is_active_seller(&self, who: u64) -> (r: bool)
        ensures
            r == self.spec_is_active_seller(who),
    {
        self.seller_active.contains_key(&who)
    }

    /// The waiting-list record of NGO applicant `who`, if any.
    pub fn get_ngo_waiting_list(&self, who: u64) -> (r: Option<&NgoInfo>)
        ensures
            match r {
                Some(info) => self.spec_ngo_waiting().contains_key(who) && *info
                    == self.spec_ngo_waiting()[who],
                None => !self.spec_ngo_waiting().contains_key(who),
            },
    {
        self.ngo_waiting.get(&who)
    }

    /// The active-list record of NGO `who`, if any.
    pub fn get_ngo_active_list(&self, who: u64) -> (r: Option<&NgoInfo>)
        ensures
            match r {
                Some(info) => self.spec_ngo_active().contains_key(who) && *info
                    == self.spec_ngo_active()[who],
                None => !self.spec_ngo_active().contains_key(who),
            },
    {
        self.ngo_active.get(&who)
    }

    /// The waiting-list record of seller applicant `who`, if any.
    pub fn get_seller_waiting_list(&self, who: u64) -> (r: Option<&SellerInfo>)
        ensures
            match r {
                Some(info) => self.spec_seller_waiting().contains_key(who) && *info
                    == self.spec_seller_waiting()[who],
                None => !self.spec_seller_waiting().contains_key(who),
            },
    {
        self.seller_waiting.get(&who)
    }

    /// The active-list record of seller `who`, if any.
    pub fn get_seller_active_list(&self, who: u64) -> (r: Option<&SellerInfo>)
        ensures
            match r {
                Some(info) => self.spec_seller_active().contains_key(who) && *info
                    == self.spec_seller_active()[who],
                None => !self.spec_seller_active().contains_key(who),
            },
    {
        self.seller_active.get(&who)
    }

    /// Whether an NGO application would go through, and the error otherwise.
    pub open spec fn spec_do_apply_as_ngo_check(self, funds: Balances, applicant: u64) -> Result<
        (),
        Error,
    > {
        if self.spec_ngo_waiting().contains_key(applicant) {
            Err(Error::AlreadyPartOfWaitingList)
        } else if self.spec_ngo_active().contains_key(applicant) {
            Err(Error::AlreadyPartOfActiveList)
        } else {
            match funds.spec_reserve_check(applicant, self.spec_ngo_staking_amount()) {
                Ok(()) => Ok(()),
                Err(e) => Err(Error::Currency(e)),
            }
        }
    }

    /// The identity-gated NGO application: the oracle's refusal comes first.
    pub open spec fn spec_apply_as_ngo_check(
        self,
        funds: Balances,
        applicant: u64,
        has_identity: bool,
    ) -> Result<(), Error> {
        if !has_identity {
            Err(Error::IdentityNotFound)
        } else {
            self.spec_do_apply_as_ngo_check(funds, applicant)
        }
    }

    /// How a successful NGO application changes the registry.
    pub open spec fn spec_apply_as_ngo_updates(
        pre: Pallet,
        post: Pallet,
        applicant: u64,
        info: NgoInfo,
    ) -> bool {
        &&& post.spec_ngo_waiting() == pre.spec_ngo_waiting().insert(applicant, info)
        &&& post.spec_ngo_active() == pre.spec_ngo_active()
        &&& Pallet::spec_same_seller_lists(pre, post)
        &&& Pallet::spec_same_config(pre, post)
    }

    /// Records an NGO application: refuses duplicates in either list,
    /// reserves the NGO stake from the applicant's currency balance, and
    /// enters the applicant into the waiting list. On failure neither the
    /// registry nor the balances change.
    pub fn do_apply_as_ngo(
        &mut self,
        funds: &mut Balances,
        applicant: u64,
        ngo_info: NgoInfo,
    ) -> (r: Result<(), Error>)
        requires
            ngo_info.wf(),
        ensures
            r == old(self).spec_do_apply_as_ngo_check(*old(funds), applicant),
            r is Err ==> *final(self) == *old(self) && *final(funds) == *old(funds),
            r is Ok ==> Pallet::spec_apply_as_ngo_updates(
                *old(self),
                *final(self),
                applicant,
                ngo_info,
            ) && Balances::spec_reserve_updates(
                *old(funds),
                *final(funds),
                applicant,
                old(self).spec_ngo_staking_amount(),
            ),
    {
        if self.ngo_waiting.contains_key(&applicant) {
            return Err(Error::AlreadyPartOfWaitingList);
        }
        if self.ngo_active.contains_key(&applicant) {
            return Err(Error::AlreadyPartOfActiveList);
        }
        match funds.reserve(applicant, self.ngo_staking_amount) {
            Err(e) => {
                return Err(Error::Currency(e));
            },
            Ok(()) => {},
        }
        self.ngo_waiting.insert(applicant, ngo_info);
        Ok(())
    }

    /// Applies as an NGO. `has_identity` is the identity oracle's verdict on
    /// the applicant, obtained by the host; an unverified applicant is
    /// refused before anything else is looked at.
    pub fn apply_as_ngo(
        &mut self,
        funds: &mut Balances,
        applicant: u64,
        has_identity: bool,
        ngo_info: NgoInfo,
    ) -> (r: Result<(), Error>)
        requires
            ngo_info.wf(),
        ensures
            r == old(self).spec_apply_as_ngo_check(*old(funds), applicant, has_identity),
            r is Err ==> *final(self) == *old(self) && *final(funds) == *old(funds),
            r is Ok ==> Pallet::spec_apply_as_ngo_updates(
                *old(self),
                *final(self),
                applicant,
                ngo_info,
            ) && Balances::spec_reserve_updates(
                *old(funds),
                *final(funds),
                applicant,
                old(self).spec_ngo_staking_amount(),
            ),
    {
        if !has_identity {
            return Err(Error::IdentityNotFound);
        }
        self.do_apply_as_ngo(funds, applicant, ngo_info)
    }

    /// Whether an NGO approval would go through, and the error otherwise.
    pub open spec fn spec_do_approve_ngo_check(self, applicant: u64) -> Result<(), Error> {
        if !self.spec_ngo_waiting().contains_key(applicant) {
            Err(Error::NotPartOfWaitingList)
        } else if self.spec_ngo_active().contains_key(applicant) {
            Err(Error::AlreadyPartOfActiveList)
        } else {
            Ok(())
        }
    }

    /// How a successful NGO approval changes the registry: the record moves,
    /// unchanged, from the waiting list to the active list.
    pub open spec fn spec_approve_ngo_updates(pre: Pallet, post: Pallet, applicant: u64) -> bool {
        &&& post.spec_ngo_waiting() == pre.spec_ngo_waiting().remove(applicant)
        &&& post.spec_ngo_active() == pre.spec_ngo_active().insert(
            applicant,
            pre.spec_ngo_waiting()[applicant],
        )
        &&& Pallet::spec_same_seller_lists(pre, post)
        &&& Pallet::spec_same_config(pre, post)
    }

    /// Promotes an NGO applicant from the waiting list to the active list.
    /// On failure nothing changes.
    pub fn do_approve_ngo(&mut self, applicant: u64) -> (r: Result<(), Error>)
        ensures
            r == old(self).spec_do_approve_ngo_check(applicant),
            r is Err ==> *final(self) == *old(self),
            r is Ok ==> Pallet::spec_approve_ngo_updates(*old(self), *final(self), applicant),
    {
        if !self.ngo_waiting.contains_key(&applicant) {
            return Err(Error::NotPartOfWaitingList);
        }
        if self.ngo_active.contains_key(&applicant) {
            return Err(Error::AlreadyPartOfActiveList);
        }
        let info = self.ngo_waiting.remove(&applicant).unwrap();
        self.ngo_active.insert(applicant, info);
        Ok(())
    }

    /// Approves an NGO. Callable only through the governance authority; the
    /// host performs that origin check before forwarding the call.
    pub fn approve_ngo(&mut self, applicant: u64) -> (r: Result<(), Error>)
        ensures
            r == old(self).spec_do_approve_ngo_check(applicant),
            r is Err ==> *final(self) == *old(self),
            r is Ok ==> Pallet::spec_approve_ngo_updates(*old(self), *final(self), applicant),
    {
        self.do_approve_ngo(applicant)
    }

    /// Whether a seller application would go through, and the error
    /// otherwise.
    pub open spec fn spec_do_apply_as_seller_check(self, funds: Balances, applicant: u64) -> Result<
        (),
        Error,
    > {
        if self.spec_seller_waiting().contains_key(applicant) {
            Err(Error::AlreadyPartOfWaitingList)
        } else if self.spec_seller_active().contains_key(applicant) {
            Err(Error::AlreadyPartOfActiveList)
        } else {
            match funds.spec_reserve_check(applicant, self.spec_seller_staking_amount()) {
                Ok(()) => Ok(()),
                Err(e) => Err(Error::Currency(e)),
            }
        }
    }

    /// The identity-gated seller application: the oracle's refusal comes
    /// first.
    pub open spec fn spec_apply_as_seller_check(
        self,
        funds: Balances,
        applicant: u64,
        has_identity: bool,
    ) -> Result<(), Error> {
        if !has_identity {
            Err(Error::IdentityNotFound)
        } else {
            self.spec_do_apply_as_seller_check(funds, applicant)
        }
    }

    /// How a successful seller application changes the registry.
    pub open spec fn spec_apply_as_seller_updates(
        pre: Pallet,
        post: Pallet,
        applicant: u64,
        info: SellerInfo,
    ) -> bool {
        &&& post.spec_seller_waiting() == pre.spec_seller_waiting().insert(applicant, info)
        &&& post.spec_seller_active() == pre.spec_seller_active()
        &&& Pallet::spec_same_ngo_lists(pre, post)
        &&& Pallet::spec_same_config(pre, post)
    }

    /// Records a seller application: refuses duplicates in either list,
    /// reserves the seller stake from the applicant's currency balance, and
    /// enters the applicant into the waiting list. On failure neither the
    /// registry nor the balances change.
    pub fn do_apply_as_seller(
        &mut self,
        funds: &mut Balances,
        applicant: u64,
        seller_info: SellerInfo,
    ) -> (r: Result<(), Error>)
        ensures
            r == old(self).spec_do_apply_as_seller_check(*old(funds), applicant),
            r is Err ==> *final(self) == *old(self) && *final(funds) == *old(funds),
            r is Ok ==> Pallet::spec_apply_as_seller_updates(
                *old(self),
                *final(self),
                applicant,
                seller_info,
            ) && Balances::spec_reserve_updates(
                *old(funds),
                *final(funds),
                applicant,
                old(self).spec_seller_staking_amount(),
            ),
    {
        if self.seller_waiting.contains_key(&applicant) {
            return Err(Error::AlreadyPartOfWaitingList);
        }
        if self.seller_active.contains_key(&applicant) {
            return Err(Error::AlreadyPartOfActiveList);
        }
        match funds.reserve(applicant, self.seller_staking_amount) {
            Err(e) => {
                return Err(Error::Currency(e));
            },
            Ok(()) => {},
        }
        self.seller_waiting.insert(applicant, seller_info);
        Ok(())
    }

    /// Applies as a seller. `has_identity` is the identity oracle's verdict
    /// on the applicant, obtained by the host.
    pub fn apply_as_seller(
        &mut self,
        funds: &mut Balances,
        applicant: u64,
        has_identity: bool,
        seller_info: SellerInfo,
    ) -> (r: Result<(), Error>)
        ensures
            r == old(self).spec_apply_as_seller_check(*old(funds), applicant, has_identity),
            r is Err ==> *final(self) == *old(self) && *final(funds) == *old(funds),
            r is Ok ==> Pallet::spec_apply_as_seller_updates(
                *old(self),
                *final(self),
                applicant,
                seller_info,
            ) && Balances::spec_reserve_updates(
                *old(funds),
                *final(funds),
                applicant,
                old(self).spec_seller_staking_amount(),
            ),
    {
        if !has_identity {
            return Err(Error::IdentityNotFound);
        }
        self.do_apply_as_seller(funds, applicant, seller_info)
    }

    /// Whether a seller approval would go through, and the error otherwise.
    pub open spec fn spec_do_approve_seller_check(self, applicant: u64) -> Result<(), Error> {
        if !self.spec_seller_waiting().contains_key(applicant) {
            Err(Error::NotPartOfWaitingList)
        } else if self.spec_seller_active().contains_key(applicant) {
            Err(Error::AlreadyPartOfActiveList)
        } else {
            Ok(())
        }
    }

    /// How a successful seller approval changes the registry.
    pub open spec fn spec_approve_seller_updates(
        pre: Pallet,
        post: Pallet,
        applicant: u64,
    ) -> bool {
        &&& post.spec_seller_waiting() == pre.spec_seller_waiting().remove(applicant)
        &&& post.spec_seller_active() == pre.spec_seller_active().insert(
            applicant,
            pre.spec_seller_waiting()[applicant],
        )
        &&& Pallet::spec_same_ngo_lists(pre, post)
        &&& Pallet::spec_same_config(pre, post)
    }

    /// Promotes a seller applicant from the waiting list to the active
    /// list. On failure nothing changes.
    pub fn do_approve_seller(&mut self, applicant: u64) -> (r: Result<(), Error>)
        ensures
            r == old(self).spec_do_approve_seller_check(applicant),
            r is Err ==> *final(self) == *old(self),
            r is Ok ==> Pallet::spec_approve_seller_updates(*old(self), *final(self), applicant),
    {
        if !self.seller_waiting.contains_key(&applicant) {
            return Err(Error::NotPartOfWaitingList);
        }
        if self.seller_active.contains_key(&applicant) {
            return Err(Error::AlreadyPartOfActiveList);
        }
        let info = self.seller_waiting.remove(&applicant).unwrap();
        self.seller_active.insert(applicant, info);
        Ok(())
    }

    /// Approves a seller. Callable only through the governance authority;
    /// the host performs that origin check before forwarding the call.
    pub fn approve_seller(&mut self, applicant: u64) -> (r: Result<(), Error>)
        ensures
            r == old(self).spec_do_approve_seller_check(applicant),
            r is Err ==> *final(self) == *old(self),
            r is Ok ==> Pallet::spec_approve_seller_updates(*old(self), *final(self), applicant),
    {
        self.do_approve_seller(applicant)
    }

    /// No account sits in a waiting list and the active list for the same
    /// role at once.
    pub open spec fn spec_lists_disjoint(self) -> bool {
        &&& forall|a: u64|
            !(#[trigger] self.spec_ngo_waiting().contains_key(a)
                && self.spec_ngo_active().contains_key(a))
        &&& forall|a: u64|
            !(#[trigger] self.spec_seller_waiting().contains_key(a)
                && self.spec_seller_active().contains_key(a))
    }

    /// A successful NGO application keeps the waiting and active lists
    /// disjoint: it only admits applicants that sit in neither.
    pub proof fn lemma_apply_as_ngo_preserves_disjointness(
        r0: Pallet,
        r1: Pallet,
        f0: Balances,
        applicant: u64,
        info: NgoInfo,
    )
        requires
            r0.spec_lists_disjoint(),
            r0.spec_do_apply_as_ngo_check(f0, applicant) is Ok,
            Pallet::spec_apply_as_ngo_updates(r0, r1, applicant, info),
        ensures
            r1.spec_lists_disjoint(),
    {
    }

    /// A successful NGO approval keeps the waiting and active lists
    /// disjoint: the account leaves the one as it enters the other.
    pub proof fn lemma_approve_ngo_preserves_disjointness(r0: Pallet, r1: Pallet, applicant: u64)
        requires
            r0.spec_lists_disjoint(),
            r0.spec_do_approve_ngo_check(applicant) is Ok,
            Pallet::spec_approve_ngo_updates(r0, r1, applicant),
        ensures
            r1.spec_lists_disjoint(),
    {
    }

    /// A successful seller application keeps the waiting and active lists
    /// disjoint: it only admits applicants that sit in neither.
    pub proof fn lemma_apply_as_seller_preserves_disjointness(
        r0: Pallet,
        r1: Pallet,
        f0: Balances,
        applicant: u64,
        info: SellerInfo,
    )
        requires
            r0.spec_lists_disjoint(),
            r0.spec_do_apply_as_seller_check(f0, applicant) is Ok,
            Pallet::spec_apply_as_seller_updates(r0, r1, applicant, info),
        ensures
            r1.spec_lists_disjoint(),
    {
    }

    /// A successful seller approval keeps the waiting and active lists
    /// disjoint: the account leaves the one as it enters the other.
    pub proof fn lemma_approve_seller_preserves_disjointness(
        r0: Pallet,
        r1: Pallet,
        applicant: u64,
    )
        requires
            r0.spec_lists_disjoint(),
            r0.spec_do_approve_seller_check(applicant) is Ok,
            Pallet::spec_approve_seller_updates(r0, r1, applicant),
        ensures
            r1.spec_lists_disjoint(),
    {
    }

    /// Applying as an NGO twice without an intervening approval fails: once
    /// an application is recorded, a second one by the same account is
    /// refused as already waiting, whatever its funds.
    pub proof fn lemma_apply_twice_ngo(
        r0: Pallet,
        r1: Pallet,
        f0: Balances,
        applicant: u64,
        info: NgoInfo,
    )
        requires
            r0.spec_apply_as_ngo_check(f0, applicant, true) is Ok,
            Pallet::spec_apply_as_ngo_updates(r0, r1, applicant, info),
        ensures
            forall|f: Balances| #[trigger] r1.spec_apply_as_ngo_check(f, applicant, true) == Err::<
                (),
                Error,
            >(Error::AlreadyPartOfWaitingList),
    {
    }

    /// Applying as an NGO, being approved, and applying again fails: the
    /// approval both empties the account's waiting slot and makes any later
    /// application refused as already active, whatever its funds.
    pub proof fn lemma_apply_approve_apply_ngo(
        r0: Pallet,
        r1: Pallet,
        r2: Pallet,
        f0: Balances,
        applicant: u64,
        info: NgoInfo,
    )
        requires
            r0.spec_apply_as_ngo_check(f0, applicant, true) is Ok,
            Pallet::spec_apply_as_ngo_updates(r0, r1, applicant, info),
            Pallet::spec_approve_ngo_updates(r1, r2, applicant),
        ensures
            r1.spec_do_approve_ngo_check(applicant) is Ok,
            forall|f: Balances| #[trigger] r2.spec_apply_as_ngo_check(f, applicant, true) == Err::<
                (),
                Error,
            >(Error::AlreadyPartOfActiveList),
    {
    }

    /// Applying as a seller twice without an intervening approval fails:
    /// once an application is recorded, a second one by the same account is
    /// refused as already waiting, whatever its funds.
    pub proof fn lemma_apply_twice_seller(
        r0: Pallet,
        r1: Pallet,
        f0: Balances,
        applicant: u64,
        info: SellerInfo,
    )
        requires
            r0.spec_apply_as_seller_check(f0, applicant, true) is Ok,
            Pallet::spec_apply_as_seller_updates(r0, r1, applicant, info),
        ensures
            forall|f: Balances| #[trigger] r1.spec_apply_as_seller_check(f, applicant, true)
                == Err::<(), Error>(Error::AlreadyPartOfWaitingList),
    {
    }

    /// Applying as a seller, being approved, and applying again fails: the
    /// approval both empties the account's waiting slot and makes any later
    /// application refused as already active, whatever its funds.
    pub proof fn lemma_apply_approve_apply_seller(
        r0: Pallet,
        r1: Pallet,
        r2: Pallet,
        f0: Balances,
        applicant: u64,
        info: SellerInfo,
    )
        requires
            r0.spec_apply_as_seller_check(f0, applicant, true) is Ok,
            Pallet::spec_apply_as_seller_updates(r0, r1, applicant, info),
            Pallet::spec_approve_seller_updates(r1, r2, applicant),
        ensures
            r1.spec_do_approve_seller_check(applicant) is Ok,
            forall|f: Balances| #[trigger] r2.spec_apply_as_seller_check(f, applicant, true)
                == Err::<(), Error>(Error::AlreadyPartOfActiveList),
    {
    }

    /// Inserts `recipient` directly into the active NGO list, bypassing
    /// application and staking. A privileged bootstrap helper, performing no
    /// validation by design.
    pub fn add_ngo_to_active_list(&mut self, recipient: u64, ngo_info: NgoInfo)
        ensures
            final(self).spec_ngo_active() == old(self).spec_ngo_active().insert(
                recipient,
                ngo_info,
            ),
            final(self).spec_ngo_waiting() == old(self).spec_ngo_waiting(),
            Pallet::spec_same_seller_lists(*old(self), *final(self)),
            Pallet::spec_same_config(*old(self), *final(self)),
    {
        self.ngo_active.insert(recipient, ngo_info);
    }

    /// Inserts `recipient` directly into the active seller list, bypassing
    /// application and staking. A privileged bootstrap helper, performing no
    /// validation by design.
    pub fn add_seller_to_active_list(&mut self, recipient: u64, seller_info: SellerInfo)
        ensures
            final(self).spec_seller_active() == old(self).spec_seller_active().insert(
                recipient,
                seller_info,
            ),
            final(self).spec_seller_waiting() == old(self).spec_seller_waiting(),
            Pallet::spec_same_ngo_lists(*old(self), *final(self)),
            Pallet::spec_same_config(*old(self), *final(self)),
    {
        self.seller_active.insert(recipient, seller_info);
    }

    /// Inserts `applicant` directly into the NGO waiting list, bypassing
    /// identity and staking. A privileged bootstrap helper, performing no
    /// validation by design.
    pub fn add_ngo_to_waiting_list(&mut self, applicant: u64, ngo_info: NgoInfo)
        ensures
            final(self).spec_ngo_waiting() == old(self).spec_ngo_waiting().insert(
                applicant,
                ngo_info,
            ),
            final(self).spec_ngo_active() == old(self).spec_ngo_active(),
            Pallet::spec_same_seller_lists(*old(self), *final(self)),
            Pallet::spec_same_config(*old(self), *final(self)),
    {
        self.ngo_waiting.insert(applicant, ngo_info);
    }

    /// Inserts `applicant` directly into the seller waiting list, bypassing
    /// identity and staking. A privileged bootstrap helper, performing no
    /// validation by design.
    pub fn add_seller_to_waiting_list(&mut self, applicant: u64, seller_info: SellerInfo)
        ensures
            final(self).spec_seller_waiting() == old(self).spec_seller_waiting().insert(
                applicant,
                seller_info,
            ),
            final(self).spec_seller_active() == old(self).spec_seller_active(),
            Pallet::spec_same_ngo_lists(*old(self), *final(self)),
            Pallet::spec_same_config(*old(self), *final(self)),
    {
        self.seller_waiting.insert(applicant, seller_info);
    }
}

} // verus!
