//! The token settlement engine.
//!
//! A donation moves native currency from the donor into a program-owned
//! escrow account and mints the same amount of the chosen category's token
//! to an approved NGO. A claim burns a seller's category tokens and pays the
//! same amount of native currency out of the escrow. A direct category-token
//! transfer, used by the marketplace, moves tokens from an NGO to a seller
//! under the keep-alive policy. Every operation is atomic: when any step is
//! refused, no state changes at all.

use vstd::prelude::*;
use crate::assets;
use crate::assets::Assets;
use crate::balances;
use crate::balances::Balances;
use crate::participant_handler;
use crate::participant_handler::Category;

verus! {

/// Why a settlement operation was refused.
#[derive(Clone, Copy, Debug, PartialEq, Eq, Structural)]
pub enum Error {
    /// The donation recipient, or the token source, is not an active NGO.
    RecipientNotValid,
    /// The claimer, or the token recipient, is not an active seller.
    CallerNotValid,
    /// The currency backend refused its step.
    Currency(balances::Error),
    /// The token backend refused its step.
    Token(assets::Error),
}

/// The settlement engine: it owns nothing but the escrow account's address.
pub struct Pallet {
    pallet_account: u64,
}

impl Pallet {
    /// The program-owned escrow account that accumulates donated currency
    /// until it is claimed.
    pub closed spec fn spec_pallet_account(self) -> u64 {
        self.pallet_account
    }

    /// Creates a settlement engine around the given escrow account.
    pub fn new(pallet_account: u64) -> (r: Pallet)
        ensures
            r.spec_pallet_account() == pallet_account,
    {
        Pallet { pallet_account }
    }

    /// The program-owned escrow account.
    pub fn get_pallet_account(&self) -> (r: u64)
        ensures
            r == self.spec_pallet_account(),
    {
        self.pallet_account
    }

    /// Whether a donation would go through, and the error otherwise: the
    /// recipient must be an active NGO, the donor must be able to fund the
    /// escrow while staying alive, and the mint must be possible.
    pub open spec fn spec_do_donate_check(
        self,
        registry: participant_handler::Pallet,
        funds: Balances,
        tokens: Assets,
        donor: u64,
        recipient: u64,
        amount: u128,
        category: Category,
    ) -> Result<(), Error> {
        if !registry.spec_is_active_ngo(recipient) {
            Err(Error::RecipientNotValid)
        } else {
            match funds.spec_transfer_check(donor, self.spec_pallet_account(), amount, true) {
                Err(e) => Err(Error::Currency(e)),
                Ok(()) => match tokens.spec_mint_check(
                    category.spec_id() as u128,
                    recipient,
                    amount,
                ) {
                    Err(e) => Err(Error::Token(e)),
                    Ok(()) => Ok(()),
                },
            }
        }
    }

    /// Donates `amount` of native currency in `category`: the currency goes
    /// from `donor` to the escrow, and the same amount of the category's
    /// token is minted to `recipient`, an active NGO. Atomic: on failure
    /// neither balances nor tokens change.
    pub fn do_donate(
        &self,
        registry: &participant_handler::Pallet,
        funds: &mut Balances,
        tokens: &mut Assets,
        donor: u64,
        recipient: u64,
        amount: u128,
        category: Category,
    ) -> (r: Result<(), Error>)
        ensures
            r == self.spec_do_donate_check(
                *registry,
                *old(funds),
                *old(tokens),
                donor,
                recipient,
                amount,
                category,
            ),
            r is Err ==> *final(funds) == *old(funds) && *final(tokens) == *old(tokens),
            r is Ok ==> Balances::spec_transfer_updates(
                *old(funds),
                *final(funds),
                donor,
                self.spec_pallet_account(),
                amount,
            ) && Assets::spec_mint_updates(
                *old(tokens),
                *final(tokens),
                category.spec_id() as u128,
                recipient,
                amount,
            ),
    {
        if !registry.is_active_ngo(recipient) {
            return Err(Error::RecipientNotValid);
        }
        let asset_id = category.get_id() as u128;
        // Decide both steps up front so that they commit or fail together.
        match funds.check_transfer(donor, self.pallet_account, amount, true) {
            Err(e) => {
                return Err(Error::Currency(e));
            },
            Ok(()) => {},
        }
        match tokens.check_mint(asset_id, recipient, amount) {
            Err(e) => {
                return Err(Error::Token(e));
            },
            Ok(()) => {},
        }
        match funds.transfer(donor, self.pallet_account, amount, true) {
            Err(e) => {
                return Err(Error::Currency(e));
            },
            Ok(()) => {},
        }
        match tokens.mint_into(asset_id, recipient, amount) {
            Err(e) => {
                return Err(Error::Token(e));
            },
            Ok(()) => {},
        }
        Ok(())
    }

    /// Donates to an approved NGO. The donor is the signed caller; the host
    /// resolves the signature before forwarding the call.
    pub fn donate(
        &self,
        registry: &participant_handler::Pallet,
        funds: &mut Balances,
        tokens: &mut Assets,
        donor: u64,
        recipient: u64,
        category: Category,
        amount: u128,
    ) -> (r: Result<(), Error>)
        ensures
            r == self.spec_do_donate_check(
                *registry,
                *old(funds),
                *old(tokens),
                donor,
                recipient,
                amount,
                category,
            ),
            r is Err ==> *final(funds) == *old(funds) && *final(tokens) == *old(tokens),
            r is Ok ==> Balances::spec_transfer_updates(
                *old(funds),
                *final(funds),
                donor,
                self.spec_pallet_account(),
                amount,
            ) && Assets::spec_mint_updates(
                *old(tokens),
                *final(tokens),
                category.spec_id() as u128,
                recipient,
                amount,
            ),
    {
        self.do_donate(registry, funds, tokens, donor, recipient, amount, category)
    }

    /// Whether a claim would go through, and the error otherwise: the
    /// claimer must be an active seller, its token balance must cover the
    /// burn, and the escrow must be able to pay out while staying alive.
    pub open spec fn spec_do_claim_check(
        self,
        registry: participant_handler::Pallet,
        funds: Balances,
        tokens: Assets,
        recipient: u64,
        category: Category,
        amount: u128,
    ) -> Result<(), Error> {
        if !registry.spec_is_active_seller(recipient) {
            Err(Error::CallerNotValid)
        } else {
            match tokens.spec_burn_check(category.spec_id() as u128, recipient, amount) {
                Err(e) => Err(Error::Token(e)),
                Ok(()) => match funds.spec_transfer_check(
                    self.spec_pallet_account(),
                    recipient,
                    amount,
                    true,
                ) {
                    Err(e) => Err(Error::Currency(e)),
                    Ok(()) => Ok(()),
                },
            }
        }
    }

    /// Claims `amount` of native currency by burning the same amount of the
    /// category's token from `recipient`, an active seller; the payout
    /// comes from the escrow. Atomic: on failure neither tokens nor
    /// balances change.
    pub fn do_claim(
        &self,
        registry: &participant_handler::Pallet,
        funds: &mut Balances,
        tokens: &mut Assets,
        recipient: u64,
        category: Category,
        amount: u128,
    ) -> (r: Result<(), Error>)
        ensures
            r == self.spec_do_claim_check(
                *registry,
                *old(funds),
                *old(tokens),
                recipient,
                category,
                amount,
            ),
            r is Err ==> *final(funds) == *old(funds) && *final(tokens) == *old(tokens),
            r is Ok ==> Assets::spec_burn_updates(
                *old(tokens),
                *final(tokens),
                category.spec_id() as u128,
                recipient,
                amount,
            ) && Balances::spec_transfer_updates(
                *old(funds),
                *final(funds),
                self.spec_pallet_account(),
                recipient,
                amount,
            ),
    {
        if !registry.is_active_seller(recipient) {
            return Err(Error::CallerNotValid);
        }
        let asset_id = category.get_id() as u128;
        // Decide both steps up front so that they commit or fail together.
        match tokens.check_burn(asset_id, recipient, amount) {
            Err(e) => {
                return Err(Error::Token(e));
            },
            Ok(()) => {},
        }
        match funds.check_transfer(self.pallet_account, recipient, amount, true) {
            Err(e) => {
                return Err(Error::Currency(e));
            },
            Ok(()) => {},
        }
        match tokens.burn_from(asset_id, recipient, amount) {
            Err(e) => {
                return Err(Error::Token(e));
            },
            Ok(()) => {},
        }
        match funds.transfer(self.pallet_account, recipient, amount, true) {
            Err(e) => {
                return Err(Error::Currency(e));
            },
            Ok(()) => {},
        }
        Ok(())
    }

    /// Claims native currency for burnt category tokens. The claimer is the
    /// signed caller; the host resolves the signature before forwarding the
    /// call.
    pub fn claim_token(
        &self,
        registry: &participant_handler::Pallet,
        funds: &mut Balances,
        tokens: &mut Assets,
        seller: u64,
        category: Category,
        amount: u128,
    ) -> (r: Result<(), Error>)
        ensures
            r == self.spec_do_claim_check(
                *registry,
                *old(funds),
                *old(tokens),
                seller,
                category,
                amount,
            ),
            r is Err ==> *final(funds) == *old(funds) && *final(tokens) == *old(tokens),
            r is Ok ==> Assets::spec_burn_updates(
                *old(tokens),
                *final(tokens),
                category.spec_id() as u128,
                seller,
                amount,
            ) && Balances::spec_transfer_updates(
                *old(funds),
                *final(funds),
                self.spec_pallet_account(),
                seller,
                amount,
            ),
    {
        self.do_claim(registry, funds, tokens, seller, category, amount)
    }

    /// Whether a direct token transfer would go through, and the error
    /// otherwise: the source must be an active NGO, the recipient an active
    /// seller, and the token move must respect the keep-alive policy.
    pub open spec fn spec_do_transfer_token_check(
        self,
        registry: participant_handler::Pallet,
        tokens: Assets,
        source: u64,
        recipient: u64,
        category: Category,
        amount: u128,
    ) -> Result<(), Error> {
        if !registry.spec_is_active_ngo(source) {
            Err(Error::RecipientNotValid)
        } else if !registry.spec_is_active_seller(recipient) {
            Err(Error::CallerNotValid)
        } else {
            match tokens.spec_transfer_check(
                category.spec_id() as u128,
                source,
                recipient,
                amount,
                true,
            ) {
                Err(e) => Err(Error::Token(e)),
                Ok(()) => Ok(()),
            }
        }
    }

    /// Moves `amount` of the category's token from `source`, an active NGO,
    /// to `recipient`, an active seller, keeping the source's token account
    /// alive. On failure nothing changes.
    pub fn do_transfer_token(
        &self,
        registry: &participant_handler::Pallet,
        tokens: &mut Assets,
        source: u64,
        recipient: u64,
        category: Category,
        amount: u128,
    ) -> (r: Result<(), Error>)
        ensures
            r == self.spec_do_transfer_token_check(
                *registry,
                *old(tokens),
                source,
                recipient,
                category,
                amount,
            ),
            r is Err ==> *final(tokens) == *old(tokens),
            r is Ok ==> Assets::spec_transfer_updates(
                *old(tokens),
                *final(tokens),
                category.spec_id() as u128,
                source,
                recipient,
                amount,
            ),
    {
        if !registry.is_active_ngo(source) {
            return Err(Error::RecipientNotValid);
        }
        if !registry.is_active_seller(recipient) {
            return Err(Error::CallerNotValid);
        }
        match tokens.transfer(category.get_id() as u128, source, recipient, amount, true) {
            Err(e) => Err(Error::Token(e)),
            Ok(()) => Ok(()),
        }
    }

    /// A donation to any account outside the active NGO list is refused as
    /// an invalid recipient, whatever the balances and tokens hold; by the
    /// donation's contract the refusal leaves both ledgers untouched.
    pub proof fn lemma_donate_to_inactive_recipient_fails(
        self,
        registry: participant_handler::Pallet,
        funds: Balances,
        tokens: Assets,
        donor: u64,
        recipient: u64,
        amount: u128,
        category: Category,
    )
        requires
            !registry.spec_is_active_ngo(recipient),
        ensures
            self.spec_do_donate_check(registry, funds, tokens, donor, recipient, amount, category)
                == Err::<(), Error>(Error::RecipientNotValid),
    {
    }

    /// A claim by any account outside the active seller list is refused as
    /// an invalid caller, whatever the balances and tokens hold; by the
    /// claim's contract the refusal burns nothing and pays nothing.
    pub proof fn lemma_claim_by_inactive_seller_fails(
        self,
        registry: participant_handler::Pallet,
        funds: Balances,
        tokens: Assets,
        recipient: u64,
        category: Category,
        amount: u128,
    )
        requires
            !registry.spec_is_active_seller(recipient),
        ensures
            self.spec_do_claim_check(registry, funds, tokens, recipient, category, amount) == Err::<
                (),
                Error,
            >(Error::CallerNotValid),
    {
    }

    /// A donation of `amount` followed by a claim of the same amount nets
    /// out: when an account that is both an active NGO and an active seller
    /// receives a donation and then claims it, the escrow's currency
    /// balance is back where it started, the account's currency balance has
    /// grown by the amount, and its token balance is unchanged net.
    pub proof fn lemma_donate_claim_round_trip(
        self,
        registry: participant_handler::Pallet,
        f0: Balances,
        f1: Balances,
        f2: Balances,
        t0: Assets,
        t1: Assets,
        t2: Assets,
        donor: u64,
        beneficiary: u64,
        category: Category,
        amount: u128,
    )
        requires
            donor != self.spec_pallet_account(),
            beneficiary != self.spec_pallet_account(),
            donor != beneficiary,
            self.spec_do_donate_check(
                registry,
                f0,
                t0,
                donor,
                beneficiary,
                amount,
                category,
            ) is Ok,
            Balances::spec_transfer_updates(f0, f1, donor, self.spec_pallet_account(), amount),
            Assets::spec_mint_updates(t0, t1, category.spec_id() as u128, beneficiary, amount),
            self.spec_do_claim_check(registry, f1, t1, beneficiary, category, amount) is Ok,
            Assets::spec_burn_updates(t1, t2, category.spec_id() as u128, beneficiary, amount),
            Balances::spec_transfer_updates(
                f1,
                f2,
                self.spec_pallet_account(),
                beneficiary,
                amount,
            ),
        ensures
            f2.spec_free(self.spec_pallet_account()) == f0.spec_free(self.spec_pallet_account()),
            f2.spec_free(beneficiary) == f0.spec_free(beneficiary) + amount,
            t2.spec_balance_of(category.spec_id() as u128, beneficiary) == t0.spec_balance_of(
                category.spec_id() as u128,
                beneficiary,
            ),
    {
    }
}

} // verus!
