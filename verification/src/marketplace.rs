//! The marketplace exchange.
//!
//! Active sellers list products under a content-derived 128-bit identifier;
//! active NGOs buy them, paying in the product's category token through the
//! settlement engine. A purchase atomically settles the token transfer and
//! reassigns the product to the buyer, flipping it to sold; a sold product
//! is treated as no longer purchasable, so no product sells twice.

use vstd::prelude::*;
use vstd::bytes::{spec_u128_to_le_bytes, spec_u64_to_le_bytes, u128_to_le_bytes, u64_to_le_bytes};
use vstd::hash_map::HashMapWithView;
use crate::assets::Assets;
use crate::donation_handler;
use crate::hashing::{id_of_bytes, spec_id_of_bytes};
use crate::participant_handler;
use crate::participant_handler::Category;

verus! {

broadcast use vstd::std_specs::hash::group_hash_axioms;

/// Whether a product is still on offer.
#[derive(Clone, Copy, Debug, PartialEq, Eq, Structural)]
pub enum Status {
    Sold,
    OpenForSell,
}

impl Status {
    /// The stable byte the status contributes to the product encoding.
    pub open spec fn spec_id(self) -> u8 {
        match self {
            Status::Sold => 0,
            Status::OpenForSell => 1,
        }
    }
}

/// A product record: what is sold, at which token price, by whom, and an
/// opaque content id describing it.
#[derive(Clone, Copy, Debug)]
pub struct ProductInfo {
    pub category: Category,
    pub price: u128,
    pub status: Status,
    pub owner: u64,
    pub cid: [u8; 32],
}

impl ProductInfo {
    /// A fresh listing: open for sale and owned by the seller.
    pub fn new(category: Category, price: u128, owner: u64, cid: [u8; 32]) -> (r: ProductInfo)
        ensures
            r == (ProductInfo { category, price, status: Status::OpenForSell, owner, cid }),
    {
        ProductInfo { category, price, status: Status::OpenForSell, owner, cid }
    }

    /// Settles the record after a purchase: the buyer takes ownership and
    /// the product is sold.
    pub fn update_info(&mut self, buyer: u64)
        ensures
            *final(self) == (ProductInfo {
                status: Status::Sold,
                owner: buyer,
                ..*old(self)
            }),
    {
        self.status = Status::Sold;
        self.owner = buyer;
    }
}

/// The canonical byte encoding of a product record, hashed to derive its
/// identifier: category id, little-endian price, status byte, little-endian
/// owner, content id.
pub open spec fn spec_product_encoding(p: ProductInfo) -> Seq<u8> {
    seq![p.category.spec_id()] + spec_u128_to_le_bytes(p.price) + seq![p.status.spec_id()]
        + spec_u64_to_le_bytes(p.owner) + p.cid@
}

/// The content-derived identifier of a product record.
pub open spec fn spec_product_id(p: ProductInfo) -> u128 {
    spec_id_of_bytes(spec_product_encoding(p))
}

/// Encodes a product record into its canonical bytes.
pub fn product_encoding(p: &ProductInfo) -> (r: Vec<u8>)
    ensures
        r@ == spec_product_encoding(*p),
{
    let mut bytes: Vec<u8> = Vec::new();
    bytes.push(p.category.get_id());
    let mut price_bytes = u128_to_le_bytes(p.price);
    bytes.append(&mut price_bytes);
    match p.status {
        Status::Sold => bytes.push(0),
        Status::OpenForSell => bytes.push(1),
    }
    let mut owner_bytes = u64_to_le_bytes(p.owner);
    bytes.append(&mut owner_bytes);
    let ghost prefix = bytes@;
    let mut i: usize = 0;
    while i < 32
        invariant
            i <= 32,
            bytes@ == prefix + p.cid@.take(i as int),
        decreases 32 - i,
    {
        bytes.push(p.cid[i]);
        i += 1;
    }
    bytes
}

/// Distinct product records have distinct canonical encodings: every field
/// sits at a fixed offset of the 58-byte encoding, so two identifiers can
/// only collide where the hash itself does.
pub proof fn lemma_product_encoding_injective(p1: ProductInfo, p2: ProductInfo)
    requires
        spec_product_encoding(p1) == spec_product_encoding(p2),
    ensures
        p1 == p2,
{
    broadcast use vstd::array::group_array_axioms;

    vstd::bytes::lemma_auto_spec_u128_to_from_le_bytes();
    vstd::bytes::lemma_auto_spec_u64_to_from_le_bytes();
    let s1 = spec_product_encoding(p1);
    let s2 = spec_product_encoding(p2);
    assert(s1.len() == 58);
    assert(s1[0] == p1.category.spec_id() && s2[0] == p2.category.spec_id());
    assert(p1.category == p2.category);
    assert(s1.subrange(1, 17) =~= spec_u128_to_le_bytes(p1.price));
    assert(s2.subrange(1, 17) =~= spec_u128_to_le_bytes(p2.price));
    assert(p1.price == p2.price);
    assert(s1[17] == p1.status.spec_id() && s2[17] == p2.status.spec_id());
    assert(p1.status == p2.status);
    assert(s1.subrange(18, 26) =~= spec_u64_to_le_bytes(p1.owner));
    assert(s2.subrange(18, 26) =~= spec_u64_to_le_bytes(p2.owner));
    assert(p1.owner == p2.owner);
    assert(s1.subrange(26, 58) =~= p1.cid@);
    assert(s2.subrange(26, 58) =~= p2.cid@);
    assert(p1.cid =~= p2.cid);
}

/// Derives the content-derived identifier under which a product record is
/// listed.
pub fn product_id(p: &ProductInfo) -> (r: u128)
    ensures
        r == spec_product_id(*p),
{
    let bytes = product_encoding(p);
    id_of_bytes(bytes.as_slice())
}

/// Why a marketplace operation was refused.
#[derive(Clone, Copy, Debug, PartialEq, Eq, Structural)]
pub enum Error {
    /// A counterparty failed an active-NGO check.
    RecipientNotValid,
    /// A caller failed an active-seller check.
    CallerNotValid,
    /// The caller fails the membership check guarding the operation; the
    /// purchase path deliberately reuses this seller-side name for its
    /// buyer-side check.
    SellerNotValid,
    /// A buyer failed an active-NGO check.
    BuyerNotValid,
    /// No purchasable product exists under the id.
    ProductNotFound,
    /// The settlement engine refused the token transfer.
    Settlement(donation_handler::Error),
}

/// The marketplace: every product record, keyed by its content-derived id.
pub struct Pallet {
    products: HashMapWithView<u128, ProductInfo>,
}

impl Pallet {
    /// The product map.
    pub closed spec fn spec_products(self) -> Map<u128, ProductInfo> {
        self.products@
    }

    /// Creates an empty marketplace.
    pub fn new() -> (r: Pallet)
        ensures
            r.spec_products() == Map::<u128, ProductInfo>::empty(),
    {
        Pallet { products: HashMapWithView::new() }
    }

    /// The product record under `pid`, if any.
    pub fn get_product_info(&self, pid: u128) -> (r: Option<&ProductInfo>)
        ensures
            match r {
                Some(p) => self.spec_products().contains_key(pid) && *p
                    == self.spec_products()[pid],
                None => !self.spec_products().contains_key(pid),
            },
    {
        self.products.get(&pid)
    }

    /// Whether a listing would go through, and the error otherwise.
    pub open spec fn spec_do_list_product_check(
        self,
        registry: participant_handler::Pallet,
        seller: u64,
    ) -> Result<(), Error> {
        if !registry.spec_is_active_seller(seller) {
            Err(Error::SellerNotValid)
        } else {
            Ok(())
        }
    }

    /// How a successful listing changes the product map: the fresh record
    /// enters under its content-derived id.
    pub open spec fn spec_list_product_updates(
        pre: Pallet,
        post: Pallet,
        seller: u64,
        category: Category,
        price: u128,
        cid: [u8; 32],
    ) -> bool {
        let product = ProductInfo {
            category,
            price,
            status: Status::OpenForSell,
            owner: seller,
            cid,
        };
        post.spec_products() == pre.spec_products().insert(spec_product_id(product), product)
    }

    /// Lists a product: only an active seller may list, and the record
    /// enters the map open for sale under its content-derived id. On
    /// failure nothing changes.
    pub fn do_list_product(
        &mut self,
        registry: &participant_handler::Pallet,
        seller: u64,
        category: Category,
        price: u128,
        cid: [u8; 32],
    ) -> (r: Result<(), Error>)
        ensures
            r == old(self).spec_do_list_product_check(*registry, seller),
            r is Err ==> *final(self) == *old(self),
            r is Ok ==> Pallet::spec_list_product_updates(
                *old(self),
                *final(self),
                seller,
                category,
                price,
                cid,
            ),
    {
        if !registry.is_active_seller(seller) {
            return Err(Error::SellerNotValid);
        }
        let product = ProductInfo::new(category, price, seller, cid);
        let pid = product_id(&product);
        self.products.insert(pid, product);
        Ok(())
    }

    /// Lists a product. The seller is the signed caller; the host resolves
    /// the signature before forwarding the call.
    pub fn list_product(
        &mut self,
        registry: &participant_handler::Pallet,
        seller: u64,
        category: Category,
        price: u128,
        cid: [u8; 32],
    ) -> (r: Result<(), Error>)
        ensures
            r == old(self).spec_do_list_product_check(*registry, seller),
            r is Err ==> *final(self) == *old(self),
            r is Ok ==> Pallet::spec_list_product_updates(
                *old(self),
                *final(self),
                seller,
                category,
                price,
                cid,
            ),
    {
        self.do_list_product(registry, seller, category, price, cid)
    }

    /// Whether a purchase would go through, and the error otherwise: the
    /// buyer must be an active NGO (refused, deliberately, under the
    /// seller-side error name), a product must sit under the id and still
    /// be open for sale, and the settlement engine must accept the token
    /// transfer of the price from the buyer to the product's owner.
    pub open spec fn spec_do_buy_check(
        self,
        registry: participant_handler::Pallet,
        settlement: donation_handler::Pallet,
        tokens: Assets,
        buyer: u64,
        pid: u128,
    ) -> Result<(), Error> {
        if !registry.spec_is_active_ngo(buyer) {
            Err(Error::SellerNotValid)
        } else if !self.spec_products().contains_key(pid) {
            Err(Error::ProductNotFound)
        } else if self.spec_products()[pid].status is Sold {
            Err(Error::ProductNotFound)
        } else {
            let product = self.spec_products()[pid];
            match settlement.spec_do_transfer_token_check(
                registry,
                tokens,
                buyer,
                product.owner,
                product.category,
                product.price,
            ) {
                Err(e) => Err(Error::Settlement(e)),
                Ok(()) => Ok(()),
            }
        }
    }

    /// How a successful purchase changes the state: the record keeps its
    /// content but passes to the buyer as sold, and the price moves in the
    /// product's category token from the buyer to the previous owner.
    pub open spec fn spec_buy_updates(
        pre: Pallet,
        post: Pallet,
        tokens_pre: Assets,
        tokens_post: Assets,
        buyer: u64,
        pid: u128,
    ) -> bool {
        let product = pre.spec_products()[pid];
        &&& post.spec_products() == pre.spec_products().insert(
            pid,
            ProductInfo { status: Status::Sold, owner: buyer, ..product },
        )
        &&& Assets::spec_transfer_updates(
            tokens_pre,
            tokens_post,
            product.category.spec_id() as u128,
            buyer,
            product.owner,
            product.price,
        )
    }

    /// Buys the product under `pid`: the buyer, an active NGO, pays the
    /// price in the product's category token to the owner, an active
    /// seller, and takes the record over as sold. Atomic: on failure
    /// neither the product map nor the token ledger changes.
    pub fn do_buy(
        &mut self,
        registry: &participant_handler::Pallet,
        settlement: &donation_handler::Pallet,
        tokens: &mut Assets,
        buyer: u64,
        pid: u128,
    ) -> (r: Result<(), Error>)
        ensures
            r == old(self).spec_do_buy_check(*registry, *settlement, *old(tokens), buyer, pid),
            r is Err ==> *final(self) == *old(self) && *final(tokens) == *old(tokens),
            r is Ok ==> Pallet::spec_buy_updates(
                *old(self),
                *final(self),
                *old(tokens),
                *final(tokens),
                buyer,
                pid,
            ),
    {
        if !registry.is_active_ngo(buyer) {
            return Err(Error::SellerNotValid);
        }
        let product = match self.products.get(&pid) {
            None => {
                return Err(Error::ProductNotFound);
            },
            Some(p) => *p,
        };
        match product.status {
            Status::Sold => {
                return Err(Error::ProductNotFound);
            },
            Status::OpenForSell => {},
        }
        match settlement.do_transfer_token(
            registry,
            tokens,
            buyer,
            product.owner,
            product.category,
            product.price,
        ) {
            Err(e) => {
                return Err(Error::Settlement(e));
            },
            Ok(()) => {},
        }
        let mut updated = product;
        updated.update_info(buyer);
        self.products.insert(pid, updated);
        Ok(())
    }

    /// Buys a product. The buyer is the signed caller; the host resolves
    /// the signature before forwarding the call.
    pub fn buy(
        &mut self,
        registry: &participant_handler::Pallet,
        settlement: &donation_handler::Pallet,
        tokens: &mut Assets,
        buyer: u64,
        pid: u128,
    ) -> (r: Result<(), Error>)
        ensures
            r == old(self).spec_do_buy_check(*registry, *settlement, *old(tokens), buyer, pid),
            r is Err ==> *final(self) == *old(self) && *final(tokens) == *old(tokens),
            r is Ok ==> Pallet::spec_buy_updates(
                *old(self),
                *final(self),
                *old(tokens),
                *final(tokens),
                buyer,
                pid,
            ),
    {
        self.do_buy(registry, settlement, tokens, buyer, pid)
    }

    /// Listing a product and buying it with sufficient funds settles it:
    /// the record passes to the buyer as sold, the seller's balance in the
    /// product's category token grows by the price, and the buyer's shrinks
    /// by it.
    pub proof fn lemma_list_then_buy(
        m0: Pallet,
        m1: Pallet,
        m2: Pallet,
        registry: participant_handler::Pallet,
        settlement: donation_handler::Pallet,
        t0: Assets,
        t1: Assets,
        seller: u64,
        buyer: u64,
        category: Category,
        price: u128,
        cid: [u8; 32],
    )
        requires
            buyer != seller,
            m0.spec_do_list_product_check(registry, seller) is Ok,
            Pallet::spec_list_product_updates(m0, m1, seller, category, price, cid),
            m1.spec_do_buy_check(
                registry,
                settlement,
                t0,
                buyer,
                spec_product_id(
                    ProductInfo {
                        category,
                        price,
                        status: Status::OpenForSell,
                        owner: seller,
                        cid,
                    },
                ),
            ) is Ok,
            Pallet::spec_buy_updates(
                m1,
                m2,
                t0,
                t1,
                buyer,
                spec_product_id(
                    ProductInfo {
                        category,
                        price,
                        status: Status::OpenForSell,
                        owner: seller,
                        cid,
                    },
                ),
            ),
        ensures
            ({
                let pid = spec_product_id(
                    ProductInfo {
                        category,
                        price,
                        status: Status::OpenForSell,
                        owner: seller,
                        cid,
                    },
                );
                &&& m2.spec_products().contains_key(pid)
                &&& m2.spec_products()[pid].status is Sold
                &&& m2.spec_products()[pid].owner == buyer
                &&& m2.spec_products()[pid].category == category
                &&& m2.spec_products()[pid].price == price
                &&& t1.spec_balance_of(category.spec_id() as u128, seller) == t0.spec_balance_of(
                    category.spec_id() as u128,
                    seller,
                ) + price
                &&& t1.spec_balance_of(category.spec_id() as u128, buyer) == t0.spec_balance_of(
                    category.spec_id() as u128,
                    buyer,
                ) - price
            }),
    {
    }

    /// A sold product never sells again: whoever asks to buy it, however
    /// eligible, is refused as if the product were gone.
    pub proof fn lemma_no_double_sell(
        self,
        registry: participant_handler::Pallet,
        settlement: donation_handler::Pallet,
        tokens: Assets,
        buyer: u64,
        pid: u128,
    )
        requires
            self.spec_products().contains_key(pid),
            self.spec_products()[pid].status is Sold,
            registry.spec_is_active_ngo(buyer),
        ensures
            self.spec_do_buy_check(registry, settlement, tokens, buyer, pid) == Err::<
                (),
                Error,
            >(Error::ProductNotFound),
    {
    }
}

} // verus!
