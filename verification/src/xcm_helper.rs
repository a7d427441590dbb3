//! The cross-chain asset bridge.
//!
//! External assets are named by a location descriptor. The bridge keeps a
//! mapping from a derived 128-bit local asset id — the Keccak-based hash of
//! the serialized location paired with its asset kind, truncated to 16
//! bytes — to that descriptor, and drives the same currency and token
//! backends as the settlement engine: an asset whose location names this
//! chain itself moves native currency, any other moves its local token.
//! The location model holds exactly what the bridge reads: how many levels
//! up the location starts, and the single junction naming a sibling chain
//! or a local 64-bit account index.

use vstd::prelude::*;
use vstd::bytes::{spec_u32_to_le_bytes, spec_u64_to_le_bytes, u32_to_le_bytes, u64_to_le_bytes};
use vstd::hash_map::HashMapWithView;
use crate::assets::Assets;
use crate::balances::Balances;
use crate::hashing::{id_of_bytes, spec_id_of_bytes};

verus! {

broadcast use vstd::std_specs::hash::group_hash_axioms;

/// One step of an external location's path.
#[derive(Clone, Copy, Debug, PartialEq, Eq, Structural)]
pub enum Junction {
    /// A sibling chain, by its numeric id.
    Parachain(u32),
    /// A local account, by its 64-bit index.
    AccountIndex64(u64),
}

/// The interior path of an external location.
#[derive(Clone, Copy, Debug, PartialEq, Eq, Structural)]
pub enum Junctions {
    /// The location itself.
    Here,
    /// One step down.
    X1(Junction),
}

/// An external location descriptor: how many levels up it starts, and the
/// interior path from there.
#[derive(Clone, Copy, Debug, PartialEq, Eq, Structural)]
pub struct MultiLocation {
    pub parents: u8,
    pub interior: Junctions,
}

/// How an external asset is identified: by a concrete location, or by an
/// opaque abstract name the bridge does not support.
#[derive(Clone, Debug, PartialEq, Eq)]
pub enum AssetId {
    Concrete(MultiLocation),
    Abstract(Vec<u8>),
}

/// The quantity carried by an external asset; only fungible amounts are
/// supported.
#[derive(Clone, Copy, Debug, PartialEq, Eq, Structural)]
pub enum Fungibility {
    Fungible(u128),
    NonFungible,
}

/// An external asset: its identifier and its quantity.
#[derive(Clone, Debug, PartialEq, Eq)]
pub struct MultiAsset {
    pub id: AssetId,
    pub fun: Fungibility,
}

/// How a bridge primitive failed, in the transport layer's tagged form.
#[derive(Clone, Copy, Debug, PartialEq, Eq, Structural)]
pub enum XcmError {
    /// A location could not be converted to a local account.
    FailedToDecode,
    /// A tagged failure: an unsupported amount, an unconvertible asset id,
    /// or a refusal of the underlying currency or token operation.
    Trap(u64),
}

/// The kind of a bridged asset.
#[derive(Clone, Copy, Debug, PartialEq, Eq, Structural)]
pub enum AssetType {
    Fungible,
    NonFungible,
}

/// A bridged asset as the mapping stores it: its external location and its
/// kind.
#[derive(Clone, Copy, Debug, PartialEq, Eq, Structural)]
pub struct ParachainAsset {
    pub location: MultiLocation,
    pub asset_type: AssetType,
}

/// Why registering an asset was refused.
#[derive(Clone, Copy, Debug, PartialEq, Eq, Structural)]
pub enum Error {
    NoneValue,
    StorageOverflow,
}

/// The canonical byte encoding of a junction.
pub open spec fn spec_junction_encoding(j: Junction) -> Seq<u8> {
    match j {
        Junction::Parachain(id) => seq![0u8] + spec_u32_to_le_bytes(id),
        Junction::AccountIndex64(index) => seq![1u8] + spec_u64_to_le_bytes(index),
    }
}

/// The canonical byte encoding of an interior path.
pub open spec fn spec_junctions_encoding(j: Junctions) -> Seq<u8> {
    match j {
        Junctions::Here => seq![0u8],
        Junctions::X1(x) => seq![1u8] + spec_junction_encoding(x),
    }
}

/// The canonical byte encoding of a location.
pub open spec fn spec_location_encoding(l: MultiLocation) -> Seq<u8> {
    seq![l.parents] + spec_junctions_encoding(l.interior)
}

/// The canonical byte encoding of a stored bridged asset.
pub open spec fn spec_parachain_asset_encoding(a: ParachainAsset) -> Seq<u8> {
    spec_location_encoding(a.location) + (match a.asset_type {
        AssetType::Fungible => seq![0u8],
        AssetType::NonFungible => seq![1u8],
    })
}

/// The derived local asset id of a concrete location: the hash of the
/// location serialized as a fungible bridged asset.
pub open spec fn spec_location_asset_id(l: MultiLocation) -> u128 {
    spec_id_of_bytes(
        spec_parachain_asset_encoding(
            ParachainAsset { location: l, asset_type: AssetType::Fungible },
        ),
    )
}

fn junction_encoding(j: &Junction) -> (r: Vec<u8>)
    ensures
        r@ == spec_junction_encoding(*j),
{
    let mut bytes: Vec<u8> = Vec::new();
    match j {
        Junction::Parachain(id) => {
            bytes.push(0);
            let mut rest = u32_to_le_bytes(*id);
            bytes.append(&mut rest);
        },
        Junction::AccountIndex64(index) => {
            bytes.push(1);
            let mut rest = u64_to_le_bytes(*index);
            bytes.append(&mut rest);
        },
    }
    bytes
}

fn parachain_asset_encoding(a: &ParachainAsset) -> (r: Vec<u8>)
    ensures
        r@ == spec_parachain_asset_encoding(*a),
{
    let mut bytes: Vec<u8> = Vec::new();
    bytes.push(a.location.parents);
    match &a.location.interior {
        Junctions::Here => {
            bytes.push(0);
        },
        Junctions::X1(x) => {
            bytes.push(1);
            let mut rest = junction_encoding(x);
            bytes.append(&mut rest);
        },
    }
    match a.asset_type {
        AssetType::Fungible => bytes.push(0),
        AssetType::NonFungible => bytes.push(1),
    }
    bytes
}

impl ParachainAsset {
    /// How an external asset id becomes a stored bridged asset: a concrete
    /// location is taken as fungible, an abstract id is unsupported.
    pub open spec fn spec_convert_asset_id(asset_id: AssetId) -> Option<ParachainAsset> {
        match asset_id {
            AssetId::Concrete(location) => Some(
                ParachainAsset { location, asset_type: AssetType::Fungible },
            ),
            AssetId::Abstract(_) => None,
        }
    }

    /// Converts an external asset id into a stored bridged asset, refusing
    /// abstract ids.
    pub fn convert_asset_id(asset_id: AssetId) -> (r: Option<ParachainAsset>)
        ensures
            r == ParachainAsset::spec_convert_asset_id(asset_id),
    {
        match asset_id {
            AssetId::Concrete(location) => Some(
                ParachainAsset { location, asset_type: AssetType::Fungible },
            ),
            AssetId::Abstract(_) => None,
        }
    }
}

/// The location-to-account conversion the host configures: a location at
/// the local level whose single junction is a 64-bit account index names
/// that account; nothing else converts.
pub open spec fn spec_location_to_account(l: MultiLocation) -> Option<u64> {
    if l.parents == 0 {
        match l.interior {
            Junctions::X1(Junction::AccountIndex64(index)) => Some(index),
            _ => None,
        }
    } else {
        None
    }
}

/// Converts a location to the local account it names, if any.
pub fn location_to_account(l: &MultiLocation) -> (r: Option<u64>)
    ensures
        r == spec_location_to_account(*l),
{
    if l.parents == 0 {
        match &l.interior {
            Junctions::X1(Junction::AccountIndex64(index)) => Some(*index),
            _ => None,
        }
    } else {
        None
    }
}

/// The asset bridge: the derived-id-to-location mapping, and the id of the
/// chain whose location counts as the native asset.
pub struct Pallet {
    asset_mapping: HashMapWithView<u128, ParachainAsset>,
    parachain_id: u32,
}

impl Pallet {
    /// The stored asset mapping, keyed by derived local asset id.
    pub closed spec fn spec_asset_mapping(self) -> Map<u128, ParachainAsset> {
        self.asset_mapping@
    }

    /// The chain id whose location is the native asset.
    pub closed spec fn spec_parachain_id(self) -> u32 {
        self.parachain_id
    }

    /// Creates an empty bridge for the chain with the given id.
    pub fn new(parachain_id: u32) -> (r: Pallet)
        ensures
            r.spec_asset_mapping() == Map::<u128, ParachainAsset>::empty(),
            r.spec_parachain_id() == parachain_id,
    {
        Pallet { asset_mapping: HashMapWithView::new(), parachain_id }
    }

    /// The stored bridged asset under a derived local asset id, if any.
    pub fn get_asset(&self, asset_id: u128) -> (r: Option<&ParachainAsset>)
        ensures
            match r {
                Some(a) => self.spec_asset_mapping().contains_key(asset_id) && *a
                    == self.spec_asset_mapping()[asset_id],
                None => !self.spec_asset_mapping().contains_key(asset_id),
            },
    {
        self.asset_mapping.get(&asset_id)
    }

    /// How an external asset id translates to a derived local asset id:
    /// concrete locations hash to their id, abstract ids are unsupported.
    pub open spec fn spec_convert_asset_id_into_local(asset_id: AssetId) -> Option<u128> {
        match asset_id {
            AssetId::Concrete(location) => Some(spec_location_asset_id(location)),
            AssetId::Abstract(_) => None,
        }
    }

    /// Derives the local asset id of an external asset id, refusing
    /// abstract ids.
    pub fn convert_asset_id_into_local(asset_id: &AssetId) -> (r: Option<u128>)
        ensures
            r == Pallet::spec_convert_asset_id_into_local(*asset_id),
    {
        match asset_id {
            AssetId::Concrete(location) => {
                let parachain_asset = ParachainAsset {
                    location: *location,
                    asset_type: AssetType::Fungible,
                };
                let encoded = parachain_asset_encoding(&parachain_asset);
                Some(id_of_bytes(encoded.as_slice()))
            },
            AssetId::Abstract(_) => None,
        }
    }

    /// Whether an external asset id names this chain's own native asset:
    /// exactly the location one level up, at this chain's id.
    pub open spec fn spec_is_native_asset(self, asset: AssetId) -> bool {
        match asset {
            AssetId::Concrete(location) => location == (MultiLocation {
                parents: 1,
                interior: Junctions::X1(Junction::Parachain(self.spec_parachain_id())),
            }),
            AssetId::Abstract(_) => false,
        }
    }

    /// Checks whether an external asset id names the native asset.
    pub fn is_native_asset(&self, asset: &AssetId) -> (r: bool)
        ensures
            r == self.spec_is_native_asset(*asset),
    {
        let native_asset = MultiLocation {
            parents: 1,
            interior: Junctions::X1(Junction::Parachain(self.parachain_id)),
        };
        match asset {
            AssetId::Concrete(location) => *location == native_asset,
            AssetId::Abstract(_) => false,
        }
    }

    /// The fungible amount carried by a quantity, if it is fungible.
    pub open spec fn spec_get_amount(fun: Fungibility) -> Option<u128> {
        match fun {
            Fungibility::Fungible(amount) => Some(amount),
            Fungibility::NonFungible => None,
        }
    }

    /// Extracts the fungible amount of a quantity; non-fungible kinds are
    /// unsupported.
    pub fn get_amount(fun: &Fungibility) -> (r: Option<u128>)
        ensures
            r == Pallet::spec_get_amount(*fun),
    {
        match fun {
            Fungibility::Fungible(amount) => Some(*amount),
            Fungibility::NonFungible => None,
        }
    }

    /// Whether registering an external asset would go through: only
    /// concrete locations can be registered.
    pub open spec fn spec_create_asset_check(asset_info: AssetId) -> Result<(), Error> {
        match asset_info {
            AssetId::Concrete(_) => Ok(()),
            AssetId::Abstract(_) => Err(Error::StorageOverflow),
        }
    }

    /// How a successful registration changes the mapping.
    pub open spec fn spec_create_asset_updates(pre: Pallet, post: Pallet, asset_info: AssetId) -> bool {
        &&& asset_info matches AssetId::Concrete(location)
        &&& post.spec_asset_mapping() == pre.spec_asset_mapping().insert(
            spec_location_asset_id(location),
            ParachainAsset { location, asset_type: AssetType::Fungible },
        )
        &&& post.spec_parachain_id() == pre.spec_parachain_id()
    }

    /// Registers an external asset under its derived local id. The host
    /// authorizes the caller before forwarding the call. On failure nothing
    /// changes.
    pub fn create_asset(&mut self, asset_info: AssetId) -> (r: Result<(), Error>)
        ensures
            r == Pallet::spec_create_asset_check(asset_info),
            r is Err ==> *final(self) == *old(self),
            r is Ok ==> Pallet::spec_create_asset_updates(*old(self), *final(self), asset_info),
    {
        let asset_id = match Pallet::convert_asset_id_into_local(&asset_info) {
            None => {
                return Err(Error::StorageOverflow);
            },
            Some(id) => id,
        };
        let parachain_asset = match ParachainAsset::convert_asset_id(asset_info) {
            None => {
                return Err(Error::StorageOverflow);
            },
            Some(a) => a,
        };
        self.asset_mapping.insert(asset_id, parachain_asset);
        Ok(())
    }

    /// Whether a deposit would go through, and the tagged error otherwise:
    /// the beneficiary location must convert to an account and the amount
    /// must be fungible; a native deposit then always succeeds, a token
    /// deposit needs a convertible id and an accepting mint.
    pub open spec fn spec_deposit_asset_check(
        self,
        tokens: Assets,
        what: MultiAsset,
        who: MultiLocation,
    ) -> Result<(), XcmError> {
        match spec_location_to_account(who) {
            None => Err(XcmError::FailedToDecode),
            Some(account) => match Pallet::spec_get_amount(what.fun) {
                None => Err(XcmError::Trap(101)),
                Some(amount) => if self.spec_is_native_asset(what.id) {
                    Ok(())
                } else {
                    match Pallet::spec_convert_asset_id_into_local(what.id) {
                        None => Err(XcmError::Trap(22)),
                        Some(asset_id) => match tokens.spec_mint_check(asset_id, account, amount) {
                            Err(_) => Err(XcmError::Trap(24)),
                            Ok(()) => Ok(()),
                        },
                    }
                },
            },
        }
    }

    /// Deposits a bridged asset to the account its location names: native
    /// currency is credited (creating the account if the amount allows),
    /// any other asset is minted as its local token. Atomic: on failure
    /// neither backend changes.
    pub fn deposit_asset(
        &self,
        funds: &mut Balances,
        tokens: &mut Assets,
        what: &MultiAsset,
        who: &MultiLocation,
    ) -> (r: Result<(), XcmError>)
        ensures
            r == self.spec_deposit_asset_check(*old(tokens), *what, *who),
            r is Err ==> *final(funds) == *old(funds) && *final(tokens) == *old(tokens),
            r is Ok ==> ({
                &&& spec_location_to_account(*who) matches Some(account)
                &&& Pallet::spec_get_amount(what.fun) matches Some(amount)
                &&& if self.spec_is_native_asset(what.id) {
                    &&& Balances::spec_deposit_creating_updates(
                        *old(funds),
                        *final(funds),
                        account,
                        amount,
                    )
                    &&& *final(tokens) == *old(tokens)
                } else {
                    &&& Pallet::spec_convert_asset_id_into_local(what.id) matches Some(asset_id)
                        && Assets::spec_mint_updates(
                        *old(tokens),
                        *final(tokens),
                        asset_id,
                        account,
                        amount,
                    )
                    &&& *final(funds) == *old(funds)
                }
            }),
    {
        let account = match location_to_account(who) {
            None => {
                return Err(XcmError::FailedToDecode);
            },
            Some(a) => a,
        };
        let amount = match Pallet::get_amount(&what.fun) {
            None => {
                return Err(XcmError::Trap(101));
            },
            Some(x) => x,
        };
        if self.is_native_asset(&what.id) {
            funds.deposit_creating(account, amount);
        } else {
            let asset_id = match Pallet::convert_asset_id_into_local(&what.id) {
                None => {
                    return Err(XcmError::Trap(22));
                },
                Some(id) => id,
            };
            match tokens.mint_into(asset_id, account, amount) {
                Err(_) => {
                    return Err(XcmError::Trap(24));
                },
                Ok(()) => {},
            }
        }
        Ok(())
    }

    /// Whether a withdrawal would go through, and the tagged error
    /// otherwise: the source location must convert to an account and the
    /// amount must be fungible; native currency is withdrawn keeping the
    /// account alive, any other asset needs a convertible id and an
    /// accepted burn.
    pub open spec fn spec_withdraw_asset_check(
        self,
        funds: Balances,
        tokens: Assets,
        what: MultiAsset,
        who: MultiLocation,
    ) -> Result<(), XcmError> {
        match spec_location_to_account(who) {
            None => Err(XcmError::FailedToDecode),
            Some(account) => match Pallet::spec_get_amount(what.fun) {
                None => Err(XcmError::Trap(101)),
                Some(amount) => if self.spec_is_native_asset(what.id) {
                    match funds.spec_withdraw_check(account, amount, true) {
                        Err(_) => Err(XcmError::Trap(21)),
                        Ok(()) => Ok(()),
                    }
                } else {
                    match Pallet::spec_convert_asset_id_into_local(what.id) {
                        None => Err(XcmError::Trap(22)),
                        Some(asset_id) => match tokens.spec_burn_check(asset_id, account, amount) {
                            Err(_) => Err(XcmError::Trap(24)),
                            Ok(()) => Ok(()),
                        },
                    }
                },
            },
        }
    }

    /// Withdraws a bridged asset from the account its location names and
    /// echoes the asset back on success: native currency is destroyed
    /// keeping the account alive, any other asset is burnt from its local
    /// token. Atomic: on failure neither backend changes.
    pub fn withdraw_asset(
        &self,
        funds: &mut Balances,
        tokens: &mut Assets,
        what: &MultiAsset,
        who: &MultiLocation,
    ) -> (r: Result<MultiAsset, XcmError>)
        ensures
            r is Ok <==> self.spec_withdraw_asset_check(*old(funds), *old(tokens), *what, *who)
                is Ok,
            r matches Err(e) ==> Err::<(), XcmError>(e) == self.spec_withdraw_asset_check(
                *old(funds),
                *old(tokens),
                *what,
                *who,
            ) && *final(funds) == *old(funds) && *final(tokens) == *old(tokens),
            r matches Ok(echoed) ==> echoed == *what && ({
                &&& spec_location_to_account(*who) matches Some(account)
                &&& Pallet::spec_get_amount(what.fun) matches Some(amount)
                &&& if self.spec_is_native_asset(what.id) {
                    &&& Balances::spec_withdraw_updates(*old(funds), *final(funds), account, amount)
                    &&& *final(tokens) == *old(tokens)
                } else {
                    &&& Pallet::spec_convert_asset_id_into_local(what.id) matches Some(asset_id)
                        && Assets::spec_burn_updates(
                        *old(tokens),
                        *final(tokens),
                        asset_id,
                        account,
                        amount,
                    )
                    &&& *final(funds) == *old(funds)
                }
            }),
    {
        let account = match location_to_account(who) {
            None => {
                return Err(XcmError::FailedToDecode);
            },
            Some(a) => a,
        };
        let amount = match Pallet::get_amount(&what.fun) {
            None => {
                return Err(XcmError::Trap(101));
            },
            Some(x) => x,
        };
        if self.is_native_asset(&what.id) {
            match funds.withdraw(account, amount, true) {
                Err(_) => {
                    return Err(XcmError::Trap(21));
                },
                Ok(()) => {},
            }
        } else {
            let asset_id = match Pallet::convert_asset_id_into_local(&what.id) {
                None => {
                    return Err(XcmError::Trap(22));
                },
                Some(id) => id,
            };
            match tokens.burn_from(asset_id, account, amount) {
                Err(_) => {
                    return Err(XcmError::Trap(24));
                },
                Ok(()) => {},
            }
        }
        match &what.id {
            AssetId::Concrete(location) => Ok(
                MultiAsset { id: AssetId::Concrete(*location), fun: what.fun },
            ),
            AssetId::Abstract(_) => Err(XcmError::Trap(22)),
        }
    }

    /// Whether an asset transfer would go through, and the tagged error
    /// otherwise: both locations must convert to accounts and the amount
    /// must be fungible; native currency moves under the keep-alive
    /// policy, any other asset moves as its local token under the same
    /// policy.
    pub open spec fn spec_transfer_asset_check(
        self,
        funds: Balances,
        tokens: Assets,
        asset: MultiAsset,
        from: MultiLocation,
        to: MultiLocation,
    ) -> Result<(), XcmError> {
        match spec_location_to_account(from) {
            None => Err(XcmError::FailedToDecode),
            Some(from_account) => match spec_location_to_account(to) {
                None => Err(XcmError::FailedToDecode),
                Some(to_account) => match Pallet::spec_get_amount(asset.fun) {
                    None => Err(XcmError::Trap(101)),
                    Some(amount) => if self.spec_is_native_asset(asset.id) {
                        match funds.spec_transfer_check(from_account, to_account, amount, true) {
                            Err(_) => Err(XcmError::Trap(21)),
                            Ok(()) => Ok(()),
                        }
                    } else {
                        match Pallet::spec_convert_asset_id_into_local(asset.id) {
                            None => Err(XcmError::Trap(22)),
                            Some(asset_id) => match tokens.spec_transfer_check(
                                asset_id,
                                from_account,
                                to_account,
                                amount,
                                true,
                            ) {
                                Err(_) => Err(XcmError::Trap(23)),
                                Ok(()) => Ok(()),
                            },
                        }
                    },
                },
            },
        }
    }

    /// Moves a bridged asset between the accounts its locations name and
    /// echoes the asset back on success: native currency through the
    /// currency backend, any other asset through its local token, both
    /// keeping the source alive. Atomic: on failure neither backend
    /// changes.
    pub fn transfer_asset(
        &self,
        funds: &mut Balances,
        tokens: &mut Assets,
        asset: &MultiAsset,
        from: &MultiLocation,
        to: &MultiLocation,
    ) -> (r: Result<MultiAsset, XcmError>)
        ensures
            r is Ok <==> self.spec_transfer_asset_check(
                *old(funds),
                *old(tokens),
                *asset,
                *from,
                *to,
            ) is Ok,
            r matches Err(e) ==> Err::<(), XcmError>(e) == self.spec_transfer_asset_check(
                *old(funds),
                *old(tokens),
                *asset,
                *from,
                *to,
            ) && *final(funds) == *old(funds) && *final(tokens) == *old(tokens),
            r matches Ok(echoed) ==> echoed == *asset && ({
                &&& spec_location_to_account(*from) matches Some(from_account)
                &&& spec_location_to_account(*to) matches Some(to_account)
                &&& Pallet::spec_get_amount(asset.fun) matches Some(amount)
                &&& if self.spec_is_native_asset(asset.id) {
                    &&& Balances::spec_transfer_updates(
                        *old(funds),
                        *final(funds),
                        from_account,
                        to_account,
                        amount,
                    )
                    &&& *final(tokens) == *old(tokens)
                } else {
                    &&& Pallet::spec_convert_asset_id_into_local(asset.id) matches Some(asset_id)
                        && Assets::spec_transfer_updates(
                        *old(tokens),
                        *final(tokens),
                        asset_id,
                        from_account,
                        to_account,
                        amount,
                    )
                    &&& *final(funds) == *old(funds)
                }
            }),
    {
        let from_account = match location_to_account(from) {
            None => {
                return Err(XcmError::FailedToDecode);
            },
            Some(a) => a,
        };
        let to_account = match location_to_account(to) {
            None => {
                return Err(XcmError::FailedToDecode);
            },
            Some(a) => a,
        };
        let amount = match Pallet::get_amount(&asset.fun) {
            None => {
                return Err(XcmError::Trap(101));
            },
            Some(x) => x,
        };
        if self.is_native_asset(&asset.id) {
            match funds.transfer(from_account, to_account, amount, true) {
                Err(_) => {
                    return Err(XcmError::Trap(21));
                },
                Ok(()) => {},
            }
        } else {
            let asset_id = match Pallet::convert_asset_id_into_local(&asset.id) {
                None => {
                    return Err(XcmError::Trap(22));
                },
                Some(id) => id,
            };
            match tokens.transfer(asset_id, from_account, to_account, amount, true) {
                Err(_) => {
                    return Err(XcmError::Trap(23));
                },
                Ok(()) => {},
            }
        }
        match &asset.id {
            AssetId::Concrete(location) => Ok(
                MultiAsset { id: AssetId::Concrete(*location), fun: asset.fun },
            ),
            AssetId::Abstract(_) => Err(XcmError::Trap(22)),
        }
    }

    /// Looks a derived local asset id back up to the external location it
    /// was registered under, if any.
    pub fn convert_asset_id_to_location(&self, asset_id: u128) -> (r: Option<MultiLocation>)
        ensures
            match r {
                Some(location) => self.spec_asset_mapping().contains_key(asset_id) && location
                    == self.spec_asset_mapping()[asset_id].location,
                None => !self.spec_asset_mapping().contains_key(asset_id),
            },
    {
        match self.asset_mapping.get(&asset_id) {
            Some(parachain_asset) => Some(parachain_asset.location),
            None => None,
        }
    }

    /// Derives the local asset id a location would be registered under.
    pub fn convert_location_to_asset_id(location: MultiLocation) -> (r: Option<u128>)
        ensures
            r == Some(spec_location_asset_id(location)),
    {
        let parachain_asset = ParachainAsset { location, asset_type: AssetType::Fungible };
        let encoded = parachain_asset_encoding(&parachain_asset);
        Some(id_of_bytes(encoded.as_slice()))
    }
}

} // verus!
