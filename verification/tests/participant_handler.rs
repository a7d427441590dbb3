use charity_ledger::balances::Balances;
use charity_ledger::participant_handler::{Category, Error, NgoInfo, Pallet, SellerInfo};

const TOKEN: u128 = 1_000_000_000_000;
const NGO_STAKING_AMOUNT: u128 = TOKEN;
const SELLER_STAKING_AMOUNT: u128 = TOKEN;
const EXISTENTIAL_DEPOSIT: u128 = TOKEN;
const IDENTITY_DEPOSIT: u128 = 1;

fn new_test_ext() -> (Pallet, Balances) {
    (
        Pallet::new(NGO_STAKING_AMOUNT, SELLER_STAKING_AMOUNT),
        Balances::new(EXISTENTIAL_DEPOSIT),
    )
}

fn get_ngo_info() -> (u64, NgoInfo) {
    let ngo: u64 = 1;
    let categories_supported = vec![Category::Pharmaceutical, Category::Clothing];
    let ngo_info = NgoInfo { categories: categories_supported, cid: [1; 32] };
    (ngo, ngo_info)
}

fn get_seller_info() -> (u64, SellerInfo) {
    let seller: u64 = 1;
    let seller_info = SellerInfo { category: Category::Pharmaceutical, cid: [1; 32] };
    (seller, seller_info)
}

/// Endows the account and takes the identity service's deposit, as
/// registering an identity does.
fn add_identity(funds: &mut Balances, id: u64) {
    funds.set_balance(id, 10_000_000_000_000_000u128, 0);
    assert!(funds.reserve(id, IDENTITY_DEPOSIT).is_ok());
}

#[test]
fn test_apply_as_ngo_with_valid_inputs_returns_ok() {
    let (mut registry, mut funds) = new_test_ext();
    let (ngo, ngo_info) = get_ngo_info();
    add_identity(&mut funds, ngo);
    assert!(registry.apply_as_ngo(&mut funds, ngo, true, ngo_info).is_ok());
    assert_eq!(funds.reserved_balance(ngo), 1_000_000_000_001);
    assert!(registry.get_ngo_waiting_list(ngo).is_some());
}

#[test]
fn test_apply_as_ngo_with_anonymous_identity_returns_identity_error() {
    let (mut registry, mut funds) = new_test_ext();
    let (ngo, ngo_info) = get_ngo_info();
    assert_eq!(
        registry.apply_as_ngo(&mut funds, ngo, false, ngo_info),
        Err(Error::IdentityNotFound)
    );
}

#[test]
fn test_apply_as_ngo_with_already_registered_ngo_returns_error() {
    let (mut registry, mut funds) = new_test_ext();
    let (ngo, ngo_info) = get_ngo_info();
    registry.add_ngo_to_waiting_list(ngo, ngo_info.clone());
    add_identity(&mut funds, ngo);
    assert_eq!(
        registry.apply_as_ngo(&mut funds, ngo, true, ngo_info),
        Err(Error::AlreadyPartOfWaitingList)
    );
}

#[test]
fn test_approve_ngo_with_valid_arg_returns_ok() {
    let (mut registry, _funds) = new_test_ext();
    let (ngo, ngo_info) = get_ngo_info();
    registry.add_ngo_to_waiting_list(ngo, ngo_info);
    assert!(registry.approve_ngo(ngo).is_ok());
}

#[test]
fn test_approve_ngo_with_un_registered_ngo_returns_error() {
    let (mut registry, _funds) = new_test_ext();
    let (ngo, _) = get_ngo_info();
    assert_eq!(registry.approve_ngo(ngo), Err(Error::NotPartOfWaitingList));
}

#[test]
fn test_approve_ngo_with_already_part_of_active_list_returns_error() {
    let (mut registry, _funds) = new_test_ext();
    let (ngo, ngo_info) = get_ngo_info();
    registry.add_ngo_to_waiting_list(ngo, ngo_info.clone());
    registry.add_ngo_to_active_list(ngo, ngo_info);
    assert_eq!(registry.approve_ngo(ngo), Err(Error::AlreadyPartOfActiveList));
}

#[test]
fn test_apply_as_seller_with_valid_inputs_returns_ok() {
    let (mut registry, mut funds) = new_test_ext();
    let (seller, seller_info) = get_seller_info();
    add_identity(&mut funds, seller);
    assert!(registry.apply_as_seller(&mut funds, seller, true, seller_info).is_ok());
    assert_eq!(funds.reserved_balance(seller), 1_000_000_000_001);
    assert!(registry.get_seller_waiting_list(seller).is_some());
}

#[test]
fn test_apply_as_seller_with_anonymous_identity_returns_identity_error() {
    let (mut registry, mut funds) = new_test_ext();
    let (seller, seller_info) = get_seller_info();
    assert_eq!(
        registry.apply_as_seller(&mut funds, seller, false, seller_info),
        Err(Error::IdentityNotFound)
    );
}

#[test]
fn test_apply_as_seller_with_already_registered_seller_returns_error() {
    let (mut registry, mut funds) = new_test_ext();
    let (seller, seller_info) = get_seller_info();
    registry.add_seller_to_waiting_list(seller, seller_info);
    add_identity(&mut funds, seller);
    assert_eq!(
        registry.apply_as_seller(&mut funds, seller, true, seller_info),
        Err(Error::AlreadyPartOfWaitingList)
    );
}

#[test]
fn test_approve_seller_with_valid_arg_returns_ok() {
    let (mut registry, _funds) = new_test_ext();
    let (seller, seller_info) = get_seller_info();
    registry.add_seller_to_waiting_list(seller, seller_info);
    assert!(registry.approve_seller(seller).is_ok());
}

#[test]
fn test_approve_seller_with_un_registered_seller_returns_error() {
    let (mut registry, _funds) = new_test_ext();
    let (seller, _) = get_seller_info();
    assert_eq!(registry.approve_seller(seller), Err(Error::NotPartOfWaitingList));
}

#[test]
fn test_approve_seller_with_already_part_of_active_list_returns_error() {
    let (mut registry, _funds) = new_test_ext();
    let (seller, seller_info) = get_seller_info();
    registry.add_seller_to_waiting_list(seller, seller_info);
    registry.add_seller_to_active_list(seller, seller_info);
    assert_eq!(registry.approve_seller(seller), Err(Error::AlreadyPartOfActiveList));
}

#[test]
fn test_apply_twice_without_approval_fails_for_both_roles() {
    let (mut registry, mut funds) = new_test_ext();
    let (ngo, ngo_info) = get_ngo_info();
    add_identity(&mut funds, ngo);
    assert!(registry.apply_as_ngo(&mut funds, ngo, true, ngo_info.clone()).is_ok());
    assert_eq!(
        registry.apply_as_ngo(&mut funds, ngo, true, ngo_info),
        Err(Error::AlreadyPartOfWaitingList)
    );
    let seller: u64 = 2;
    let seller_info = SellerInfo { category: Category::Grocery, cid: [9; 32] };
    add_identity(&mut funds, seller);
    assert!(registry.apply_as_seller(&mut funds, seller, true, seller_info).is_ok());
    assert_eq!(
        registry.apply_as_seller(&mut funds, seller, true, seller_info),
        Err(Error::AlreadyPartOfWaitingList)
    );
}

#[test]
fn test_apply_approve_apply_fails_as_already_active() {
    let (mut registry, mut funds) = new_test_ext();
    let (ngo, ngo_info) = get_ngo_info();
    add_identity(&mut funds, ngo);
    assert!(registry.apply_as_ngo(&mut funds, ngo, true, ngo_info.clone()).is_ok());
    assert!(registry.approve_ngo(ngo).is_ok());
    assert!(registry.is_active_ngo(ngo));
    assert!(registry.get_ngo_waiting_list(ngo).is_none());
    assert_eq!(
        registry.apply_as_ngo(&mut funds, ngo, true, ngo_info),
        Err(Error::AlreadyPartOfActiveList)
    );
    let (seller, seller_info) = (5u64, SellerInfo { category: Category::Clothing, cid: [3; 32] });
    add_identity(&mut funds, seller);
    assert!(registry.apply_as_seller(&mut funds, seller, true, seller_info).is_ok());
    assert!(registry.approve_seller(seller).is_ok());
    assert!(registry.is_active_seller(seller));
    assert_eq!(
        registry.apply_as_seller(&mut funds, seller, true, seller_info),
        Err(Error::AlreadyPartOfActiveList)
    );
}

#[test]
fn test_apply_with_insufficient_funds_returns_currency_error() {
    let (mut registry, mut funds) = new_test_ext();
    let (ngo, ngo_info) = get_ngo_info();
    funds.set_balance(ngo, NGO_STAKING_AMOUNT - 1, 0);
    assert_eq!(
        registry.apply_as_ngo(&mut funds, ngo, true, ngo_info),
        Err(Error::Currency(charity_ledger::balances::Error::InsufficientBalance))
    );
    assert_eq!(funds.free_balance(ngo), NGO_STAKING_AMOUNT - 1);
    assert_eq!(funds.reserved_balance(ngo), 0);
    assert!(registry.get_ngo_waiting_list(ngo).is_none());
}

#[test]
fn test_approve_moves_record_unchanged() {
    let (mut registry, mut funds) = new_test_ext();
    let (ngo, ngo_info) = get_ngo_info();
    add_identity(&mut funds, ngo);
    assert!(registry.apply_as_ngo(&mut funds, ngo, true, ngo_info.clone()).is_ok());
    assert!(registry.approve_ngo(ngo).is_ok());
    let active = registry.get_ngo_active_list(ngo).expect("approved ngo must be active");
    assert_eq!(active.cid, ngo_info.cid);
    assert_eq!(active.categories, ngo_info.categories);
}

#[test]
fn test_category_ids_are_stable() {
    assert_eq!(Category::Pharmaceutical.get_id(), 0);
    assert_eq!(Category::Stationery.get_id(), 1);
    assert_eq!(Category::Grocery.get_id(), 2);
    assert_eq!(Category::Clothing.get_id(), 3);
    assert_eq!(Category::default(), Category::Pharmaceutical);
}

#[test]
fn test_is_category_allowed() {
    let (_, ngo_info) = get_ngo_info();
    assert!(ngo_info.is_category_allowed(&Category::Pharmaceutical));
    assert!(ngo_info.is_category_allowed(&Category::Clothing));
    assert!(!ngo_info.is_category_allowed(&Category::Grocery));
    let (_, seller_info) = get_seller_info();
    assert!(seller_info.is_category_allowed(&Category::Pharmaceutical));
    assert!(!seller_info.is_category_allowed(&Category::Stationery));
}
