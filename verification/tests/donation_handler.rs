use charity_ledger::assets::Assets;
use charity_ledger::balances::Balances;
use charity_ledger::donation_handler::{Error, Pallet};
use charity_ledger::participant_handler::{Category, NgoInfo, SellerInfo};

const TOKEN: u128 = 1_000_000_000_000;
const EXISTENTIAL_DEPOSIT: u128 = TOKEN;
const ESCROW_ACCOUNT: u64 = 1_000_000;

struct TestExt {
    registry: charity_ledger::participant_handler::Pallet,
    settlement: Pallet,
    funds: Balances,
    tokens: Assets,
}

fn new_test_ext() -> TestExt {
    TestExt {
        registry: charity_ledger::participant_handler::Pallet::new(TOKEN, TOKEN),
        settlement: Pallet::new(ESCROW_ACCOUNT),
        funds: Balances::new(EXISTENTIAL_DEPOSIT),
        tokens: Assets::new(),
    }
}

fn add_ngo(ext: &mut TestExt, ngo: u64) {
    let ngo_info = NgoInfo { categories: Vec::new(), cid: [0; 32] };
    ext.registry.add_ngo_to_active_list(ngo, ngo_info);
}

fn add_seller(ext: &mut TestExt, seller: u64) {
    let seller_info = SellerInfo { category: Category::Pharmaceutical, cid: [0; 32] };
    ext.registry.add_seller_to_active_list(seller, seller_info);
}

fn create_assets(ext: &mut TestExt) {
    ext.funds.set_balance(1, 1_000_000_000_000_000, 0);
    assert!(ext.tokens.create(Category::Pharmaceutical.get_id() as u128, 1, 1).is_ok());
    let _ = ext.tokens.create(Category::Stationery.get_id() as u128, 1, 1);
    let _ = ext.tokens.create(Category::Clothing.get_id() as u128, 1, 1);
    let _ = ext.tokens.create(Category::Grocery.get_id() as u128, 1, 1);
}

/// Endows the escrow so that claims minted outside the donation path can
/// still be paid out.
fn fund_escrow(ext: &mut TestExt) {
    ext.funds.set_balance(ESCROW_ACCOUNT, 1_000_000_000_000_000, 0);
}

#[test]
fn test_donate_with_valid_arguments_returns_ok() {
    let mut ext = new_test_ext();
    create_assets(&mut ext);
    let ngo: u64 = 1;
    let donor: u64 = 2;
    ext.funds.set_balance(2, 1_000_000_000_000_000, 0);
    add_ngo(&mut ext, ngo);
    assert!(ext
        .settlement
        .donate(
            &ext.registry,
            &mut ext.funds,
            &mut ext.tokens,
            donor,
            ngo,
            Category::Pharmaceutical,
            1_000_000_000_000
        )
        .is_ok());
}

#[test]
fn test_donate_with_wrong_ngo_returns_error() {
    let mut ext = new_test_ext();
    create_assets(&mut ext);
    let ngo: u64 = 1;
    let donor: u64 = 2;
    ext.funds.set_balance(2, 1_000_000_000_000_000, 0);
    assert_eq!(
        ext.settlement.donate(
            &ext.registry,
            &mut ext.funds,
            &mut ext.tokens,
            donor,
            ngo,
            Category::Pharmaceutical,
            1_000_000_000_000
        ),
        Err(Error::RecipientNotValid)
    );
}

#[test]
fn test_claim_token_with_valid_args_returns_ok() {
    let mut ext = new_test_ext();
    create_assets(&mut ext);
    fund_escrow(&mut ext);
    let seller = 1;
    ext.funds.set_balance(seller, 1_000_000_000_000_000, 0);
    add_seller(&mut ext, seller);
    assert!(ext
        .tokens
        .mint_into(Category::Pharmaceutical.get_id() as u128, seller, 1_000)
        .is_ok());
    assert!(ext
        .settlement
        .claim_token(
            &ext.registry,
            &mut ext.funds,
            &mut ext.tokens,
            seller,
            Category::Pharmaceutical,
            100
        )
        .is_ok());
}

#[test]
fn test_claim_token_wrong_seller_returns_error() {
    let mut ext = new_test_ext();
    create_assets(&mut ext);
    fund_escrow(&mut ext);
    let seller = 1;
    ext.funds.set_balance(seller, 1_000_000_000_000_000, 0);
    assert_eq!(
        ext.settlement.claim_token(
            &ext.registry,
            &mut ext.funds,
            &mut ext.tokens,
            seller,
            Category::Pharmaceutical,
            100
        ),
        Err(Error::CallerNotValid)
    );
}

#[test]
fn test_donate_to_inactive_ngo_changes_nothing() {
    let mut ext = new_test_ext();
    create_assets(&mut ext);
    let outsider: u64 = 7;
    let donor: u64 = 2;
    ext.funds.set_balance(donor, 10 * TOKEN, 0);
    let donor_free_before = ext.funds.free_balance(donor);
    let escrow_free_before = ext.funds.free_balance(ESCROW_ACCOUNT);
    let outsider_tokens_before = ext.tokens.balance_of(0, outsider);
    assert_eq!(
        ext.settlement.donate(
            &ext.registry,
            &mut ext.funds,
            &mut ext.tokens,
            donor,
            outsider,
            Category::Pharmaceutical,
            TOKEN
        ),
        Err(Error::RecipientNotValid)
    );
    assert_eq!(ext.funds.free_balance(donor), donor_free_before);
    assert_eq!(ext.funds.free_balance(ESCROW_ACCOUNT), escrow_free_before);
    assert_eq!(ext.tokens.balance_of(0, outsider), outsider_tokens_before);
}

#[test]
fn test_claim_by_inactive_seller_burns_nothing() {
    let mut ext = new_test_ext();
    create_assets(&mut ext);
    fund_escrow(&mut ext);
    let outsider: u64 = 3;
    assert!(ext.tokens.mint_into(0, outsider, 500).is_ok());
    assert_eq!(
        ext.settlement.claim_token(
            &ext.registry,
            &mut ext.funds,
            &mut ext.tokens,
            outsider,
            Category::Pharmaceutical,
            100
        ),
        Err(Error::CallerNotValid)
    );
    assert_eq!(ext.tokens.balance_of(0, outsider), 500);
}

#[test]
fn test_donate_mints_and_escrows_one_to_one() {
    let mut ext = new_test_ext();
    create_assets(&mut ext);
    let ngo: u64 = 1;
    let donor: u64 = 2;
    ext.funds.set_balance(donor, 10 * TOKEN, 0);
    add_ngo(&mut ext, ngo);
    let ngo_tokens_before = ext.tokens.balance_of(0, ngo);
    assert!(ext
        .settlement
        .donate(
            &ext.registry,
            &mut ext.funds,
            &mut ext.tokens,
            donor,
            ngo,
            Category::Pharmaceutical,
            3 * TOKEN
        )
        .is_ok());
    assert_eq!(ext.funds.free_balance(donor), 7 * TOKEN);
    assert_eq!(ext.funds.free_balance(ESCROW_ACCOUNT), 3 * TOKEN);
    assert_eq!(ext.tokens.balance_of(0, ngo), ngo_tokens_before + 3 * TOKEN);
}

#[test]
fn test_donate_without_asset_class_returns_token_error() {
    let mut ext = new_test_ext();
    let ngo: u64 = 1;
    let donor: u64 = 2;
    ext.funds.set_balance(donor, 10 * TOKEN, 0);
    add_ngo(&mut ext, ngo);
    let donor_free_before = ext.funds.free_balance(donor);
    assert_eq!(
        ext.settlement.donate(
            &ext.registry,
            &mut ext.funds,
            &mut ext.tokens,
            donor,
            ngo,
            Category::Pharmaceutical,
            TOKEN
        ),
        Err(Error::Token(charity_ledger::assets::Error::Unknown))
    );
    assert_eq!(ext.funds.free_balance(donor), donor_free_before);
    assert_eq!(ext.funds.free_balance(ESCROW_ACCOUNT), 0);
}

#[test]
fn test_donate_that_would_kill_donor_returns_keep_alive_error() {
    let mut ext = new_test_ext();
    create_assets(&mut ext);
    let ngo: u64 = 1;
    let donor: u64 = 2;
    ext.funds.set_balance(donor, TOKEN + 5, 0);
    add_ngo(&mut ext, ngo);
    assert_eq!(
        ext.settlement.donate(
            &ext.registry,
            &mut ext.funds,
            &mut ext.tokens,
            donor,
            ngo,
            Category::Pharmaceutical,
            TOKEN
        ),
        Err(Error::Currency(charity_ledger::balances::Error::KeepAlive))
    );
    assert_eq!(ext.funds.free_balance(donor), TOKEN + 5);
}

#[test]
fn test_donate_below_existential_deposit_returns_currency_error() {
    let mut ext = new_test_ext();
    create_assets(&mut ext);
    let ngo: u64 = 1;
    let donor: u64 = 2;
    ext.funds.set_balance(donor, 10 * TOKEN, 0);
    add_ngo(&mut ext, ngo);
    assert_eq!(
        ext.settlement.donate(
            &ext.registry,
            &mut ext.funds,
            &mut ext.tokens,
            donor,
            ngo,
            Category::Pharmaceutical,
            10
        ),
        Err(Error::Currency(charity_ledger::balances::Error::ExistentialDeposit))
    );
}

#[test]
fn test_donate_with_insufficient_donor_funds_returns_currency_error() {
    let mut ext = new_test_ext();
    create_assets(&mut ext);
    let ngo: u64 = 1;
    let donor: u64 = 9;
    add_ngo(&mut ext, ngo);
    assert_eq!(
        ext.settlement.donate(
            &ext.registry,
            &mut ext.funds,
            &mut ext.tokens,
            donor,
            ngo,
            Category::Pharmaceutical,
            TOKEN
        ),
        Err(Error::Currency(charity_ledger::balances::Error::InsufficientBalance))
    );
}

#[test]
fn test_claim_more_than_token_balance_returns_token_error() {
    let mut ext = new_test_ext();
    create_assets(&mut ext);
    fund_escrow(&mut ext);
    let seller = 1;
    ext.funds.set_balance(seller, 10 * TOKEN, 0);
    add_seller(&mut ext, seller);
    assert!(ext.tokens.mint_into(0, seller, 50).is_ok());
    assert_eq!(
        ext.settlement.claim_token(
            &ext.registry,
            &mut ext.funds,
            &mut ext.tokens,
            seller,
            Category::Pharmaceutical,
            100
        ),
        Err(Error::Token(charity_ledger::assets::Error::BalanceLow))
    );
    assert_eq!(ext.tokens.balance_of(0, seller), 50);
}

#[test]
fn test_donate_then_claim_round_trip_nets_out() {
    let mut ext = new_test_ext();
    create_assets(&mut ext);
    fund_escrow(&mut ext);
    let both: u64 = 4;
    let donor: u64 = 2;
    ext.funds.set_balance(donor, 10 * TOKEN, 0);
    ext.funds.set_balance(both, 2 * TOKEN, 0);
    add_ngo(&mut ext, both);
    add_seller(&mut ext, both);
    let escrow_before = ext.funds.free_balance(ESCROW_ACCOUNT);
    let both_free_before = ext.funds.free_balance(both);
    let both_tokens_before = ext.tokens.balance_of(0, both);
    assert!(ext
        .settlement
        .donate(
            &ext.registry,
            &mut ext.funds,
            &mut ext.tokens,
            donor,
            both,
            Category::Pharmaceutical,
            TOKEN
        )
        .is_ok());
    assert!(ext
        .settlement
        .claim_token(
            &ext.registry,
            &mut ext.funds,
            &mut ext.tokens,
            both,
            Category::Pharmaceutical,
            TOKEN
        )
        .is_ok());
    assert_eq!(ext.funds.free_balance(ESCROW_ACCOUNT), escrow_before);
    assert_eq!(ext.funds.free_balance(both), both_free_before + TOKEN);
    assert_eq!(ext.tokens.balance_of(0, both), both_tokens_before);
}

#[test]
fn test_get_pallet_account_returns_configured_escrow() {
    let ext = new_test_ext();
    assert_eq!(ext.settlement.get_pallet_account(), ESCROW_ACCOUNT);
}
