use casper_types::account::AccountHash;
use casper_types::bytesrepr::ToBytes;
use casper_types::{Key, PublicKey, SecretKey};

use csprusd::access::CallerFrame;
use csprusd::address::Address;
use csprusd::amount::Amount;
use csprusd::error::CsprUSDError;
use csprusd::token::Token;

const TOKEN_NAME: &str = "CasperTest";
const TOKEN_SYMBOL: &str = "CSPRT";
const TOKEN_CURRENCY: &str = "SOME_CCY";
const TOKEN_DECIMALS: u8 = 100;
const TOKEN_TOTAL_SUPPLY: u64 = 1_000_000_000;
const TRANSFER_AMOUNT_1: u64 = 200_001;
const TRANSFER_AMOUNT_2: u64 = 19_999;
const ALLOWANCE_AMOUNT_1: u64 = 456_789;
const ALLOWANCE_AMOUNT_2: u64 = 87_654;
const TOKEN_OWNER_AMOUNT_1: u64 = 1_000_000;
const TOKEN_OWNER_AMOUNT_2: u64 = 2_000_000;

/// The package of the token contract itself, at the top of every call stack.
const TOKEN_PACKAGE: [u8; 32] = [9; 32];
/// The package of the helper contract that calls the token as a stored contract.
const TEST_CONTRACT_PACKAGE: [u8; 32] = [77; 32];

fn addr(k: Key) -> Address {
    Address::new(k.to_bytes().unwrap())
}

fn account_1_public_key() -> PublicKey {
    PublicKey::from(&SecretKey::secp256k1_from_bytes([221u8; 32]).unwrap())
}

fn account_2_public_key() -> PublicKey {
    PublicKey::from(&SecretKey::secp256k1_from_bytes([212u8; 32]).unwrap())
}

fn default_account_public_key() -> PublicKey {
    PublicKey::from(&SecretKey::ed25519_from_bytes([199u8; 32]).unwrap())
}

fn account_1() -> Key {
    Key::Account(account_1_public_key().to_account_hash())
}

fn account_2() -> Key {
    Key::Account(account_2_public_key().to_account_hash())
}

fn default_account() -> Key {
    Key::Account(default_account_public_key().to_account_hash())
}

fn test_contract() -> Key {
    Key::Hash(TEST_CONTRACT_PACKAGE)
}

fn token_owner_address_1() -> Key {
    Key::Account(AccountHash::new([42; 32]))
}

fn token_owner_address_2() -> Key {
    Key::Hash([42; 32])
}

/// The call stack of a call into the token: straight from an account's
/// session, or from the helper contract, itself called by the default account.
fn called_by(caller: Key) -> Vec<CallerFrame> {
    let token = CallerFrame::StoredContract { package: addr(Key::Hash(TOKEN_PACKAGE)) };
    match caller {
        Key::Account(_) => vec![CallerFrame::Session { account: addr(caller) }, token],
        Key::Hash(_) => vec![
            CallerFrame::Session { account: addr(default_account()) },
            CallerFrame::StoredContract { package: addr(caller) },
            token,
        ],
        _ => panic!("Unknown variant"),
    }
}

fn invert_csprusd_address(address: Key) -> Key {
    match address {
        Key::Account(account_hash) => Key::Hash(account_hash.value()),
        Key::Hash(contract_hash) => Key::Account(AccountHash::new(contract_hash)),
        _ => panic!("Unsupported Key variant"),
    }
}

fn amount(n: u64) -> Amount {
    Amount::from_u128(n as u128)
}

fn setup() -> Token {
    Token::install(
        TOKEN_NAME.to_string(),
        TOKEN_SYMBOL.to_string(),
        TOKEN_CURRENCY.to_string(),
        TOKEN_DECIMALS,
        addr(account_1()),
        addr(account_1()),
        addr(Key::Account(account_1_public_key().to_account_hash())),
        addr(account_1()),
    )
}

fn balance(token: &Token, k: Key) -> Amount {
    token.balance_of(&addr(k))
}

fn allowance(token: &Token, owner: Key, spender: Key) -> Amount {
    token.allowance(&addr(owner), &addr(spender))
}

fn configure_minter(token: &mut Token, minter: Key, allowed: Amount) {
    token.configure_minter(&called_by(account_1()), &addr(minter), allowed).unwrap();
}

fn mint_to_default_address_initial_amount(token: &mut Token, initial_supply: Amount) {
    configure_minter(token, default_account(), initial_supply);
    token
        .mint(&called_by(default_account()), &addr(default_account()), initial_supply)
        .unwrap();
}

fn transfer(token: &mut Token, sender: Key, recipient: Key, value: Amount) -> Result<(), CsprUSDError> {
    token.transfer(&called_by(sender), &addr(recipient), value).map(|_| ())
}

fn approve(token: &mut Token, sender: Key, spender: Key, value: Amount) -> Result<(), CsprUSDError> {
    token.approve(&called_by(sender), &addr(spender), value).map(|_| ())
}

fn test_csprusd_transfer(token: &mut Token, sender1: Key, recipient1: Key, sender2: Key, recipient2: Key) {
    let transfer_amount_1 = amount(TRANSFER_AMOUNT_1);
    let transfer_amount_2 = amount(TRANSFER_AMOUNT_2);

    let sender_balance_before = balance(token, sender1);
    assert_ne!(sender_balance_before, Amount::zero());

    let account_1_balance_before = balance(token, recipient1);
    assert_eq!(account_1_balance_before, Amount::zero());

    let account_2_balance_before = balance(token, recipient1);
    assert_eq!(account_2_balance_before, Amount::zero());

    transfer(token, sender1, recipient1, transfer_amount_1).unwrap();

    let account_1_balance_after = balance(token, recipient1);
    assert_eq!(account_1_balance_after, transfer_amount_1);
    let account_1_balance_before = account_1_balance_after;

    let sender_balance_after = balance(token, sender1);
    assert_eq!(
        sender_balance_after,
        sender_balance_before.checked_sub(&transfer_amount_1).unwrap()
    );
    let sender_balance_before = sender_balance_after;

    transfer(token, sender2, recipient2, transfer_amount_2).unwrap();

    let sender_balance_after = balance(token, sender1);
    assert_eq!(sender_balance_after, sender_balance_before);

    let account_1_balance_after = balance(token, recipient1);
    assert!(account_1_balance_after.less_than(&account_1_balance_before));
    assert_eq!(
        account_1_balance_after,
        transfer_amount_1.checked_sub(&transfer_amount_2).unwrap()
    );

    let account_2_balance_after = balance(token, recipient2);
    assert_eq!(account_2_balance_after, transfer_amount_2);
}

fn test_approve_for(token: &mut Token, sender: Key, owner: Key, spender: Key) {
    let allowance_amount_1 = amount(ALLOWANCE_AMOUNT_1);
    let allowance_amount_2 = amount(ALLOWANCE_AMOUNT_2);

    assert_eq!(allowance(token, owner, spender), Amount::zero());

    approve(token, sender, spender, allowance_amount_1).unwrap();
    assert_eq!(allowance(token, owner, spender), allowance_amount_1);

    // Approve overwrites existing amount rather than increase it
    approve(token, sender, spender, allowance_amount_2).unwrap();
    assert_eq!(allowance(token, owner, spender), allowance_amount_2);

    // Swap Key::Account into Hash and other way
    let inverted_spender_key = invert_csprusd_address(spender);
    assert_eq!(allowance(token, owner, inverted_spender_key), Amount::zero());
}

#[test]
fn should_approve_funds_contract_to_account() {
    let mut token = setup();
    test_approve_for(&mut token, test_contract(), test_contract(), default_account());
}

#[test]
fn should_approve_funds_contract_to_contract() {
    let mut token = setup();
    test_approve_for(&mut token, test_contract(), test_contract(), Key::Hash([42; 32]));
}

#[test]
fn should_approve_funds_account_to_account() {
    let mut token = setup();
    test_approve_for(&mut token, default_account(), default_account(), account_1());
}

#[test]
fn should_approve_funds_account_to_contract() {
    let mut token = setup();
    test_approve_for(&mut token, default_account(), default_account(), Key::Hash([42; 32]));
}

#[test]
fn should_not_transfer_from_without_enough_allowance() {
    let mut token = setup();

    let allowance_amount_1 = amount(ALLOWANCE_AMOUNT_1);
    let transfer_from_amount_1 = amount(ALLOWANCE_AMOUNT_1 + 1);

    let sender = default_account();
    let owner = sender;
    let recipient = account_1();

    let minter_to_configure = default_account();
    configure_minter(&mut token, minter_to_configure, Amount::max_value());
    token
        .mint(&called_by(default_account()), &addr(minter_to_configure), amount(TOKEN_OWNER_AMOUNT_1))
        .unwrap();

    assert_eq!(allowance(&token, owner, recipient), Amount::zero());

    approve(&mut token, sender, recipient, allowance_amount_1).unwrap();
    assert_eq!(allowance(&token, owner, recipient), allowance_amount_1);

    let error = token
        .transfer_from(&called_by(sender), &addr(owner), &addr(recipient), transfer_from_amount_1)
        .expect_err("should have error");
    assert_eq!(error, CsprUSDError::InsufficientAllowance);
    assert_eq!(error.code(), 60002);

    // assert that no state was updated by the failed transfer_from() above
    assert_eq!(balance(&token, minter_to_configure), amount(TOKEN_OWNER_AMOUNT_1));
}

#[test]
fn test_decrease_allowance() {
    let mut token = setup();
    let sender = default_account();
    let owner = default_account();
    let spender = Key::Hash([42; 32]);
    let allowance_amount_1 = amount(ALLOWANCE_AMOUNT_1);
    let allowance_amount_2 = amount(ALLOWANCE_AMOUNT_2);

    assert_eq!(allowance(&token, owner, spender), Amount::zero());

    approve(&mut token, sender, spender, allowance_amount_1).unwrap();
    assert_eq!(allowance(&token, owner, spender), allowance_amount_1);

    token
        .decrease_allowance(&called_by(sender), &addr(spender), allowance_amount_2)
        .unwrap();
    assert_eq!(
        allowance(&token, owner, spender),
        amount(ALLOWANCE_AMOUNT_1 - ALLOWANCE_AMOUNT_2)
    );

    token
        .increase_allowance(&called_by(sender), &addr(spender), allowance_amount_1)
        .unwrap();
    assert_eq!(
        allowance(&token, owner, spender),
        amount(ALLOWANCE_AMOUNT_1 * 2 - ALLOWANCE_AMOUNT_2)
    );
}

fn blacklist(token: &mut Token, key: Key, should_fail: bool) {
    let result = token.blacklist(&called_by(account_1()), &addr(key));
    if should_fail {
        let error = result.expect_err("should have error");
        assert_eq!(error.code(), 65018);
    } else {
        result.unwrap();
    }
}

fn whitelist(token: &mut Token, key: Key, should_fail: bool) {
    let result = token.un_blacklist(&called_by(account_1()), &addr(key));
    if should_fail {
        let error = result.expect_err("should have error");
        assert_eq!(error.code(), 65019);
    } else {
        result.unwrap();
    }
}

fn get_blacklist(token: &Token) -> Vec<String> {
    token.blacklisted_keys().iter().map(|a| hex::encode(&a.bytes)).collect()
}

#[test]
fn test_blacklisting_keeps_track_correctly() {
    let k1: Key = Key::Account(AccountHash::new([1; 32]));
    let k2: Key = Key::Hash([2; 32]);
    let k3: Key = Key::Account(AccountHash::new([3; 32]));
    let k4: Key = Key::Hash([4; 32]);
    let k5: Key = Key::Account(AccountHash::new([5; 32]));
    let k6: Key = Key::Account(AccountHash::new([6; 32]));
    let k7: Key = Key::Hash([7; 32]);
    let k8: Key = Key::Hash([8; 32]);
    let k9: Key = Key::Account(AccountHash::new([9; 32]));

    let mut token = setup();

    // write a long sequence of blacklisting and whitelisting
    whitelist(&mut token, k9, true); // -
    blacklist(&mut token, k1, false); // 1
    blacklist(&mut token, k1, true); // 1
    blacklist(&mut token, k1, true); // 1
    blacklist(&mut token, k2, false); // 1 2
    whitelist(&mut token, k2, false); // 1
    whitelist(&mut token, k1, false); // -
    whitelist(&mut token, k1, true); // -
    whitelist(&mut token, k1, true); // -
    blacklist(&mut token, k1, false); // 1
    blacklist(&mut token, k2, false); // 1 2
    blacklist(&mut token, k3, false); // 1 2 3
    blacklist(&mut token, k4, false); // 1 2 3 4
    blacklist(&mut token, k4, true); // 1 2 3 4
    blacklist(&mut token, k5, false); // 1 2 3 4 5
    whitelist(&mut token, k1, false); // 2 3 4 5
    whitelist(&mut token, k1, true); // 2 3 4 5
    whitelist(&mut token, k5, false); // 2 3 4
    blacklist(&mut token, k4, true); // 2 3 4
    blacklist(&mut token, k5, false); // 2 3 4 5
    blacklist(&mut token, k6, false); // 2 3 4 5 6
    blacklist(&mut token, k7, false); // 2 3 4 5 6 7
    blacklist(&mut token, k8, false); // 2 3 4 5 6 7 8
    whitelist(&mut token, k1, true); // 2 3 4 5 6 7 8
    whitelist(&mut token, k8, false); // 2 3 4 5 6 7
    whitelist(&mut token, k9, true); // 2 3 4 5 6 7

    let keys = get_blacklist(&token);

    assert_eq!(keys.len(), 6);
    assert!(keys.contains(&hex::encode(k2.to_bytes().unwrap())));
    assert!(keys.contains(&hex::encode(k3.to_bytes().unwrap())));
    assert!(keys.contains(&hex::encode(k4.to_bytes().unwrap())));
    assert!(keys.contains(&hex::encode(k5.to_bytes().unwrap())));
    assert!(keys.contains(&hex::encode(k6.to_bytes().unwrap())));
    assert!(keys.contains(&hex::encode(k7.to_bytes().unwrap())));
}

#[test]
fn test_blacklisting_prevents_minting() {
    let account_1_key = account_1();
    let account_2_key = account_2(); // non-blacklister
    let account_3_key = default_account(); // this account will be (un)blacklisted

    let mut token = setup();

    // configure a minter: account_2_key
    configure_minter(&mut token, account_2_key, Amount::max_value());

    // prove that operations work for account account_3_key
    token
        .mint(&called_by(account_2_key), &addr(account_3_key), amount(TOKEN_OWNER_AMOUNT_1))
        .unwrap();
    assert_eq!(balance(&token, account_3_key), amount(TOKEN_OWNER_AMOUNT_1));

    // non-blacklister tries to blacklist account_3_key
    let error = token
        .blacklist(&called_by(account_2_key), &addr(account_3_key))
        .expect_err("should have error");
    assert_eq!(error.code(), 65014);

    // blacklister blacklists account_3_key
    token.blacklist(&called_by(account_1_key), &addr(account_3_key)).unwrap();

    // minting to account_3_key will fail because target is blacklisted
    let error = token
        .mint(&called_by(account_2_key), &addr(account_3_key), amount(TOKEN_OWNER_AMOUNT_1))
        .expect_err("should have error");
    assert_eq!(error.code(), 65006);

    // non-blacklister tries to un_blacklist -> fails
    let error = token
        .un_blacklist(&called_by(account_2_key), &addr(account_3_key))
        .expect_err("should have error");
    assert_eq!(error.code(), 65014);

    // blacklister un_blacklists
    token.un_blacklist(&called_by(account_1_key), &addr(account_3_key)).unwrap();

    // prove that operations work for account
    token
        .mint(&called_by(account_2_key), &addr(account_3_key), amount(TOKEN_OWNER_AMOUNT_1))
        .unwrap();
    assert_eq!(balance(&token, account_3_key), amount(2 * TOKEN_OWNER_AMOUNT_1));

    // blacklist account 1
    token.blacklist(&called_by(account_1_key), &addr(account_1_key)).unwrap();

    // get blacklist from contract
    let blacklist = get_blacklist(&token);
    assert_eq!(
        hex::decode(blacklist.get(0).unwrap()).unwrap(),
        account_1_key.to_bytes().unwrap()
    );

    // update blacklister
    let new_blacklister = Key::Account(account_2_public_key().to_account_hash());
    token
        .update_blacklister(&called_by(account_1_key), &addr(new_blacklister))
        .unwrap();
}

#[test]
fn should_have_queryable_properties() {
    let token = setup();

    assert_eq!(token.name(), TOKEN_NAME);
    assert_eq!(token.symbol(), TOKEN_SYMBOL);
    assert_eq!(token.currency(), TOKEN_CURRENCY);
    assert_eq!(token.decimals(), TOKEN_DECIMALS);

    let total_supply = token.total_supply();
    assert_eq!(total_supply, Amount::zero());

    assert!(!token.is_paused());

    let account_1_key = account_1();
    assert_eq!(*token.master_minter(), addr(account_1_key));
    assert_eq!(
        *token.blacklister(),
        addr(Key::Account(account_1_public_key().to_account_hash()))
    );
    assert_eq!(*token.owner(), addr(account_1_key));
    assert_eq!(*token.pauser(), addr(account_1_key));

    assert_eq!(balance(&token, account_1_key), total_supply);
    assert_eq!(balance(&token, Key::Hash(TOKEN_PACKAGE)), Amount::zero());

    // Account and contract ownership is respected: balances are not keyed
    // under the raw bytes regardless of variant.
    let inverted_owner_key = invert_csprusd_address(account_1_key);
    assert_eq!(balance(&token, inverted_owner_key), Amount::zero());
}

#[test]
fn test_master_minter() {
    let account_1_key = account_1(); // owner, master-minter, blacklister
    let account_2_key = account_2(); // non-master-minter
    let account_3_key = default_account(); // this account will be configured as minter

    let mut token = setup();

    assert_eq!(*token.master_minter(), addr(account_1_key));

    // non-master minter tries to perform master minter operation
    let error = token
        .configure_minter(&called_by(account_2_key), &addr(account_3_key), amount(44))
        .expect_err("should have error");
    assert_eq!(error.code(), 65013);

    // master-minter performs master minter operation
    token
        .configure_minter(&called_by(account_1_key), &addr(account_3_key), amount(44))
        .unwrap();

    // transfer master-minter rights to another account
    token
        .update_master_minter(&called_by(account_1_key), &addr(account_2_key))
        .unwrap();

    // now new master minter account can do stuff
    token
        .configure_minter(&called_by(account_2_key), &addr(account_3_key), amount(444))
        .unwrap();
}

#[test]
fn test_minting_and_burning() {
    let account_1_key = account_1();
    let mut token = setup();

    configure_minter(&mut token, account_1_key, Amount::max_value());

    token.mint(&called_by(account_1_key), &addr(account_1_key), amount(1)).unwrap();
    assert_eq!(balance(&token, account_1_key), amount(1));
    assert_eq!(token.total_supply(), amount(1));

    token.mint(&called_by(account_1_key), &addr(account_1_key), amount(443)).unwrap();
    assert_eq!(balance(&token, account_1_key), amount(444));
    assert_eq!(token.total_supply(), amount(444));

    token.burn(&called_by(account_1_key), amount(1)).unwrap();
    assert_eq!(balance(&token, account_1_key), amount(443));
    assert_eq!(token.total_supply(), amount(443));

    token.burn(&called_by(account_1_key), amount(443)).unwrap();
    assert_eq!(balance(&token, account_1_key), Amount::zero());
    assert_eq!(token.total_supply(), Amount::zero());
}

#[test]
fn test_should_not_mint_or_burn_above_limits() {
    let mint_amount = Amount::max_value();
    let mut token = setup();

    let minter_to_configure = default_account();
    configure_minter(&mut token, minter_to_configure, Amount::max_value());

    token
        .mint(&called_by(default_account()), &addr(token_owner_address_1()), amount(TOKEN_OWNER_AMOUNT_1))
        .unwrap();
    token
        .mint(&called_by(default_account()), &addr(token_owner_address_2()), amount(TOKEN_OWNER_AMOUNT_2))
        .unwrap();
    assert_eq!(balance(&token, token_owner_address_1()), amount(TOKEN_OWNER_AMOUNT_1));

    let error = token
        .mint(&called_by(default_account()), &addr(token_owner_address_1()), mint_amount)
        .expect_err("should have error");
    assert_eq!(error.code(), 65007);

    configure_minter(&mut token, minter_to_configure, Amount::max_value());

    let error = token
        .mint(&called_by(default_account()), &addr(token_owner_address_1()), mint_amount)
        .expect_err("should have error");
    assert_eq!(error.code(), 60003);
}

#[test]
fn test_ownership() {
    let account_1_key = account_1(); // owner, master-minter, blacklister
    let account_2_key = account_2(); // non-owner
    let new_pauser = Key::Account(default_account_public_key().to_account_hash());

    let mut token = setup();
    assert_eq!(*token.owner(), addr(account_1_key));

    // non-owner tries to do some owner method -> fails
    let error = token
        .update_pauser(&called_by(account_2_key), &addr(new_pauser))
        .expect_err("should have error");
    assert_eq!(error.code(), 65004);

    // owner transfers ownership to non-owner account above
    token
        .transfer_ownership(&called_by(account_1_key), &addr(account_2_key))
        .unwrap();

    // the new owner can perform owner methods
    token.update_pauser(&called_by(account_2_key), &addr(new_pauser)).unwrap();
}

#[test]
fn only_pauser_can_pause_and_can_update_pauser() {
    let account_1_key = account_1();
    let account_2_key = account_2();
    let mut token = setup();

    assert_eq!(*token.pauser(), addr(account_1_key));

    // non-pauser account tries to pause
    let error = token
        .pause_contract(&called_by(account_2_key))
        .expect_err("Request should be rejected because non-paused account tried to pause contract!!!");
    assert_eq!(error.code(), 65001);

    // pauser account pauses contract
    token.pause_contract(&called_by(account_1_key)).unwrap();
    assert!(token.is_paused());

    // non-pauser account tries to unpause
    let error = token
        .unpause_contract(&called_by(account_2_key))
        .expect_err("Request should be rejected because non-paused account tried to pause contract!!!");
    assert_eq!(error.code(), 65001);

    // update pauser account
    token.update_pauser(&called_by(account_1_key), &addr(account_2_key)).unwrap();
    assert_eq!(*token.pauser(), addr(account_2_key));

    // old pauser can't unpause contract
    let error = token
        .unpause_contract(&called_by(account_1_key))
        .expect_err("Request should be rejected because non-paused account tried to pause contract!!!");
    assert_eq!(error.code(), 65001);

    // new pauser can pause the contract
    token.pause_contract(&called_by(account_2_key)).unwrap();
}

fn assert_fails_because_contract_paused<T: std::fmt::Debug>(result: Result<T, CsprUSDError>) {
    let error = result.expect_err("Should have error because contract is paused!!!");
    assert_eq!(error.code(), 65000);
}

#[test]
fn wont_execute_entrypoints_guarded_by_when_not_paused() {
    let account_1_key = account_1();
    let mut token = setup();

    assert!(!token.is_paused());
    assert_eq!(*token.pauser(), addr(account_1_key));

    token.pause_contract(&called_by(account_1_key)).unwrap();
    assert!(token.is_paused());

    let caller = called_by(account_1_key);
    let key = addr(account_1_key);
    assert_fails_because_contract_paused(token.configure_minter(&caller, &key, Amount::max_value()));
    assert_fails_because_contract_paused(token.approve(&caller, &key, amount(1)));
    assert_fails_because_contract_paused(token.decrease_allowance(&caller, &key, amount(1)));
    assert_fails_because_contract_paused(token.increase_allowance(&caller, &key, amount(1)));
    assert_fails_because_contract_paused(token.transfer(&caller, &key, amount(1)));
    assert_fails_because_contract_paused(token.transfer_from(&caller, &key, &key, amount(1)));
    assert_fails_because_contract_paused(token.mint(&caller, &key, amount(1)));
    assert_fails_because_contract_paused(token.burn(&caller, amount(1)));
}

#[test]
fn should_transfer_full_owned_amount() {
    let mut token = setup();

    let initial_supply = amount(TOKEN_TOTAL_SUPPLY);
    let transfer_amount_1 = initial_supply;

    mint_to_default_address_initial_amount(&mut token, initial_supply);

    assert_eq!(balance(&token, default_account()), initial_supply);
    assert_eq!(balance(&token, account_1()), Amount::zero());

    transfer(&mut token, default_account(), account_1(), transfer_amount_1).unwrap();

    assert_eq!(balance(&token, account_1()), transfer_amount_1);
    assert_eq!(balance(&token, default_account()), Amount::zero());
    assert_eq!(token.total_supply(), initial_supply);
}

#[test]
fn should_not_transfer_more_than_owned_balance() {
    let mut token = setup();

    let initial_supply = amount(TOKEN_TOTAL_SUPPLY);
    let transfer_amount = amount(TOKEN_TOTAL_SUPPLY + 1);

    mint_to_default_address_initial_amount(&mut token, initial_supply);

    let transfer_1_sender = default_account();
    let transfer_1_recipient = account_1();

    let owner_balance_before = balance(&token, transfer_1_sender);
    assert_eq!(owner_balance_before, initial_supply);
    assert!(owner_balance_before.less_than(&transfer_amount));

    let account_1_balance_before = balance(&token, transfer_1_recipient);
    assert_eq!(account_1_balance_before, Amount::zero());

    let error = transfer(&mut token, transfer_1_sender, transfer_1_recipient, transfer_amount)
        .expect_err("should have error");
    assert_eq!(error.code(), 60001);

    assert_eq!(balance(&token, transfer_1_recipient), account_1_balance_before);
    assert_eq!(balance(&token, transfer_1_sender), initial_supply);
    assert_eq!(token.total_supply(), initial_supply);
}

#[test]
fn should_transfer_from_from_account_to_account() {
    let mut token = setup();

    let initial_supply = amount(TOKEN_TOTAL_SUPPLY);
    let allowance_amount_1 = amount(ALLOWANCE_AMOUNT_1);
    let transfer_from_amount_1 = allowance_amount_1;

    mint_to_default_address_initial_amount(&mut token, initial_supply);

    let owner = default_account();
    let spender = account_1();

    assert_eq!(allowance(&token, owner, spender), Amount::zero());

    approve(&mut token, owner, spender, allowance_amount_1).unwrap();

    let account_1_balance_before = balance(&token, owner);
    assert_eq!(account_1_balance_before, initial_supply);

    let account_1_allowance_before = allowance(&token, owner, spender);
    assert_eq!(account_1_allowance_before, allowance_amount_1);

    token
        .transfer_from(&called_by(spender), &addr(owner), &addr(spender), transfer_from_amount_1)
        .unwrap();

    assert_eq!(
        allowance(&token, owner, spender),
        account_1_allowance_before.checked_sub(&transfer_from_amount_1).unwrap()
    );
    assert_eq!(
        balance(&token, owner),
        account_1_balance_before.checked_sub(&transfer_from_amount_1).unwrap()
    );
}

#[test]
fn should_transfer_from_account_by_contract() {
    let mut token = setup();

    let initial_supply = amount(TOKEN_TOTAL_SUPPLY);
    let allowance_amount_1 = amount(ALLOWANCE_AMOUNT_1);
    let transfer_from_amount_1 = allowance_amount_1;

    mint_to_default_address_initial_amount(&mut token, initial_supply);

    let owner = default_account();
    let spender = test_contract();
    let recipient = account_1();

    assert_eq!(allowance(&token, owner, spender), Amount::zero());

    approve(&mut token, owner, spender, allowance_amount_1).unwrap();

    let owner_balance_before = balance(&token, owner);
    assert_eq!(owner_balance_before, initial_supply);

    let spender_allowance_before = allowance(&token, owner, spender);
    assert_eq!(spender_allowance_before, allowance_amount_1);

    token
        .transfer_from(&called_by(spender), &addr(owner), &addr(recipient), transfer_from_amount_1)
        .unwrap();

    assert_eq!(
        allowance(&token, owner, spender),
        spender_allowance_before.checked_sub(&transfer_from_amount_1).unwrap()
    );
    assert_eq!(
        balance(&token, owner),
        owner_balance_before.checked_sub(&transfer_from_amount_1).unwrap()
    );
}

#[test]
fn should_not_be_able_to_own_transfer() {
    let mut token = setup();

    let sender = default_account();
    let recipient = default_account();
    let transfer_amount = amount(TRANSFER_AMOUNT_1);

    assert_eq!(balance(&token, sender), balance(&token, recipient));

    let error = transfer(&mut token, sender, recipient, transfer_amount).expect_err("should have error");
    assert_eq!(error.code(), 60017);
}

#[test]
fn should_not_be_able_to_own_transfer_from() {
    let mut token = setup();

    let owner = default_account();
    let spender = default_account();
    let sender = default_account();
    let recipient = default_account();

    let allowance_amount = amount(ALLOWANCE_AMOUNT_1);
    let transfer_amount = amount(TRANSFER_AMOUNT_1);

    let error = approve(&mut token, sender, spender, allowance_amount).expect_err("should have error");
    assert_eq!(error.code(), 60017);

    assert_eq!(balance(&token, sender), balance(&token, recipient));

    let error = token
        .transfer_from(&called_by(sender), &addr(owner), &addr(recipient), transfer_amount)
        .expect_err("should have error");
    assert_eq!(error.code(), 60017);
}

#[test]
fn should_verify_zero_amount_transfer_is_rejected() {
    let mut token = setup();

    let error = transfer(&mut token, default_account(), account_1(), Amount::zero())
        .expect_err("Transfer should be rejected because transferring 0 amount");
    assert_eq!(error.code(), 65017);
}

#[test]
fn should_verify_zero_amount_transfer_from_is_rejected() {
    let mut token = setup();

    let owner = default_account();
    let spender = account_1();
    let recipient = account_2();

    approve(&mut token, owner, spender, amount(1)).unwrap();

    let error = token
        .transfer_from(&called_by(owner), &addr(owner), &addr(recipient), Amount::zero())
        .expect_err("Transfer should be rejected because transferring 0 amount");
    assert_eq!(error.code(), 65017);
}

#[test]
fn should_transfer_contract_to_contract() {
    let mut token = setup();
    mint_to_default_address_initial_amount(&mut token, amount(TOKEN_TOTAL_SUPPLY));
    test_csprusd_transfer(&mut token, default_account(), test_contract(), test_contract(), Key::Hash([42; 32]));
}

#[test]
fn should_transfer_contract_to_account() {
    let mut token = setup();
    mint_to_default_address_initial_amount(&mut token, amount(TOKEN_TOTAL_SUPPLY));
    test_csprusd_transfer(&mut token, default_account(), test_contract(), test_contract(), account_1());
}

#[test]
fn should_transfer_account_to_contract() {
    let mut token = setup();
    mint_to_default_address_initial_amount(&mut token, amount(TOKEN_TOTAL_SUPPLY));
    test_csprusd_transfer(&mut token, default_account(), account_1(), account_1(), test_contract());
}

#[test]
fn should_transfer_account_to_account() {
    let mut token = setup();
    mint_to_default_address_initial_amount(&mut token, amount(TOKEN_TOTAL_SUPPLY));
    test_csprusd_transfer(&mut token, default_account(), account_1(), account_1(), account_2());
}
