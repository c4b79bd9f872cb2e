use candid::Principal;
use ic_ledger_types::{AccountIdentifier, Subaccount, DEFAULT_SUBACCOUNT};
use multisig_index::{
    LedgerTransfer, Store, TopUpStep, TransactionData, TransactionStatus,
};
use multisig_index::saga::{PLATFORM_FEE_AMOUNT, PROVISION_AMOUNT};
use multisig_index::types::{ICP_TRANSACTION_FEE, MEMO_TOP_UP_CANISTER, MIN_E8S_FOR_SPINUP};

fn caller() -> Vec<u8> {
    vec![7, 1, 2, 3, 4, 5, 6, 7, 8, 9]
}

fn own_id() -> Vec<u8> {
    vec![0, 0, 0, 0, 0, 0x50, 0, 1, 1, 1]
}

fn caller_text() -> String {
    Principal::from_slice(&caller()).to_text()
}

/// Runs the payment saga with the given outside outcomes; returns its result.
fn top_up(
    store: &mut Store,
    block: u64,
    validated: Result<u64, String>,
    transferred: Result<u64, String>,
    minted: Result<u128, String>,
) -> Result<u128, String> {
    let prior = store.claim_block(&caller(), block, 1000)?;
    let amount = match &validated {
        Ok(a) => *a,
        Err(_) => 0,
    };
    match store.on_validated(&caller(), &own_id(), block, 1000, prior, validated) {
        TopUpStep::Done(r) => r,
        TopUpStep::Mint(_) => panic!("mint before transfer"),
        TopUpStep::Transfer(_) => match store.on_transferred(&caller(), block, 1000, amount, transferred) {
            TopUpStep::Done(r) => r,
            TopUpStep::Transfer(_) => panic!("second transfer"),
            TopUpStep::Mint(cmc) => store.on_minted(&caller(), block, 1000, amount, cmc, minted),
        },
    }
}

fn record(store: &Store, block: u64) -> TransactionData {
    store.get_transaction(block).expect("a record")
}

#[test]
fn insufficient_amount_keeps_credit() {
    let mut store = Store::new();
    let r = top_up(&mut store, 100, Ok(50_000_000), Ok(5), Ok(1));
    assert_eq!(r, Err("Amount too low to spin up a canister".to_string()));
    let d = record(&store, 100);
    assert_eq!(d.status, TransactionStatus::InsufficientAmount);
    assert_eq!(d.icp_amount, Some(50_000_000));
    assert_eq!(d.cmc_transfer_block_index, None);
    assert_eq!(d.initialized_by, caller_text());
    assert_eq!(store.get_caller_local_icp_balance(&caller()), 50_000_000);
    assert!(store.is_valid_block(100));
}

#[test]
fn exact_minimum_provisions_one_unit() {
    let mut store = Store::new();
    let r = top_up(&mut store, 101, Ok(MIN_E8S_FOR_SPINUP), Ok(900), Ok(7_000_000_000_000));
    assert_eq!(r, Ok(7_000_000_000_000));
    let d = record(&store, 101);
    assert_eq!(d.status, TransactionStatus::Success);
    assert_eq!(d.cmc_transfer_block_index, Some(900));
    assert_eq!(d.icp_amount, Some(MIN_E8S_FOR_SPINUP));
    assert_eq!(d.cycles_amount, Some(7_000_000_000_000));
    assert_eq!(store.get_caller_local_icp_balance(&caller()), 0);
    let fee = store.on_installed(&caller(), "unit-a".to_string(), Some("group-1".to_string()), 2000);
    let fee = fee.expect("fee transfer");
    let collector = Principal::from_text("fcygz-gqaaa-aaaap-abpaa-cai").unwrap();
    let expected = AccountIdentifier::new(&collector, &DEFAULT_SUBACCOUNT);
    assert_eq!(fee.to, expected.as_ref().to_vec());
    assert_eq!(fee.amount, 9_990_000);
    assert_eq!(fee.fee, ICP_TRANSACTION_FEE);
    let unit = store.get_multisig_by_group_identifier(&"group-1".to_string()).expect("unit");
    assert_eq!(unit.canister_id, "unit-a".to_string());
    assert_eq!(unit.created_by, caller_text());
    assert_eq!(unit.created_at, 2000);
    assert!(!store.is_valid_block(101));
}

#[test]
fn failed_forward_transfer_is_retryable() {
    let mut store = Store::new();
    let r = top_up(&mut store, 102, Ok(120_000_000), Err("ledger rejected".to_string()), Ok(1));
    assert_eq!(r, Err("ledger rejected".to_string()));
    let d = record(&store, 102);
    assert_eq!(d.status, TransactionStatus::TransferToMintFailed);
    assert_eq!(d.icp_amount, Some(120_000_000));
    assert_eq!(d.error_message, Some("ledger rejected".to_string()));
    assert_eq!(store.get_caller_local_icp_balance(&caller()), 120_000_000);
    assert!(store.is_valid_block(102));
    let prior = store.claim_block(&caller(), 102, 2000).expect("a retry may claim");
    assert_eq!(prior.map(|d| d.status), Some(TransactionStatus::TransferToMintFailed));
    assert_eq!(record(&store, 102).status, TransactionStatus::Pending);
}

#[test]
fn resubmitting_a_success_is_refused() {
    let mut store = Store::new();
    let r = top_up(&mut store, 101, Ok(MIN_E8S_FOR_SPINUP), Ok(900), Ok(5));
    assert_eq!(r, Ok(5));
    let before = store.get_transactions(None);
    let balance = store.get_caller_local_icp_balance(&caller());
    let again = top_up(&mut store, 101, Ok(MIN_E8S_FOR_SPINUP), Ok(901), Ok(6));
    assert_eq!(again, Err("Transaction already processed".to_string()));
    assert_eq!(store.get_transactions(None), before);
    assert_eq!(store.get_caller_local_icp_balance(&caller()), balance);
}

#[test]
fn failed_mint_records_the_forward_block() {
    let mut store = Store::new();
    let r = top_up(&mut store, 103, Ok(MIN_E8S_FOR_SPINUP), Ok(4242), Err("invalid transfer".to_string()));
    assert_eq!(r, Err("invalid transfer".to_string()));
    let d = record(&store, 103);
    assert_eq!(d.status, TransactionStatus::MintGrantFailed);
    assert_eq!(d.cmc_transfer_block_index, Some(4242));
    assert_eq!(d.cycles_amount, None);
    assert_eq!(d.error_message, Some("invalid transfer".to_string()));
    assert!(!store.is_valid_block(103));
    assert_eq!(store.get_multisig_by_group_identifier(&"g".to_string()), None);
}

#[test]
fn validation_failure_writes_nothing() {
    let mut store = Store::new();
    let r = top_up(&mut store, 104, Err("No block".to_string()), Ok(1), Ok(1));
    assert_eq!(r, Err("No block".to_string()));
    assert_eq!(store.get_transaction(104), None);
    assert!(store.get_transactions(None).is_empty());
    assert_eq!(store.get_caller_local_icp_balance(&caller()), 0);
}

#[test]
fn forward_transfer_goes_to_the_minting_account() {
    let mut store = Store::new();
    let prior = store.claim_block(&caller(), 105, 1).unwrap();
    assert_eq!(prior, None);
    let step = store.on_validated(&caller(), &own_id(), 105, 1, prior, Ok(MIN_E8S_FOR_SPINUP));
    let own = Principal::from_slice(&own_id());
    let cmc = ic_ledger_types::MAINNET_CYCLES_MINTING_CANISTER_ID;
    let to = AccountIdentifier::new(&cmc, &Subaccount::from(own)).as_ref().to_vec();
    assert_eq!(
        step,
        TopUpStep::Transfer(LedgerTransfer {
            to,
            amount: 100_000_000,
            fee: 10_000,
            memo: MEMO_TOP_UP_CANISTER,
        })
    );
    assert_eq!(PROVISION_AMOUNT, 100_000_000);
    assert_eq!(PLATFORM_FEE_AMOUNT, 9_990_000);
    // The record stays pending until the transfer's outcome is known.
    assert_eq!(record(&store, 105).status, TransactionStatus::Pending);
}

#[test]
fn earlier_balance_counts_toward_the_minimum() {
    let mut store = Store::new();
    let first = top_up(&mut store, 200, Ok(60_000_000), Ok(1), Ok(1));
    assert!(first.is_err());
    let second = top_up(&mut store, 201, Ok(50_000_000), Ok(77), Ok(3_000));
    assert_eq!(second, Ok(3_000));
    // The whole second payment is debited; the first one stays on the balance.
    assert_eq!(store.get_caller_local_icp_balance(&caller()), 60_000_000);
}

#[test]
fn success_leaves_balance_unchanged() {
    let mut store = Store::new();
    let _ = top_up(&mut store, 300, Ok(20_000_000), Ok(1), Ok(1));
    let before = store.get_caller_local_icp_balance(&caller());
    let r = top_up(&mut store, 301, Ok(150_000_000), Ok(2), Ok(9));
    assert_eq!(r, Ok(9));
    assert_eq!(store.get_caller_local_icp_balance(&caller()), before);
}

#[test]
fn granted_cycles_are_recorded_exactly() {
    let mut store = Store::new();
    let cycles: u128 = 340_282_366_920_938_463_463_374_607_431_768_211_455;
    let r = top_up(&mut store, 400, Ok(MIN_E8S_FOR_SPINUP), Ok(1), Ok(cycles));
    assert_eq!(r, Ok(cycles));
    assert_eq!(record(&store, 400).cycles_amount, Some(cycles));
}

#[test]
fn provision_failure_is_recorded_and_final() {
    let mut store = Store::new();
    let _ = top_up(&mut store, 500, Ok(MIN_E8S_FOR_SPINUP), Ok(11), Ok(8));
    let msg = store.on_provision_failed(500, "install failed".to_string());
    assert_eq!(msg, "install failed".to_string());
    let d = record(&store, 500);
    assert_eq!(d.status, TransactionStatus::ProvisionFailed);
    assert_eq!(d.error_message, Some("install failed".to_string()));
    assert_eq!(d.cycles_amount, Some(8));
    assert_eq!(d.cmc_transfer_block_index, Some(11));
    assert!(!store.is_valid_block(500));
}

#[test]
fn transactions_are_listed_and_filtered() {
    let mut store = Store::new();
    let _ = top_up(&mut store, 10, Ok(1), Ok(1), Ok(1));
    let _ = top_up(&mut store, 5, Ok(MIN_E8S_FOR_SPINUP), Ok(2), Ok(3));
    let _ = top_up(&mut store, 7, Ok(MIN_E8S_FOR_SPINUP), Err("down".to_string()), Ok(3));
    let all: Vec<u64> = store.get_transactions(None).iter().map(|d| d.icp_transfer_block_index).collect();
    assert_eq!(all, vec![5, 7, 10]);
    let ok = store.get_transactions(Some(TransactionStatus::Success));
    assert_eq!(ok.len(), 1);
    assert_eq!(ok[0].icp_transfer_block_index, 5);
    assert!(store.get_transactions(Some(TransactionStatus::Pending)).is_empty());
}

#[test]
fn group_lookup_returns_the_first_match() {
    let mut store = Store::new();
    let _ = store.on_installed(&caller(), "u1".to_string(), None, 1);
    let _ = store.on_installed(&caller(), "u2".to_string(), Some("g".to_string()), 2);
    let _ = store.on_installed(&caller(), "u3".to_string(), Some("g".to_string()), 3);
    let u = store.get_multisig_by_group_identifier(&"g".to_string()).unwrap();
    assert_eq!(u.canister_id, "u2".to_string());
    assert_eq!(store.get_multisig_by_group_identifier(&"h".to_string()), None);
}

#[test]
fn local_balance_is_keyed_by_principal_text() {
    let mut store = Store::new();
    let _ = top_up(&mut store, 600, Ok(42), Ok(1), Ok(1));
    assert_eq!(store.local_balance(&caller_text()), 42);
    assert_eq!(store.local_balance(&"aaaaa-aa".to_string()), 0);
}

#[test]
fn group_lookup_prefers_the_smallest_canister_id() {
    let mut store = Store::new();
    let _ = store.on_installed(&caller(), "b".to_string(), Some("g".to_string()), 1);
    let _ = store.on_installed(&caller(), "a".to_string(), Some("g".to_string()), 2);
    let _ = store.on_installed(&caller(), "ab".to_string(), Some("g".to_string()), 3);
    let u = store.get_multisig_by_group_identifier(&"g".to_string()).unwrap();
    assert_eq!(u.canister_id, "a".to_string());
    assert_eq!(u.created_at, 2);
}

#[test]
fn registering_a_canister_id_again_changes_nothing() {
    let mut store = Store::new();
    let _ = store.on_installed(&caller(), "x".to_string(), Some("g".to_string()), 1);
    let _ = store.on_installed(&caller(), "y".to_string(), None, 2);
    let _ = store.on_installed(&caller(), "x".to_string(), Some("h".to_string()), 3);
    let units = store.get_multisigs();
    assert_eq!(units.len(), 2);
    assert_eq!(store.get_multisig_by_group_identifier(&"h".to_string()), None);
    let x = store.get_multisig_by_group_identifier(&"g".to_string()).unwrap();
    assert_eq!(x.canister_id, "x".to_string());
    assert_eq!(x.created_at, 1);
}

#[test]
fn list_units_returns_every_unit() {
    let mut store = Store::new();
    assert!(store.get_multisigs().is_empty());
    let _ = store.on_installed(&caller(), "u1".to_string(), None, 1);
    let _ = store.on_installed(&caller(), "u2".to_string(), Some("g".to_string()), 2);
    let ids: Vec<String> = store.get_multisigs().into_iter().map(|u| u.canister_id).collect();
    assert_eq!(ids, vec!["u1".to_string(), "u2".to_string()]);
}

#[test]
fn a_claimed_block_cannot_be_claimed_again() {
    let mut store = Store::new();
    assert_eq!(store.claim_block(&caller(), 700, 5), Ok(None));
    let d = record(&store, 700);
    assert_eq!(d.status, TransactionStatus::Pending);
    assert_eq!(d.initialized_by, caller_text());
    assert_eq!(d.created_at, 5);
    assert!(!store.is_valid_block(700));
    assert_eq!(
        store.claim_block(&caller(), 700, 6),
        Err("Transaction already processed".to_string())
    );
    assert_eq!(record(&store, 700).created_at, 5);
}

#[test]
fn failed_validation_on_retry_restores_the_earlier_record() {
    let mut store = Store::new();
    let _ = top_up(&mut store, 800, Ok(10), Ok(1), Ok(1));
    let earlier = record(&store, 800);
    assert_eq!(earlier.status, TransactionStatus::InsufficientAmount);
    let r = top_up(&mut store, 800, Err("No block".to_string()), Ok(1), Ok(1));
    assert_eq!(r, Err("No block".to_string()));
    assert_eq!(record(&store, 800), earlier);
    assert!(store.is_valid_block(800));
}

#[test]
fn resubmitting_an_insufficient_payment_does_not_credit_it_again() {
    let mut store = Store::new();
    let first = top_up(&mut store, 100, Ok(50_000_000), Ok(1), Ok(1));
    assert_eq!(first, Err("Amount too low to spin up a canister".to_string()));
    assert_eq!(store.get_caller_local_icp_balance(&caller()), 50_000_000);
    for _ in 0..2 {
        let again = top_up(&mut store, 100, Ok(50_000_000), Ok(1), Ok(1));
        assert_eq!(again, Err("Amount too low to spin up a canister".to_string()));
        assert_eq!(store.get_caller_local_icp_balance(&caller()), 50_000_000);
        assert_eq!(record(&store, 100).status, TransactionStatus::InsufficientAmount);
    }
    assert!(store.get_multisigs().is_empty());
}

#[test]
fn retrying_a_failed_transfer_uses_the_earlier_credit() {
    let mut store = Store::new();
    let r = top_up(&mut store, 102, Ok(120_000_000), Err("ledger down".to_string()), Ok(1));
    assert!(r.is_err());
    assert_eq!(store.get_caller_local_icp_balance(&caller()), 120_000_000);
    let retry = top_up(&mut store, 102, Ok(120_000_000), Ok(55), Ok(4_000));
    assert_eq!(retry, Ok(4_000));
    assert_eq!(store.get_caller_local_icp_balance(&caller()), 0);
    assert_eq!(record(&store, 102).status, TransactionStatus::Success);
}

#[test]
fn snapshot_is_saved_and_read_back() {
    let mut store = Store::new();
    assert!(store.saved_snapshot().is_empty());
    store.save_snapshot(vec![1, 2, 3]);
    assert_eq!(store.saved_snapshot(), vec![1, 2, 3]);
    store.save_snapshot(vec![9]);
    assert_eq!(store.saved_snapshot(), vec![9]);
}

#[test]
fn restored_records_and_units_are_listed_and_claimed() {
    let mut old = Store::new();
    let _ = top_up(&mut old, 101, Ok(MIN_E8S_FOR_SPINUP), Ok(900), Ok(5));
    let _ = top_up(&mut old, 100, Ok(10), Ok(1), Ok(1));
    let _ = old.on_installed(&caller(), "unit-a".to_string(), Some("g".to_string()), 7);
    let mut fresh = Store::new();
    for d in old.get_transactions(None) {
        fresh.restore_transaction(d);
    }
    for u in old.get_multisigs() {
        fresh.restore_multisig(u);
    }
    assert_eq!(fresh.get_transactions(None), old.get_transactions(None));
    assert_eq!(fresh.get_multisigs(), old.get_multisigs());
    assert!(!fresh.is_valid_block(101));
    assert!(fresh.is_valid_block(100));
    assert_eq!(
        fresh.claim_block(&caller(), 101, 9),
        Err("Transaction already processed".to_string())
    );
}
