//! Properties that relate several calls of the library.
use vstd::prelude::*;

use crate::ledger::{default_account_of, validation_result, LedgerBlock};
use crate::store::{record_is_retryable, updated_balance, BalanceUpdate, Store};
use crate::types::{TransactionStatus, ValidationError};

verus! {

/// Validating the same payment twice against an unchanged ledger gives the
/// same outcome: the outcome is a function of the block found and of the two
/// principals alone.
pub proof fn lemma_validation_is_repeatable(
    block: Option<LedgerBlock>,
    caller: Seq<u8>,
    own_id: Seq<u8>,
    first: Result<u64, ValidationError>,
    second: Result<u64, ValidationError>,
)
    requires
        first == validation_result(block, default_account_of(caller), default_account_of(own_id)),
        second == validation_result(block, default_account_of(caller), default_account_of(own_id)),
    ensures
        first == second,
{
}

/// A claimed payment cannot be claimed again while its saga runs: its record
/// is `Pending`, which is not retryable, so a second claim fails.
pub proof fn lemma_claim_is_exclusive(store: Store, block_index: u64)
    requires
        store.has_status(block_index, TransactionStatus::Pending),
    ensures
        !record_is_retryable(store.record(block_index)),
{
}

/// A payment recorded as successful never passes the claim again; nor does
/// one whose provisioning failed afterwards.
pub proof fn lemma_success_is_final(store: Store, block_index: u64)
    requires
        store.record(block_index) matches Some(d) && (d.status == TransactionStatus::Success
            || d.status == TransactionStatus::ProvisionFailed),
    ensures
        !record_is_retryable(store.record(block_index)),
{
}

/// On a saga that got past the transfer, the credit made by `on_validated`
/// and the debit made by `on_transferred` cancel out: the payer's local
/// balance, and every other one, is what it was before the saga, as long as
/// the credit did not saturate.
pub proof fn lemma_success_is_balance_neutral(
    before: Store,
    credited: Store,
    debited: Store,
    payer: Seq<char>,
    amount: u64,
)
    requires
        before.balance(payer) + amount <= u64::MAX,
        credited.balances() == before.balances().insert(
            payer,
            updated_balance(before.balance(payer), BalanceUpdate::Add(amount)),
        ),
        debited.balances() == credited.balances().insert(
            payer,
            updated_balance(credited.balance(payer), BalanceUpdate::Subtract(amount)),
        ),
    ensures
        forall|who: Seq<char>| debited.balance(who) == before.balance(who),
{
    assert forall|who: Seq<char>| debited.balance(who) == before.balance(who) by {
        if who == payer {
            assert(credited.balance(payer) == before.balance(payer) + amount);
        }
    }
}

/// When the transfer to the cycles minting canister fails, the payment stays
/// credited: after `on_validated` credited it and `on_transferred` took the
/// failure, the payer's local balance is what it was before the saga plus
/// the payment, as long as that sum fits, and every other balance is as it
/// was.
pub proof fn lemma_failed_transfer_keeps_credit(
    before: Store,
    credited: Store,
    after: Store,
    payer: Seq<char>,
    amount: u64,
)
    requires
        before.balance(payer) + amount <= u64::MAX,
        credited.balances() == before.balances().insert(
            payer,
            updated_balance(before.balance(payer), BalanceUpdate::Add(amount)),
        ),
        after.balances() == credited.balances(),
    ensures
        after.balance(payer) == before.balance(payer) + amount,
        forall|who: Seq<char>| who != payer ==> after.balance(who) == before.balance(who),
{
}

} // verus!
