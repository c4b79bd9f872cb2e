use vstd::prelude::*;

use crate::ledger::{
    account_id_of, account_identifier, cycles_minting_principal, default_subaccount,
    principal_from_text, principal_of_text, principal_subaccount, principal_text,
    principal_text_of, subaccount_of, zero_subaccount, MAX_PRINCIPAL_LEN,
};
use crate::store::{id_registered, record_is_retryable, updated_balance, BalanceUpdate, Store};
use crate::types::{
    MultisigData, TransactionData, TransactionStatus, CATALYZE_E8S_FEE, CATALYZE_MULTI_SIG,
    ICP_TRANSACTION_FEE, MEMO_FEE, MEMO_TOP_UP_CANISTER, MIN_E8S_FOR_SPINUP,
};

verus! {

/// What the platform keeps of a payment, after the ledger fee of its own transfer.
pub const PLATFORM_FEE_AMOUNT: u64 = CATALYZE_E8S_FEE - ICP_TRANSACTION_FEE;

/// What is forwarded to the cycles minting canister for one canister.
pub const PROVISION_AMOUNT: u64 = MIN_E8S_FOR_SPINUP - ICP_TRANSACTION_FEE - PLATFORM_FEE_AMOUNT;

/// Message of a payment refused because its block index was used up.
pub const ALREADY_PROCESSED: &'static str = "Transaction already processed";

/// Message of a payment below the minimum.
pub const AMOUNT_TOO_LOW: &'static str = "Amount too low to spin up a canister";

/// An outgoing ledger transfer from this service's default account.
#[derive(Clone, Debug, PartialEq, Eq)]
pub struct LedgerTransfer {
    /// Account identifier of the destination.
    pub to: Vec<u8>,
    /// Amount in e8s, fee excluded.
    pub amount: u64,
    pub fee: u64,
    pub memo: u64,
}

/// What the saga does next.
#[derive(Debug, PartialEq, Eq)]
pub enum TopUpStep {
    /// Forward funds to the cycles minting canister.
    Transfer(LedgerTransfer),
    /// Ask the cycles minting canister for cycles against this block.
    Mint(u64),
    /// Stop with this result: the cycles granted, or a message.
    Done(Result<u128, String>),
}

/// The account at the cycles minting canister that tops up a canister.
pub open spec fn mint_destination(own_id: Seq<u8>) -> Seq<u8> {
    account_id_of(
        seq![0u8, 0u8, 0u8, 0u8, 0u8, 0u8, 0u8, 4u8, 1u8, 1u8],
        subaccount_of(own_id),
    )
}

/// Whether an earlier attempt at a payment already credited it to the
/// payer's local balance.
pub open spec fn already_credited(prior: Option<TransactionData>) -> bool {
    prior matches Some(p) && p.icp_amount is Some
}

/// Whether a record carries these values.
pub open spec fn record_holds(
    d: TransactionData,
    block_index: u64,
    payer: Seq<char>,
    created_at: u64,
    status: TransactionStatus,
    cmc_block_index: Option<u64>,
    amount: Option<u64>,
    cycles: Option<u128>,
) -> bool {
    &&& d.icp_transfer_block_index == block_index
    &&& d.initialized_by@ == payer
    &&& d.created_at == created_at
    &&& d.status == status
    &&& d.cmc_transfer_block_index == cmc_block_index
    &&& d.icp_amount == amount
    &&& d.cycles_amount == cycles
}

/// Whether an optional message is present and reads `text`.
pub open spec fn message_is(m: Option<String>, text: Seq<char>) -> bool {
    m matches Some(s) && s@ == text
}

/// Whether a step stops with an error that reads `text`.
pub open spec fn fails_with(r: TopUpStep, text: Seq<char>) -> bool {
    r matches TopUpStep::Done(Err(e)) && e@ == text
}

/// `new` holds `old` with the record of one payment written, and that record
/// is `new`'s record of it.
pub open spec fn wrote(old: &Store, new: &Store, block_index: u64) -> bool {
    &&& new.transactions().contains_key(block_index)
    &&& Store::record_written(old, new, block_index, new.transactions()[block_index])
}

fn record(
    block_index: u64,
    payer: &String,
    created_at: u64,
    status: TransactionStatus,
    cmc_block_index: Option<u64>,
    amount: Option<u64>,
    cycles: Option<u128>,
    error_message: Option<String>,
) -> (r: TransactionData)
    ensures
        record_holds(r, block_index, payer@, created_at, status, cmc_block_index, amount, cycles),
        r.error_message == error_message,
{
    TransactionData {
        icp_transfer_block_index: block_index,
        cmc_transfer_block_index: cmc_block_index,
        icp_amount: amount,
        cycles_amount: cycles,
        initialized_by: payer.clone(),
        created_at,
        status,
        error_message,
    }
}

impl Store {
    /// The claim that opens a saga, its first write: where the block index
    /// may run through the saga, its record becomes `Pending`, so that no
    /// other saga can claim it until this one has written its outcome. Returns
    /// the record that the claim replaced, to be put back if validation fails.
    pub fn claim_block(&mut self, caller: &Vec<u8>, block_index: u64, created_at: u64) -> (r:
        Result<Option<TransactionData>, String>)
        requires
            old(self).wf(),
            caller@.len() <= MAX_PRINCIPAL_LEN,
        ensures
            final(self).wf(),
            final(self).units() == old(self).units(),
            final(self).balances() == old(self).balances(),
            record_is_retryable(old(self).record(block_index)) ==> {
                &&& r == Ok::<Option<TransactionData>, String>(old(self).record(block_index))
                &&& wrote(old(self), final(self), block_index)
                &&& record_holds(
                    final(self).transactions()[block_index],
                    block_index,
                    principal_text_of(caller@),
                    created_at,
                    TransactionStatus::Pending,
                    None,
                    None,
                    None,
                )
                &&& final(self).transactions()[block_index].error_message is None
            },
            !record_is_retryable(old(self).record(block_index)) ==> {
                &&& r matches Err(e) && e@ == ALREADY_PROCESSED@
                &&& Store::records_kept(old(self), final(self))
            },
    {
        if !self.is_valid_block(block_index) {
            return Err(ALREADY_PROCESSED.to_string());
        }
        let prior = self.get_transaction(block_index);
        let payer = principal_text(caller);
        let d = record(
            block_index,
            &payer,
            created_at,
            TransactionStatus::Pending,
            None,
            None,
            None,
            None,
        );
        self.insert_transaction_data(block_index, d);
        Ok(prior)
    }

    /// Takes the outcome of validating the payment at `block_index`, made by
    /// `caller` to `own_id` (this service), and the record that the claim
    /// replaced. An invalid payment leaves no record of its own: the record
    /// the claim replaced is put back. A valid payment is credited to the
    /// caller's local balance, unless an earlier attempt at the same block
    /// already credited it. If the balance is then below the minimum, the
    /// payment is recorded as insufficient and the saga stops; else it goes
    /// on with the transfer to the cycles minting canister.
    pub fn on_validated(
        &mut self,
        caller: &Vec<u8>,
        own_id: &Vec<u8>,
        block_index: u64,
        created_at: u64,
        prior: Option<TransactionData>,
        validated: Result<u64, String>,
    ) -> (r: TopUpStep)
        requires
            old(self).wf(),
            old(self).has_status(block_index, TransactionStatus::Pending),
            caller@.len() <= MAX_PRINCIPAL_LEN,
            own_id@.len() <= MAX_PRINCIPAL_LEN,
        ensures
            final(self).wf(),
            final(self).units() == old(self).units(),
            match validated {
                Err(e) => {
                    &&& r == TopUpStep::Done(Err(e))
                    &&& final(self).transactions() == match prior {
                        Some(p) => old(self).transactions().insert(block_index, p),
                        None => old(self).transactions().remove(block_index),
                    }
                    &&& final(self).balances() == old(self).balances()
                },
                Ok(amount) => {
                    let payer = principal_text_of(caller@);
                    let before = old(self).balance(payer);
                    let earlier = already_credited(prior);
                    &&& final(self).balances() == if earlier {
                        old(self).balances()
                    } else {
                        old(self).balances().insert(
                            payer,
                            updated_balance(before, BalanceUpdate::Add(amount)),
                        )
                    }
                    &&& if (if earlier {
                        before as int
                    } else {
                        before + amount
                    }) < MIN_E8S_FOR_SPINUP {
                        &&& fails_with(r, AMOUNT_TOO_LOW@)
                        &&& wrote(old(self), final(self), block_index)
                        &&& record_holds(
                            final(self).transactions()[block_index],
                            block_index,
                            payer,
                            created_at,
                            TransactionStatus::InsufficientAmount,
                            None,
                            Some(amount),
                            None,
                        )
                        &&& message_is(
                            final(self).transactions()[block_index].error_message,
                            AMOUNT_TOO_LOW@,
                        )
                    } else {
                        &&& r matches TopUpStep::Transfer(t)
                        &&& t.to@ == mint_destination(own_id@)
                        &&& t.amount == PROVISION_AMOUNT
                        &&& t.fee == ICP_TRANSACTION_FEE
                        &&& t.memo == MEMO_TOP_UP_CANISTER
                        &&& Store::records_kept(old(self), final(self))
                    }
                },
            },
    {
        match validated {
            Err(e) => {
                match prior {
                    Some(p) => self.insert_transaction_data(block_index, p),
                    None => self.remove_transaction_data(block_index),
                }
                TopUpStep::Done(Err(e))
            },
            Ok(amount) => {
                let payer = principal_text(caller);
                let before = self.local_balance(&payer);
                let earlier = match &prior {
                    Some(p) => match p.icp_amount {
                        Some(_) => true,
                        None => false,
                    },
                    None => false,
                };
                let available: u128 = if earlier {
                    before as u128
                } else {
                    self.update_caller_icp_balance(&payer, BalanceUpdate::Add(amount));
                    (before as u128) + (amount as u128)
                };
                if available < (MIN_E8S_FOR_SPINUP as u128) {
                    let d = record(
                        block_index,
                        &payer,
                        created_at,
                        TransactionStatus::InsufficientAmount,
                        None,
                        Some(amount),
                        None,
                        Some(AMOUNT_TOO_LOW.to_string()),
                    );
                    self.insert_transaction_data(block_index, d);
                    return TopUpStep::Done(Err(AMOUNT_TOO_LOW.to_string()));
                }
                let cmc = cycles_minting_principal();
                let sub = principal_subaccount(own_id);
                let to = account_identifier(&cmc, &sub);
                TopUpStep::Transfer(
                    LedgerTransfer {
                        to,
                        amount: PROVISION_AMOUNT,
                        fee: ICP_TRANSACTION_FEE,
                        memo: MEMO_TOP_UP_CANISTER,
                    },
                )
            },
        }
    }

    /// Takes the outcome of the transfer to the cycles minting canister for
    /// the payment of `amount` at `block_index`. On success the full payment
    /// is debited from the caller's local balance and the saga goes on with
    /// the mint; on failure the payment is recorded as retryable and the
    /// saga stops, the balance left as it was.
    pub fn on_transferred(
        &mut self,
        caller: &Vec<u8>,
        block_index: u64,
        created_at: u64,
        amount: u64,
        transferred: Result<u64, String>,
    ) -> (r: TopUpStep)
        requires
            old(self).wf(),
            old(self).has_status(block_index, TransactionStatus::Pending),
            caller@.len() <= MAX_PRINCIPAL_LEN,
        ensures
            final(self).wf(),
            final(self).units() == old(self).units(),
            match transferred {
                Ok(cmc_block_index) => {
                    let payer = principal_text_of(caller@);
                    &&& r == TopUpStep::Mint(cmc_block_index)
                    &&& Store::records_kept(old(self), final(self))
                    &&& final(self).balances() == old(self).balances().insert(
                        payer,
                        updated_balance(old(self).balance(payer), BalanceUpdate::Subtract(amount)),
                    )
                },
                Err(e) => {
                    &&& fails_with(r, e@)
                    &&& final(self).balances() == old(self).balances()
                    &&& wrote(old(self), final(self), block_index)
                    &&& record_holds(
                        final(self).transactions()[block_index],
                        block_index,
                        principal_text_of(caller@),
                        created_at,
                        TransactionStatus::TransferToMintFailed,
                        None,
                        Some(amount),
                        None,
                    )
                    &&& message_is(final(self).transactions()[block_index].error_message, e@)
                },
            },
    {
        let payer = principal_text(caller);
        match transferred {
            Ok(cmc_block_index) => {
                self.update_caller_icp_balance(&payer, BalanceUpdate::Subtract(amount));
                TopUpStep::Mint(cmc_block_index)
            },
            Err(e) => {
                let d = record(
                    block_index,
                    &payer,
                    created_at,
                    TransactionStatus::TransferToMintFailed,
                    None,
                    Some(amount),
                    None,
                    Some(e.clone()),
                );
                self.insert_transaction_data(block_index, d);
                TopUpStep::Done(Err(e))
            },
        }
    }

    /// Takes the outcome of the mint for the payment of `amount` at
    /// `block_index`, forwarded in block `cmc_block_index`. Records the cycles
    /// granted, or the failure with the block to resume from.
    pub fn on_minted(
        &mut self,
        caller: &Vec<u8>,
        block_index: u64,
        created_at: u64,
        amount: u64,
        cmc_block_index: u64,
        minted: Result<u128, String>,
    ) -> (r: Result<u128, String>)
        requires
            old(self).wf(),
            old(self).has_status(block_index, TransactionStatus::Pending),
            caller@.len() <= MAX_PRINCIPAL_LEN,
        ensures
            final(self).wf(),
            final(self).units() == old(self).units(),
            final(self).balances() == old(self).balances(),
            wrote(old(self), final(self), block_index),
            r == minted,
            match minted {
                Ok(cycles) => {
                    &&& record_holds(
                        final(self).transactions()[block_index],
                        block_index,
                        principal_text_of(caller@),
                        created_at,
                        TransactionStatus::Success,
                        Some(cmc_block_index),
                        Some(amount),
                        Some(cycles),
                    )
                    &&& final(self).transactions()[block_index].error_message is None
                },
                Err(e) => {
                    &&& record_holds(
                        final(self).transactions()[block_index],
                        block_index,
                        principal_text_of(caller@),
                        created_at,
                        TransactionStatus::MintGrantFailed,
                        Some(cmc_block_index),
                        Some(amount),
                        None,
                    )
                    &&& message_is(final(self).transactions()[block_index].error_message, e@)
                },
            },
    {
        let payer = principal_text(caller);
        match minted {
            Ok(cycles) => {
                let d = record(
                    block_index,
                    &payer,
                    created_at,
                    TransactionStatus::Success,
                    Some(cmc_block_index),
                    Some(amount),
                    Some(cycles),
                    None,
                );
                self.insert_transaction_data(block_index, d);
                Ok(cycles)
            },
            Err(e) => {
                let d = record(
                    block_index,
                    &payer,
                    created_at,
                    TransactionStatus::MintGrantFailed,
                    Some(cmc_block_index),
                    Some(amount),
                    None,
                    Some(e.clone()),
                );
                self.insert_transaction_data(block_index, d);
                Err(e)
            },
        }
    }

    /// Takes the failure to create or install the canister paid for at
    /// `block_index`: its successful record is marked as such, the rest of it
    /// kept.
    pub fn on_provision_failed(&mut self, block_index: u64, error: String) -> (r: String)
        requires
            old(self).wf(),
            old(self).has_status(block_index, TransactionStatus::Success),
        ensures
            final(self).wf(),
            r@ == error@,
            final(self).units() == old(self).units(),
            final(self).balances() == old(self).balances(),
            Store::record_written(
                old(self),
                final(self),
                block_index,
                TransactionData {
                    status: TransactionStatus::ProvisionFailed,
                    error_message: Some(error),
                    ..old(self).transactions()[block_index]
                },
            ),
    {
        let d = match self.get_transaction(block_index) {
            Some(d) => d,
            None => return error,
        };
        let failed = TransactionData {
            status: TransactionStatus::ProvisionFailed,
            error_message: Some(error.clone()),
            ..d
        };
        self.insert_transaction_data(block_index, failed);
        error
    }

    /// Registers the canister installed for `caller` and returns the transfer
    /// of the platform fee, or nothing where the fee account cannot be named.
    pub fn on_installed(
        &mut self,
        caller: &Vec<u8>,
        canister_id: String,
        group_identifier: Option<String>,
        now: u64,
    ) -> (r: Option<LedgerTransfer>)
        requires
            old(self).wf(),
            caller@.len() <= MAX_PRINCIPAL_LEN,
        ensures
            final(self).wf(),
            final(self).balances() == old(self).balances(),
            Store::records_kept(old(self), final(self)),
            id_registered(old(self).units(), canister_id@) ==> final(self).units() == old(
                self,
            ).units(),
            !id_registered(old(self).units(), canister_id@) ==> {
                &&& final(self).units().len() == old(self).units().len() + 1
                &&& final(self).units().drop_last() == old(self).units()
                &&& final(self).units().last().canister_id == canister_id
                &&& final(self).units().last().group_identifier == group_identifier
                &&& final(self).units().last().created_by@ == principal_text_of(caller@)
                &&& final(self).units().last().created_at == now
                &&& final(self).units().last().updated_at == now
            },
            match principal_of_text(CATALYZE_MULTI_SIG@) {
                Some(p) => r matches Some(t) && t.to@ == account_id_of(p, default_subaccount())
                    && t.amount == PLATFORM_FEE_AMOUNT && t.fee == ICP_TRANSACTION_FEE && t.memo
                    == MEMO_FEE,
                None => r is None,
            },
    {
        let created_by = principal_text(caller);
        let ghost id = canister_id@;
        let unit = MultisigData {
            canister_id,
            group_identifier,
            created_by,
            created_at: now,
            updated_at: now,
        };
        self.insert_multisig(unit);
        proof {
            if !id_registered(old(self).units(), id) {
                assert(self.units().drop_last() =~= old(self).units());
            }
        }
        match principal_from_text(CATALYZE_MULTI_SIG) {
            Some(p) => {
                let sub = zero_subaccount();
                let to = account_identifier(&p, &sub);
                Some(
                    LedgerTransfer {
                        to,
                        amount: PLATFORM_FEE_AMOUNT,
                        fee: ICP_TRANSACTION_FEE,
                        memo: MEMO_FEE,
                    },
                )
            },
            None => None,
        }
    }
}

} // verus!
