use vstd::prelude::*;

verus! {

/// Smallest payment, in e8s, that pays for one provisioned canister.
pub const MIN_E8S_FOR_SPINUP: u64 = 110000000;

/// Fee, in e8s, that the ledger charges for one transfer.
pub const ICP_TRANSACTION_FEE: u64 = 10000;

/// Share of a payment, in e8s, that the platform keeps, ledger fee included.
pub const CATALYZE_E8S_FEE: u64 = 10000000;

/// Memo that marks a transfer to the cycles minting canister as a top-up.
pub const MEMO_TOP_UP_CANISTER: u64 = 1347768404;

/// Memo of the platform fee transfer.
pub const MEMO_FEE: u64 = 0;

/// Textual id of the canister that collects the platform fee.
pub const CATALYZE_MULTI_SIG: &'static str = "fcygz-gqaaa-aaaap-abpaa-cai";

/// Outcome of a payment, as recorded under its block index.
#[derive(Clone, Copy, Debug, PartialEq, Eq, Structural)]
pub enum TransactionStatus {
    /// A saga is in flight and has not written its outcome yet.
    Pending,
    /// Cycles were granted to this service.
    Success,
    /// The payment, with the payer's earlier balance, was below the minimum.
    InsufficientAmount,
    /// The payment could not be validated on the ledger.
    SourceValidationFailed,
    /// Forwarding the funds to the cycles minting canister failed.
    TransferToMintFailed,
    /// The funds were forwarded but no cycles were granted.
    MintGrantFailed,
    /// Cycles were granted but creating or installing the canister failed.
    ProvisionFailed,
}

/// Whether a payment in this status may run through the saga again.
pub open spec fn status_is_retryable(s: TransactionStatus) -> bool {
    s == TransactionStatus::TransferToMintFailed || s == TransactionStatus::InsufficientAmount
}

/// What is known of one payment, keyed by the ledger block that carries it.
#[derive(Clone, Debug, PartialEq, Eq)]
pub struct TransactionData {
    pub icp_transfer_block_index: u64,
    /// Block of the transfer to the cycles minting canister, once made.
    pub cmc_transfer_block_index: Option<u64>,
    /// Validated amount of the payment, in e8s.
    pub icp_amount: Option<u64>,
    /// Cycles granted for the payment.
    pub cycles_amount: Option<u128>,
    /// Textual principal of the payer.
    pub initialized_by: String,
    /// Time of the call, in nanoseconds since the epoch.
    pub created_at: u64,
    pub status: TransactionStatus,
    pub error_message: Option<String>,
}

impl TransactionData {
    /// A copy of the record, field for field.
    pub fn duplicate(&self) -> (r: TransactionData)
        ensures
            r == *self,
    {
        let error_message = match &self.error_message {
            Some(m) => Some(m.clone()),
            None => None,
        };
        TransactionData {
            icp_transfer_block_index: self.icp_transfer_block_index,
            cmc_transfer_block_index: self.cmc_transfer_block_index,
            icp_amount: self.icp_amount,
            cycles_amount: self.cycles_amount,
            initialized_by: self.initialized_by.clone(),
            created_at: self.created_at,
            status: self.status,
            error_message,
        }
    }
}

/// A provisioned multisig canister.
#[derive(Clone, Debug, PartialEq, Eq)]
pub struct MultisigData {
    /// Textual principal of the canister.
    pub canister_id: String,
    /// Group the canister was made for; several canisters may share one.
    pub group_identifier: Option<String>,
    /// Textual principal of the payer, the canister's owner.
    pub created_by: String,
    pub created_at: u64,
    pub updated_at: u64,
}

impl MultisigData {
    /// A copy of the entry, field for field.
    pub fn duplicate(&self) -> (r: MultisigData)
        ensures
            r == *self,
    {
        let group_identifier = match &self.group_identifier {
            Some(g) => Some(g.clone()),
            None => None,
        };
        MultisigData {
            canister_id: self.canister_id.clone(),
            group_identifier,
            created_by: self.created_by.clone(),
            created_at: self.created_at,
            updated_at: self.updated_at,
        }
    }
}

/// Why a payment could not be validated against the ledger.
#[derive(Clone, Copy, Debug, PartialEq, Eq, Structural)]
pub enum ValidationError {
    /// No block was found at the index, in the ledger or its archives.
    NoBlock,
    /// The block carries no operation.
    NoOperation,
    /// The operation is not a transfer.
    WrongOperation,
    /// The transfer was not made by the caller.
    WrongSender,
    /// The transfer was not made to this service.
    WrongRecipient,
}

impl ValidationError {
    /// The message that callers are given for this error.
    pub fn message(&self) -> (r: String)
        ensures
            r@ == self.message_spec(),
    {
        match self {
            ValidationError::NoBlock => "No block".to_string(),
            ValidationError::NoOperation => "No operation".to_string(),
            ValidationError::WrongOperation => "Not a transfer".to_string(),
            ValidationError::WrongSender => "Transaction not from the given principal".to_string(),
            ValidationError::WrongRecipient => "Transaction not to the given principal".to_string(),
        }
    }

    pub open spec fn message_spec(&self) -> Seq<char> {
        match self {
            ValidationError::NoBlock => "No block"@,
            ValidationError::NoOperation => "No operation"@,
            ValidationError::WrongOperation => "Not a transfer"@,
            ValidationError::WrongSender => "Transaction not from the given principal"@,
            ValidationError::WrongRecipient => "Transaction not to the given principal"@,
        }
    }
}

} // verus!
