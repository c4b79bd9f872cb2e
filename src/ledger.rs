use vstd::prelude::*;

use crate::types::ValidationError;

verus! {

/// Account identifier that the ledger derives from a principal and a
/// subaccount (a checksummed SHA-224 digest).
pub uninterp spec fn account_id_of(owner: Seq<u8>, subaccount: Seq<u8>) -> Seq<u8>;

/// Textual form of a principal given by its bytes.
pub uninterp spec fn principal_text_of(bytes: Seq<u8>) -> Seq<char>;

/// Bytes of the principal that a text denotes, if it denotes one.
pub uninterp spec fn principal_of_text(text: Seq<char>) -> Option<Seq<u8>>;

/// Longest principal, in bytes.
pub const MAX_PRINCIPAL_LEN: usize = 29;

/// The subaccount of all zeros.
pub open spec fn default_subaccount() -> Seq<u8> {
    Seq::new(32, |i: int| 0u8)
}

/// The subaccount that names a principal: its length, its bytes, then zeros.
pub open spec fn subaccount_of(owner: Seq<u8>) -> Seq<u8> {
    seq![owner.len() as u8] + owner + Seq::new((31 - owner.len()) as nat, |i: int| 0u8)
}

/// Relies on ic_ledger_types::AccountIdentifier::new: the identifier depends on
/// the owner's bytes and the subaccount alone, and is 32 bytes long.
#[verifier::external_body]
pub(crate) fn account_identifier(owner: &Vec<u8>, subaccount: &Vec<u8>) -> (r: Vec<u8>)
    requires
        owner@.len() <= MAX_PRINCIPAL_LEN,
        subaccount@.len() == 32,
    ensures
        r@ == account_id_of(owner@, subaccount@),
        r@.len() == 32,
{
    let mut sub = [0u8; 32];
    sub.copy_from_slice(subaccount);
    let owner = candid::Principal::from_slice(owner);
    ic_ledger_types::AccountIdentifier::new(&owner, &ic_ledger_types::Subaccount(sub)).as_ref().to_vec()
}

/// Relies on `From<Principal> for ic_ledger_types::Subaccount`: the length of
/// the principal, its bytes, then zeros up to 32 bytes.
#[verifier::external_body]
pub(crate) fn principal_subaccount(owner: &Vec<u8>) -> (r: Vec<u8>)
    requires
        owner@.len() <= MAX_PRINCIPAL_LEN,
    ensures
        r@ == subaccount_of(owner@),
{
    let sub = ic_ledger_types::Subaccount::from(candid::Principal::from_slice(owner));
    sub.0.to_vec()
}

/// Relies on the textual form (`Display`) of candid::Principal.
#[verifier::external_body]
pub(crate) fn principal_text(bytes: &Vec<u8>) -> (r: String)
    requires
        bytes@.len() <= MAX_PRINCIPAL_LEN,
    ensures
        r@ == principal_text_of(bytes@),
{
    candid::Principal::from_slice(bytes).to_text()
}

/// Relies on candid::Principal::from_text: the bytes of the principal that the
/// text denotes, at most 29 of them, or nothing where it denotes none.
#[verifier::external_body]
pub(crate) fn principal_from_text(text: &str) -> (r: Option<Vec<u8>>)
    ensures
        r matches Some(b) ==> principal_of_text(text@) == Some(b@) && b@.len() <= MAX_PRINCIPAL_LEN,
        r is None ==> principal_of_text(text@) is None,
{
    match candid::Principal::from_text(text) {
        Ok(p) => Some(p.as_slice().to_vec()),
        Err(_) => None,
    }
}

/// Relies on ic_ledger_types::MAINNET_CYCLES_MINTING_CANISTER_ID, whose bytes
/// its source spells out.
#[verifier::external_body]
pub(crate) fn cycles_minting_principal() -> (r: Vec<u8>)
    ensures
        r@ == seq![0u8, 0u8, 0u8, 0u8, 0u8, 0u8, 0u8, 4u8, 1u8, 1u8],
{
    ic_ledger_types::MAINNET_CYCLES_MINTING_CANISTER_ID.as_slice().to_vec()
}

/// Operation that a ledger block carries, as far as validation reads it.
#[derive(Clone, Debug, PartialEq, Eq)]
pub enum LedgerOperation {
    /// A transfer between two accounts; amounts in e8s.
    Transfer { from: Vec<u8>, to: Vec<u8>, amount: u64, fee: u64 },
    /// Any other operation (mint, burn, approval, transfer on behalf).
    Other,
}

/// A ledger block, as far as validation reads it.
#[derive(Clone, Debug, PartialEq, Eq)]
pub struct LedgerBlock {
    pub operation: Option<LedgerOperation>,
}

/// A range of blocks that an archive serves.
#[derive(Clone, Copy, Debug, PartialEq, Eq, Structural)]
pub struct ArchivedRange {
    pub start: u64,
    pub length: u64,
}

/// Where a block is to be read.
#[derive(Clone, Copy, Debug, PartialEq, Eq, Structural)]
pub enum BlockLocation {
    /// In the blocks that the ledger returned.
    Window,
    /// In the archive of the range at this position.
    Archive(usize),
    /// Nowhere.
    Missing,
}

/// Whether an archived range serves a block.
pub open spec fn range_holds(r: ArchivedRange, block_index: u64) -> bool {
    r.start <= block_index && block_index - r.start < r.length
}

/// Position of the first range that serves a block, if any.
pub open spec fn first_range_holding(ranges: Seq<ArchivedRange>, block_index: u64) -> Option<int> {
    if exists|i: int| 0 <= i < ranges.len() && range_holds(ranges[i], block_index) {
        Some(
            choose|i: int|
                0 <= i < ranges.len() && range_holds(ranges[i], block_index) && forall|j: int|
                    0 <= j < i ==> !range_holds(#[trigger] ranges[j], block_index),
        )
    } else {
        None
    }
}

/// The outcome of validating a payment, given the block found and the
/// account identifiers of the payer and of this service.
pub open spec fn validation_result(
    block: Option<LedgerBlock>,
    sender: Seq<u8>,
    recipient: Seq<u8>,
) -> Result<u64, ValidationError> {
    match block {
        None => Err(ValidationError::NoBlock),
        Some(b) => match b.operation {
            None => Err(ValidationError::NoOperation),
            Some(LedgerOperation::Transfer { from, to, amount, fee }) => {
                if from@ != sender {
                    Err(ValidationError::WrongSender)
                } else if to@ != recipient {
                    Err(ValidationError::WrongRecipient)
                } else {
                    Ok(amount)
                }
            },
            Some(LedgerOperation::Other) => Err(ValidationError::WrongOperation),
        },
    }
}

/// The account identifier of a principal's default subaccount.
pub open spec fn default_account_of(owner: Seq<u8>) -> Seq<u8> {
    account_id_of(owner, default_subaccount())
}

fn bytes_equal(a: &Vec<u8>, b: &Vec<u8>) -> (r: bool)
    ensures
        r == (a@ == b@),
{
    if a.len() != b.len() {
        return false;
    }
    let mut i: usize = 0;
    while i < a.len()
        invariant
            a@.len() == b@.len(),
            0 <= i <= a@.len(),
            forall|j: int| 0 <= j < i ==> a@[j] == b@[j],
        decreases a@.len() - i,
    {
        if a[i] != b[i] {
            return false;
        }
        i = i + 1;
    }
    assert(a@ =~= b@);
    true
}

pub(crate) fn zero_subaccount() -> (r: Vec<u8>)
    ensures
        r@ == default_subaccount(),
{
    let mut v: Vec<u8> = Vec::new();
    while v.len() < 32
        invariant
            v@.len() <= 32,
            forall|j: int| 0 <= j < v@.len() ==> v@[j] == 0u8,
        decreases 32 - v@.len(),
    {
        v.push(0u8);
    }
    assert(v@ =~= default_subaccount());
    v
}

/// Client side of the ledger: what is decided on the blocks it returns.
pub struct Ledger {}

impl Ledger {
    /// Where to read a block, given how many blocks the ledger returned for it
    /// and the archived ranges it pointed to: the returned blocks if there are
    /// any, else the first archive whose range holds the block.
    pub fn locate_block(block_index: u64, returned: usize, ranges: &Vec<ArchivedRange>) -> (r:
        BlockLocation)
        ensures
            returned >= 1 ==> r == BlockLocation::Window,
            returned == 0 ==> match first_range_holding(ranges@, block_index) {
                Some(i) => r == BlockLocation::Archive(i as usize),
                None => r == BlockLocation::Missing,
            },
    {
        if returned >= 1 {
            return BlockLocation::Window;
        }
        let mut i: usize = 0;
        while i < ranges.len()
            invariant
                returned == 0,
                0 <= i <= ranges@.len(),
                forall|j: int| 0 <= j < i ==> !range_holds(#[trigger] ranges@[j], block_index),
            decreases ranges@.len() - i,
        {
            let r = ranges[i];
            if r.start <= block_index && block_index - r.start < r.length {
                proof {
                    assert(range_holds(ranges@[i as int], block_index));
                    let k = first_range_holding(ranges@, block_index)->0;
                    assert(0 <= k < ranges@.len() && range_holds(ranges@[k], block_index));
                    if k > i {
                        assert(!range_holds(ranges@[i as int], block_index));
                    }
                }
                return BlockLocation::Archive(i);
            }
            i = i + 1;
        }
        BlockLocation::Missing
    }

    /// Checks that the block found at a payment's index is a transfer from the
    /// caller's default account to this service's default account, and
    /// returns the amount transferred, fee excluded.
    pub fn validate_transaction(caller: &Vec<u8>, own_id: &Vec<u8>, block: &Option<LedgerBlock>) -> (r:
        Result<u64, ValidationError>)
        requires
            caller@.len() <= MAX_PRINCIPAL_LEN,
            own_id@.len() <= MAX_PRINCIPAL_LEN,
        ensures
            r == validation_result(*block, default_account_of(caller@), default_account_of(own_id@)),
    {
        match block {
            None => Err(ValidationError::NoBlock),
            Some(b) => match &b.operation {
                None => Err(ValidationError::NoOperation),
                Some(LedgerOperation::Transfer { from, to, amount, fee: _ }) => {
                    let sub = zero_subaccount();
                    let sender = account_identifier(caller, &sub);
                    if !bytes_equal(from, &sender) {
                        return Err(ValidationError::WrongSender);
                    }
                    let recipient = account_identifier(own_id, &sub);
                    if !bytes_equal(to, &recipient) {
                        return Err(ValidationError::WrongRecipient);
                    }
                    Ok(*amount)
                },
                Some(LedgerOperation::Other) => Err(ValidationError::WrongOperation),
            },
        }
    }
}

} // verus!
