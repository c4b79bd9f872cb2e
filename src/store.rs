use vstd::prelude::*;

use std::collections::BTreeMap;
use vstd::utf8::encode_utf8;

use crate::ledger::{principal_text, principal_text_of, MAX_PRINCIPAL_LEN};
use crate::types::{status_is_retryable, MultisigData, TransactionData, TransactionStatus};

verus! {

/// The tables kept in stable memory: local balances in e8s, keyed by textual
/// principal, and the snapshot of the other tables that is taken before an
/// upgrade and read after it.
#[verifier::external_body]
pub struct StableTables {
    balances: ic_stable_structures::StableBTreeMap<
        String,
        u64,
        ic_stable_structures::memory_manager::VirtualMemory<
            ic_stable_structures::DefaultMemoryImpl,
        >,
    >,
    snapshot: ic_stable_structures::StableBTreeMap<
        u64,
        Vec<u8>,
        ic_stable_structures::memory_manager::VirtualMemory<
            ic_stable_structures::DefaultMemoryImpl,
        >,
    >,
}

/// What the balance table holds.
pub uninterp spec fn balances_of(m: StableTables) -> Map<Seq<char>, u64>;

/// What the snapshot table holds.
pub uninterp spec fn snapshots_of(m: StableTables) -> Map<u64, Seq<u8>>;

/// Key of the one snapshot kept.
pub const SNAPSHOT_KEY: u64 = 0;

/// The bytes of the snapshot, or none.
pub open spec fn snapshot_in(m: Map<u64, Seq<u8>>) -> Seq<u8> {
    if m.contains_key(SNAPSHOT_KEY as u64) {
        m[SNAPSHOT_KEY as u64]
    } else {
        Seq::empty()
    }
}

/// Relies on ic_stable_structures::memory_manager::MemoryManager::init and
/// StableBTreeMap::init: the tables that stable memory already holds, in
/// slots 2 and 3, or empty ones on fresh memory.
#[verifier::external_body]
fn stable_tables_init() -> (r: StableTables) {
    let manager = ic_stable_structures::memory_manager::MemoryManager::init(
        ic_stable_structures::DefaultMemoryImpl::default(),
    );
    StableTables {
        balances: ic_stable_structures::StableBTreeMap::init(
            manager.get(ic_stable_structures::memory_manager::MemoryId::new(2)),
        ),
        snapshot: ic_stable_structures::StableBTreeMap::init(
            manager.get(ic_stable_structures::memory_manager::MemoryId::new(3)),
        ),
    }
}

/// Relies on ic_stable_structures::StableBTreeMap::get: the value stored
/// under the key, if any.
#[verifier::external_body]
fn balance_map_get(m: &StableTables, key: &String) -> (r: Option<u64>)
    ensures
        balances_of(*m).contains_key(key@) ==> r == Some(balances_of(*m)[key@]),
        !balances_of(*m).contains_key(key@) ==> r is None,
{
    m.balances.get(key)
}

/// Relies on ic_stable_structures::StableBTreeMap::insert: the key maps to the
/// value afterwards, and nothing else changes.
#[verifier::external_body]
fn balance_map_insert(m: &mut StableTables, key: String, value: u64)
    ensures
        balances_of(*final(m)) == balances_of(*old(m)).insert(key@, value),
        snapshots_of(*final(m)) == snapshots_of(*old(m)),
{
    m.balances.insert(key, value);
}

/// Relies on ic_stable_structures::StableBTreeMap::get: the bytes stored
/// under the key, if any.
#[verifier::external_body]
fn snapshot_map_get(m: &StableTables, key: u64) -> (r: Option<Vec<u8>>)
    ensures
        snapshots_of(*m).contains_key(key) ==> r is Some && r.unwrap()@ == snapshots_of(*m)[key],
        !snapshots_of(*m).contains_key(key) ==> r is None,
{
    m.snapshot.get(&key)
}

/// Relies on ic_stable_structures::StableBTreeMap::insert: the key maps to the
/// bytes afterwards, and nothing else changes.
#[verifier::external_body]
fn snapshot_map_insert(m: &mut StableTables, key: u64, value: Vec<u8>)
    ensures
        snapshots_of(*final(m)) == snapshots_of(*old(m)).insert(key, value@),
        balances_of(*final(m)) == balances_of(*old(m)),
{
    m.snapshot.insert(key, value);
}

/// A change to a local balance.
#[derive(Clone, Copy, Debug, PartialEq, Eq, Structural)]
pub enum BalanceUpdate {
    Add(u64),
    Subtract(u64),
}

/// A local balance: what the map holds under the key, else zero.
pub open spec fn balance_in(m: Map<Seq<char>, u64>, who: Seq<char>) -> u64 {
    if m.contains_key(who) {
        m[who]
    } else {
        0
    }
}

/// A balance after an update; it stays within `0..=u64::MAX`.
pub open spec fn updated_balance(current: u64, update: BalanceUpdate) -> u64 {
    match update {
        BalanceUpdate::Add(a) => if current + a > u64::MAX {
            u64::MAX
        } else {
            (current + a) as u64
        },
        BalanceUpdate::Subtract(a) => if current < a {
            0
        } else {
            (current - a) as u64
        },
    }
}

/// Whether a payment with this record, or none, may run through the saga.
pub open spec fn record_is_retryable(r: Option<TransactionData>) -> bool {
    match r {
        None => true,
        Some(d) => status_is_retryable(d.status),
    }
}

/// Whether a record passes a status filter.
pub open spec fn passes_filter(d: TransactionData, status: Option<TransactionStatus>) -> bool {
    match status {
        None => true,
        Some(s) => d.status == s,
    }
}

/// The records under the given keys, in that order, that pass the filter.
pub open spec fn listed(
    order: Seq<u64>,
    records: Map<u64, TransactionData>,
    status: Option<TransactionStatus>,
) -> Seq<TransactionData>
    decreases order.len(),
{
    if order.len() == 0 {
        Seq::empty()
    } else {
        let prev = listed(order.drop_last(), records, status);
        let d = records[order.last()];
        if passes_filter(d, status) {
            prev.push(d)
        } else {
            prev
        }
    }
}

/// Whether an entry was made for this group.
pub open spec fn in_group(u: MultisigData, group: Seq<char>) -> bool {
    u.group_identifier matches Some(g) && g@ == group
}

/// Whether `a` comes strictly before `b` in lexicographic order, told apart
/// at position `i`: equal before it, then smaller there, or `a` ends there.
pub open spec fn lex_lt_at(a: Seq<u8>, b: Seq<u8>, i: int) -> bool {
    &&& 0 <= i <= a.len()
    &&& i <= b.len()
    &&& forall|k: int| 0 <= k < i ==> a[k] == b[k]
    &&& ((i < a.len() && i < b.len() && a[i] < b[i]) || (i == a.len() && i < b.len()))
}

/// Lexicographic order on bytes.
pub open spec fn bytes_lt(a: Seq<u8>, b: Seq<u8>) -> bool {
    exists|i: int| lex_lt_at(a, b, i)
}

/// Order of texts, as `String` orders them: by their UTF-8 bytes.
pub open spec fn text_le(a: Seq<char>, b: Seq<char>) -> bool {
    encode_utf8(a) == encode_utf8(b) || bytes_lt(encode_utf8(a), encode_utf8(b))
}

/// Whether no two entries share a canister id.
pub open spec fn ids_unique(units: Seq<MultisigData>) -> bool {
    forall|i: int, j: int|
        0 <= i < units.len() && 0 <= j < units.len() && i != j ==> (#[trigger] units[i]).canister_id@
            != (#[trigger] units[j]).canister_id@
}

/// Whether `u` is the entry of the group with the smallest canister id.
pub open spec fn is_group_minimum(units: Seq<MultisigData>, group: Seq<char>, u: MultisigData) -> bool {
    &&& units.contains(u)
    &&& in_group(u, group)
    &&& forall|j: int|
        0 <= j < units.len() && in_group(#[trigger] units[j], group) ==> text_le(
            u.canister_id@,
            units[j].canister_id@,
        )
}

/// Whether some entry has this canister id.
pub open spec fn id_registered(units: Seq<MultisigData>, id: Seq<char>) -> bool {
    exists|j: int| 0 <= j < units.len() && (#[trigger] units[j]).canister_id@ == id
}

/// Whether a sequence of keys strictly increases.
pub open spec fn increasing(s: Seq<u64>) -> bool {
    forall|i: int, j: int| 0 <= i < j < s.len() ==> s[i] < s[j]
}

proof fn lemma_lex_lt_transitive(a: Seq<u8>, b: Seq<u8>, c: Seq<u8>)
    requires
        bytes_lt(a, b),
        bytes_lt(b, c),
    ensures
        bytes_lt(a, c),
{
    let i = choose|i: int| lex_lt_at(a, b, i);
    let j = choose|j: int| lex_lt_at(b, c, j);
    if i < j {
        assert(lex_lt_at(a, c, i));
    } else if j < i {
        assert(a[j] == b[j]);
        assert(lex_lt_at(a, c, j));
    } else {
        assert(lex_lt_at(a, c, i));
    }
}

proof fn lemma_lex_total_from(a: Seq<u8>, b: Seq<u8>, i: int)
    requires
        a != b,
        0 <= i <= a.len(),
        i <= b.len(),
        forall|k: int| 0 <= k < i ==> a[k] == b[k],
    ensures
        bytes_lt(a, b) || bytes_lt(b, a),
    decreases a.len() - i,
{
    if i == a.len() && i == b.len() {
        assert(a =~= b);
    } else if i == a.len() {
        assert(lex_lt_at(a, b, i));
    } else if i == b.len() {
        assert(lex_lt_at(b, a, i));
    } else if a[i] < b[i] {
        assert(lex_lt_at(a, b, i));
    } else if a[i] > b[i] {
        assert(lex_lt_at(b, a, i));
    } else {
        lemma_lex_total_from(a, b, i + 1);
    }
}

fn bytes_less(a: &[u8], b: &[u8]) -> (r: bool)
    ensures
        r == bytes_lt(a@, b@),
{
    let mut i: usize = 0;
    while i < a.len() && i < b.len()
        invariant
            0 <= i <= a@.len(),
            i <= b@.len(),
            forall|k: int| 0 <= k < i ==> a@[k] == b@[k],
        decreases a@.len() - i,
    {
        if a[i] != b[i] {
            if a[i] < b[i] {
                assert(lex_lt_at(a@, b@, i as int));
                return true;
            }
            proof {
                assert forall|j: int| !lex_lt_at(a@, b@, j) by {
                    if lex_lt_at(a@, b@, j) && j > i {
                        assert(a@[i as int] == b@[i as int]);
                    }
                }
            }
            return false;
        }
        i = i + 1;
    }
    if i == a.len() && i < b.len() {
        assert(lex_lt_at(a@, b@, i as int));
        return true;
    }
    proof {
        assert forall|j: int| !lex_lt_at(a@, b@, j) by {
            if lex_lt_at(a@, b@, j) && j < i {
                assert(a@[j] == b@[j]);
            }
        }
    }
    false
}

fn text_less(a: &String, b: &String) -> (r: bool)
    ensures
        r == bytes_lt(encode_utf8(a@), encode_utf8(b@)),
{
    bytes_less(a.as_str().as_bytes(), b.as_str().as_bytes())
}

/// The three tables of the service: payments by block index, local balances
/// by payer, and provisioned canisters.
pub struct Store {
    transactions: BTreeMap<u64, TransactionData>,
    /// The recorded block indices, ascending.
    transaction_order: Vec<u64>,
    stable: StableTables,
    /// At most one entry per canister id.
    entries: Vec<MultisigData>,
}

impl Store {
    /// Records of payments, by block index.
    pub closed spec fn transactions(&self) -> Map<u64, TransactionData> {
        self.transactions@
    }

    /// The recorded block indices.
    pub closed spec fn transaction_order(&self) -> Seq<u64> {
        self.transaction_order@
    }

    /// Local balances, by textual principal.
    pub closed spec fn balances(&self) -> Map<Seq<char>, u64> {
        balances_of(self.stable)
    }

    /// The snapshot saved in stable memory.
    pub closed spec fn snapshot(&self) -> Seq<u8> {
        snapshot_in(snapshots_of(self.stable))
    }

    /// Provisioned canisters.
    pub closed spec fn units(&self) -> Seq<MultisigData> {
        self.entries@
    }

    /// The recorded block indices are listed once each, ascending, and no two
    /// canisters share an id.
    pub closed spec fn wf(&self) -> bool {
        &&& increasing(self.transaction_order@)
        &&& forall|k: u64|
            #![trigger self.transactions@.contains_key(k)]
            self.transactions@.contains_key(k) <==> self.transaction_order@.contains(k)
        &&& ids_unique(self.entries@)
    }

    /// The listing order holds each recorded block index once, ascending.
    pub proof fn lemma_listing_order(&self)
        requires
            self.wf(),
        ensures
            increasing(self.transaction_order()),
            forall|k: u64|
                #![trigger self.transactions().contains_key(k)]
                self.transactions().contains_key(k) <==> self.transaction_order().contains(k),
            ids_unique(self.units()),
    {
    }

    /// The record of a payment, if one was written.
    pub open spec fn record(&self, block_index: u64) -> Option<TransactionData> {
        if self.transactions().contains_key(block_index) {
            Some(self.transactions()[block_index])
        } else {
            None
        }
    }

    /// Whether a payment has a record in this status.
    pub open spec fn has_status(&self, block_index: u64, status: TransactionStatus) -> bool {
        self.record(block_index) matches Some(d) && d.status == status
    }

    /// The local balance of a textual principal.
    pub open spec fn balance(&self, who: Seq<char>) -> u64 {
        balance_in(self.balances(), who)
    }

    /// `new` holds the records of `old` with one record written.
    pub open spec fn record_written(old: &Store, new: &Store, block_index: u64, d: TransactionData) -> bool {
        new.transactions() == old.transactions().insert(block_index, d)
    }

    /// `new` holds the same records as `old`.
    pub open spec fn records_kept(old: &Store, new: &Store) -> bool {
        new.transactions() == old.transactions()
    }

    /// A store with no records and no canisters; local balances and the
    /// snapshot are those that stable memory holds.
    pub fn new() -> (r: Store)
        ensures
            r.wf(),
            r.transactions().is_empty(),
            r.units() == Seq::<MultisigData>::empty(),
    {
        let r = Store {
            transactions: BTreeMap::new(),
            transaction_order: Vec::new(),
            stable: stable_tables_init(),
            entries: Vec::new(),
        };
        assert(r.entries@ =~= Seq::<MultisigData>::empty());
        r
    }

    /// The canister of a group with the smallest canister id, if the group
    /// has any.
    pub fn get_multisig_by_group_identifier(&self, group_identifier: &String) -> (r: Option<
        MultisigData,
    >)
        requires
            self.wf(),
        ensures
            match r {
                Some(u) => is_group_minimum(self.units(), group_identifier@, u),
                None => forall|j: int|
                    0 <= j < self.units().len() ==> !in_group(
                        #[trigger] self.units()[j],
                        group_identifier@,
                    ),
            },
    {
        let mut best: Option<usize> = None;
        let mut i: usize = 0;
        while i < self.entries.len()
            invariant
                0 <= i <= self.entries@.len(),
                match best {
                    Some(b) => {
                        &&& b < i
                        &&& in_group(self.entries@[b as int], group_identifier@)
                        &&& forall|j: int|
                            0 <= j < i && in_group(#[trigger] self.entries@[j], group_identifier@)
                                ==> text_le(
                                self.entries@[b as int].canister_id@,
                                self.entries@[j].canister_id@,
                            )
                    },
                    None => forall|j: int|
                        0 <= j < i ==> !in_group(#[trigger] self.entries@[j], group_identifier@),
                },
            decreases self.entries@.len() - i,
        {
            let u = &self.entries[i];
            let hit = match &u.group_identifier {
                Some(g) => *g == *group_identifier,
                None => false,
            };
            if hit {
                match best {
                    None => {
                        best = Some(i);
                    },
                    Some(b) => {
                        let ghost ui = encode_utf8(self.entries@[i as int].canister_id@);
                        let ghost ub = encode_utf8(self.entries@[b as int].canister_id@);
                        if text_less(&u.canister_id, &self.entries[b].canister_id) {
                            proof {
                                assert forall|j: int|
                                    0 <= j < i + 1 && in_group(
                                        #[trigger] self.entries@[j],
                                        group_identifier@,
                                    ) implies text_le(
                                    self.entries@[i as int].canister_id@,
                                    self.entries@[j].canister_id@,
                                ) by {
                                    let uj = encode_utf8(self.entries@[j].canister_id@);
                                    if j < i && ub != uj {
                                        lemma_lex_lt_transitive(ui, ub, uj);
                                    }
                                }
                            }
                            best = Some(i);
                        } else {
                            proof {
                                if ui != ub {
                                    lemma_lex_total_from(ui, ub, 0);
                                }
                            }
                        }
                    },
                }
            }
            i = i + 1;
        }
        match best {
            Some(b) => {
                assert(self.entries@.contains(self.entries@[b as int]));
                Some(self.entries[b].duplicate())
            },
            None => None,
        }
    }

    /// Every provisioned canister.
    pub fn get_multisigs(&self) -> (r: Vec<MultisigData>)
        ensures
            r@ == self.units(),
    {
        let mut r: Vec<MultisigData> = Vec::new();
        let mut i: usize = 0;
        while i < self.entries.len()
            invariant
                0 <= i <= self.entries@.len(),
                r@ == self.entries@.take(i as int),
            decreases self.entries@.len() - i,
        {
            r.push(self.entries[i].duplicate());
            i = i + 1;
            assert(r@ =~= self.entries@.take(i as int));
        }
        assert(self.entries@.take(i as int) =~= self.entries@);
        r
    }

    /// The local balance of a principal, given by its bytes.
    pub fn get_caller_local_icp_balance(&self, caller: &Vec<u8>) -> (r: u64)
        requires
            caller@.len() <= MAX_PRINCIPAL_LEN,
        ensures
            r == self.balance(principal_text_of(caller@)),
    {
        let who = principal_text(caller);
        self.local_balance(&who)
    }

    /// The local balance of a textual principal.
    pub fn local_balance(&self, who: &String) -> (r: u64)
        ensures
            r == self.balance(who@),
    {
        match balance_map_get(&self.stable, who) {
            Some(b) => b,
            None => 0,
        }
    }

    /// The records that pass the filter, by ascending block index.
    pub fn get_transactions(&self, status: Option<TransactionStatus>) -> (r: Vec<TransactionData>)
        requires
            self.wf(),
        ensures
            r@ == listed(self.transaction_order(), self.transactions(), status),
            increasing(self.transaction_order()),
    {
        let mut r: Vec<TransactionData> = Vec::new();
        let mut i: usize = 0;
        while i < self.transaction_order.len()
            invariant
                self.wf(),
                0 <= i <= self.transaction_order@.len(),
                r@ == listed(self.transaction_order@.take(i as int), self.transactions@, status),
            decreases self.transaction_order@.len() - i,
        {
            let k = self.transaction_order[i];
            proof {
                assert(self.transaction_order@.contains(k));
                assert(self.transactions@.contains_key(k));
                assert(self.transaction_order@.take(i + 1).drop_last() =~= self.transaction_order@.take(i as int));
            }
            match self.transactions.get(&k) {
                Some(d) => {
                    let keep = match status {
                        Some(s) => d.status == s,
                        None => true,
                    };
                    if keep {
                        r.push(d.duplicate());
                    }
                },
                None => {},
            }
            i = i + 1;
        }
        assert(self.transaction_order@.take(i as int) =~= self.transaction_order@);
        r
    }

    /// The record of the payment at a block index, if one was written.
    pub fn get_transaction(&self, block_index: u64) -> (r: Option<TransactionData>)
        ensures
            r == self.record(block_index),
    {
        match self.transactions.get(&block_index) {
            Some(d) => Some(d.duplicate()),
            None => None,
        }
    }

    /// Saves a snapshot of the records and canisters, encoded by the caller,
    /// in stable memory, replacing the one saved before.
    pub fn save_snapshot(&mut self, bytes: Vec<u8>)
        ensures
            final(self).snapshot() == bytes@,
            Store::records_kept(old(self), final(self)),
            final(self).transaction_order() == old(self).transaction_order(),
            final(self).units() == old(self).units(),
            final(self).balances() == old(self).balances(),
            old(self).wf() ==> final(self).wf(),
    {
        snapshot_map_insert(&mut self.stable, SNAPSHOT_KEY, bytes);
    }

    /// The snapshot saved in stable memory; empty if none was.
    pub fn saved_snapshot(&self) -> (r: Vec<u8>)
        ensures
            r@ == self.snapshot(),
    {
        match snapshot_map_get(&self.stable, SNAPSHOT_KEY) {
            Some(b) => b,
            None => Vec::new(),
        }
    }

    /// Puts back a record read from a snapshot, under its own block index.
    pub fn restore_transaction(&mut self, data: TransactionData)
        requires
            old(self).wf(),
        ensures
            final(self).wf(),
            Store::record_written(old(self), final(self), data.icp_transfer_block_index, data),
            final(self).balances() == old(self).balances(),
            final(self).units() == old(self).units(),
    {
        let block_index = data.icp_transfer_block_index;
        self.insert_transaction_data(block_index, data);
    }

    /// Puts back a canister read from a snapshot, unless its id is
    /// registered already.
    pub fn restore_multisig(&mut self, unit: MultisigData)
        requires
            old(self).wf(),
        ensures
            final(self).wf(),
            final(self).units() == if id_registered(old(self).units(), unit.canister_id@) {
                old(self).units()
            } else {
                old(self).units().push(unit)
            },
            Store::records_kept(old(self), final(self)),
            final(self).balances() == old(self).balances(),
    {
        self.insert_multisig(unit);
    }

    /// Whether a payment may run through the saga: it has no record yet, or
    /// its last attempt stopped where nothing left this service's control.
    pub fn is_valid_block(&self, block_index: u64) -> (r: bool)
        ensures
            r == record_is_retryable(self.record(block_index)),
    {
        match self.transactions.get(&block_index) {
            Some(d) => match d.status {
                TransactionStatus::TransferToMintFailed => true,
                TransactionStatus::InsufficientAmount => true,
                _ => false,
            },
            None => true,
        }
    }

    /// Writes the record of a payment, replacing an earlier one.
    pub(crate) fn insert_transaction_data(&mut self, block_index: u64, data: TransactionData)
        requires
            old(self).wf(),
        ensures
            final(self).wf(),
            Store::record_written(old(self), final(self), block_index, data),
            final(self).balances() == old(self).balances(),
            final(self).units() == old(self).units(),
    {
        if !self.transactions.contains_key(&block_index) {
            let mut i: usize = 0;
            while i < self.transaction_order.len() && self.transaction_order[i] < block_index
                invariant
                    self.transaction_order@ == old(self).transaction_order@,
                    0 <= i <= self.transaction_order@.len(),
                    forall|j: int| 0 <= j < i ==> self.transaction_order@[j] < block_index,
                decreases self.transaction_order@.len() - i,
            {
                i = i + 1;
            }
            let ghost o = self.transaction_order@;
            proof {
                assert(!o.contains(block_index));
                assert forall|j: int| i <= j < o.len() implies o[j] > block_index by {
                    assert(o[i as int] >= block_index);
                    assert(o[i as int] != block_index);
                    if j > i {
                        assert(o[i as int] < o[j]);
                    }
                }
            }
            self.transaction_order.insert(i, block_index);
            proof {
                let n = self.transaction_order@;
                assert(n =~= o.insert(i as int, block_index));
                assert forall|k: u64| n.contains(k) <==> o.contains(k) || k == block_index by {
                    if n.contains(k) {
                        let j = choose|j: int| 0 <= j < n.len() && n[j] == k;
                        if j < i {
                            assert(o[j] == k);
                        } else if j > i {
                            assert(o[j - 1] == k);
                        }
                    }
                    if o.contains(k) {
                        let j = choose|j: int| 0 <= j < o.len() && o[j] == k;
                        if j < i {
                            assert(n[j] == k);
                        } else {
                            assert(n[j + 1] == k);
                        }
                    }
                    if k == block_index {
                        assert(n[i as int] == k);
                    }
                }
            }
        }
        self.transactions.insert(block_index, data);
    }

    /// Removes the record of a payment, if there is one.
    pub(crate) fn remove_transaction_data(&mut self, block_index: u64)
        requires
            old(self).wf(),
        ensures
            final(self).wf(),
            final(self).transactions() == old(self).transactions().remove(block_index),
            final(self).balances() == old(self).balances(),
            final(self).units() == old(self).units(),
    {
        if self.transactions.contains_key(&block_index) {
            let ghost o = self.transaction_order@;
            assert(o.contains(block_index));
            let mut i: usize = 0;
            while i < self.transaction_order.len() && self.transaction_order[i] != block_index
                invariant
                    self.transaction_order@ == o,
                    0 <= i <= o.len(),
                    forall|j: int| 0 <= j < i ==> o[j] != block_index,
                decreases o.len() - i,
            {
                i = i + 1;
            }
            proof {
                if i == o.len() {
                    let j = choose|j: int| 0 <= j < o.len() && o[j] == block_index;
                    assert(o[j] != block_index);
                }
            }
            self.transaction_order.remove(i);
            proof {
                let n = self.transaction_order@;
                assert(n =~= o.remove(i as int));
                assert forall|k: u64| n.contains(k) <==> o.contains(k) && k != block_index by {
                    if n.contains(k) {
                        let j = choose|j: int| 0 <= j < n.len() && n[j] == k;
                        if j < i {
                            assert(o[j] == k);
                        } else {
                            assert(o[j + 1] == k);
                            assert(o[i as int] < o[j + 1]);
                        }
                    }
                    if o.contains(k) && k != block_index {
                        let j = choose|j: int| 0 <= j < o.len() && o[j] == k;
                        if j < i {
                            assert(n[j] == k);
                        } else {
                            assert(j != i);
                            assert(n[j - 1] == k);
                        }
                    }
                }
            }
        }
        self.transactions.remove(&block_index);
        assert(self.transactions@ =~= old(self).transactions@.remove(block_index));
    }

    /// Applies a change to the local balance of a textual principal.
    pub(crate) fn update_caller_icp_balance(&mut self, who: &String, update: BalanceUpdate)
        ensures
            final(self).balances() == old(self).balances().insert(
                who@,
                updated_balance(old(self).balance(who@), update),
            ),
            Store::records_kept(old(self), final(self)),
            final(self).transaction_order() == old(self).transaction_order(),
            final(self).units() == old(self).units(),
            old(self).wf() ==> final(self).wf(),
    {
        let current = self.local_balance(who);
        let next = match update {
            BalanceUpdate::Add(a) => current.saturating_add(a),
            BalanceUpdate::Subtract(a) => current.saturating_sub(a),
        };
        balance_map_insert(&mut self.stable, who.clone(), next);
    }

    /// Registers a provisioned canister, unless its canister id is
    /// registered already: a registered canister is never changed.
    pub(crate) fn insert_multisig(&mut self, unit: MultisigData)
        requires
            old(self).wf(),
        ensures
            final(self).wf(),
            final(self).units() == if id_registered(old(self).units(), unit.canister_id@) {
                old(self).units()
            } else {
                old(self).units().push(unit)
            },
            Store::records_kept(old(self), final(self)),
            final(self).transaction_order() == old(self).transaction_order(),
            final(self).balances() == old(self).balances(),
    {
        let ghost o = self.entries@;
        let mut i: usize = 0;
        while i < self.entries.len()
            invariant
                *self == *old(self),
                self.wf(),
                self.entries@ == o,
                0 <= i <= o.len(),
                forall|j: int| 0 <= j < i ==> (#[trigger] o[j]).canister_id@ != unit.canister_id@,
            decreases o.len() - i,
        {
            if self.entries[i].canister_id == unit.canister_id {
                assert(o[i as int].canister_id@ == unit.canister_id@);
                return;
            }
            i = i + 1;
        }
        self.entries.push(unit);
        proof {
            let n = self.entries@;
            assert(n =~= o.push(unit));
            assert(ids_unique(n)) by {
                assert forall|a: int, b: int|
                    0 <= a < n.len() && 0 <= b < n.len() && a != b implies (#[trigger] n[a]).canister_id@
                        != (#[trigger] n[b]).canister_id@ by {
                    if a < o.len() && b < o.len() {
                        assert(o[a] == n[a] && o[b] == n[b]);
                    } else if a < o.len() {
                        assert(o[a] == n[a]);
                    } else {
                        assert(o[b] == n[b]);
                    }
                }
            }
        }
    }
}

} // verus!
