//! The in-memory world state: a mapping from storage keys to 32-byte
//! values, plus the factory-dependency side table mapping code hashes to
//! bytecode. Writing contract code and registering its bytecode are kept
//! together here, so that no code hash ever dangles without its bytecode.

use vstd::prelude::*;

use crate::constants::{
    account_code_storage_address, account_code_storage_bytes, contract_deployer_address,
    contract_deployer_bytes, system_context_address, system_context_bytes, CHAIN_ID,
};
use crate::hash::{padded_address, pad_address, valid_bytecode_shape};
use crate::types::{copy_bytes, bytes_eq, make_zeros, u256_bytes_of_u64, zeros, Address, H256, U256};

verus! {

/// The mapping an association list denotes: later entries win.
pub open spec fn assoc_map_of<K, V>(entries: Seq<(K, V)>) -> Map<K, V>
    decreases entries.len(),
{
    if entries.len() == 0 {
        Map::empty()
    } else {
        assoc_map_of(entries.drop_last()).insert(entries.last().0, entries.last().1)
    }
}

/// Appending an entry inserts its pair into the denoted mapping.
pub proof fn lemma_assoc_push<K, V>(entries: Seq<(K, V)>, k: K, v: V)
    ensures
        assoc_map_of(entries.push((k, v))) == assoc_map_of(entries).insert(k, v),
{
    assert(entries.push((k, v)).drop_last() =~= entries);
}

/// Entries whose keys differ from `k` do not affect `k`'s binding: the
/// mapping agrees with the one denoted by the prefix before them.
pub proof fn lemma_assoc_skip_tail<K, V>(entries: Seq<(K, V)>, i: int, k: K)
    requires
        0 <= i <= entries.len(),
        forall|j: int| i <= j < entries.len() ==> (#[trigger] entries[j]).0 != k,
    ensures
        assoc_map_of(entries).contains_key(k) <==> assoc_map_of(entries.take(i)).contains_key(k),
        assoc_map_of(entries).contains_key(k) ==> assoc_map_of(entries)[k] == assoc_map_of(
            entries.take(i),
        )[k],
    decreases entries.len() - i,
{
    if i == entries.len() {
        assert(entries.take(i) =~= entries);
    } else {
        lemma_assoc_skip_tail(entries, i + 1, k);
        assert(entries.take(i + 1).drop_last() =~= entries.take(i));
        assert(entries.take(i + 1).last() == entries[i]);
    }
}

/// An entry at `i` whose key no later entry repeats gives `k` its binding.
pub proof fn lemma_assoc_found<K, V>(entries: Seq<(K, V)>, i: int, k: K)
    requires
        0 <= i < entries.len(),
        entries[i].0 == k,
        forall|j: int| i < j < entries.len() ==> (#[trigger] entries[j]).0 != k,
    ensures
        assoc_map_of(entries).contains_key(k),
        assoc_map_of(entries)[k] == entries[i].1,
{
    lemma_assoc_skip_tail(entries, i + 1, k);
    assert(entries.take(i + 1).drop_last() =~= entries.take(i));
    assert(entries.take(i + 1).last() == entries[i]);
}

/// A storage key: the account whose storage is addressed, and the 32-byte
/// slot within it.
pub struct StorageKey {
    pub account: Address,
    pub key: H256,
}

impl View for StorageKey {
    type V = (Seq<u8>, Seq<u8>);

    open spec fn view(&self) -> (Seq<u8>, Seq<u8>) {
        (self.account@, self.key@)
    }
}

impl StorageKey {
    pub open spec fn wf(&self) -> bool {
        self.account.wf() && self.key.wf()
    }
}

/// The storage slot that holds `addr`'s code hash: `addr` padded to a
/// word, inside the code-storage account.
pub open spec fn code_key_of(addr: Seq<u8>) -> (Seq<u8>, Seq<u8>) {
    (account_code_storage_bytes(), padded_address(addr))
}

/// Computes the code-hash storage key for an address.
pub fn get_code_key(addr: &Address) -> (r: StorageKey)
    requires
        addr.wf(),
    ensures
        r@ == code_key_of(addr@),
        r.wf(),
{
    StorageKey {
        account: account_code_storage_address(),
        key: H256 { bytes: pad_address(addr) },
    }
}

/// The storage slot that marks `addr` as an account: `addr` padded to a
/// word, inside the canonical deployer's storage.
pub open spec fn is_account_key_of(addr: Seq<u8>) -> (Seq<u8>, Seq<u8>) {
    (contract_deployer_bytes(), padded_address(addr))
}

/// Computes the is-account marker key for an address.
pub fn get_is_account_key(addr: &Address) -> (r: StorageKey)
    requires
        addr.wf(),
    ensures
        r@ == is_account_key_of(addr@),
        r.wf(),
{
    StorageKey {
        account: contract_deployer_address(),
        key: H256 { bytes: pad_address(addr) },
    }
}

/// The slot of the system-context account that carries the chain
/// identifier.
pub open spec fn chain_id_key() -> (Seq<u8>, Seq<u8>) {
    (system_context_bytes(), zeros(32))
}

/// A contract to pre-install in genesis storage, bypassing the deployer:
/// its bytecode, the address it is written at, and whether the address is
/// marked as able to initiate transactions.
pub struct ContractToDeploy {
    pub bytecode: Vec<u8>,
    pub address: Address,
    pub is_account: bool,
}

impl ContractToDeploy {
    pub open spec fn wf(&self) -> bool {
        self.address.wf() && valid_bytecode_shape(self.bytecode@)
    }
}

/// A contract as written into genesis storage: the account it lives at and
/// its bytecode.
pub struct DeployedContract {
    pub account_id: Address,
    pub bytecode: Vec<u8>,
}

impl DeployedContract {
    pub open spec fn wf(&self) -> bool {
        self.account_id.wf() && valid_bytecode_shape(self.bytecode@)
    }
}

/// The key-value world state shared by the genesis builder and the
/// execution driver, with its factory-dependency side table.
pub struct WorldState {
    pub chain_id: u64,
    pub slots: Vec<(StorageKey, H256)>,
    pub factory_deps: Vec<(H256, Vec<u8>)>,
}

impl WorldState {
    /// The storage mapping this state denotes.
    pub open spec fn slots_map(self) -> Map<(Seq<u8>, Seq<u8>), Seq<u8>> {
        assoc_map_of(self.slots@.map_values(|p: (StorageKey, H256)| (p.0@, p.1@)))
    }

    /// The factory-dependency mapping: code hash to bytecode.
    pub open spec fn deps_map(self) -> Map<Seq<u8>, Seq<u8>> {
        assoc_map_of(self.factory_deps@.map_values(|p: (H256, Vec<u8>)| (p.0@, p.1@)))
    }

    pub open spec fn wf(self) -> bool {
        &&& forall|i: int|
            0 <= i < self.slots@.len() ==> (#[trigger] self.slots@[i]).0.wf()
                && self.slots@[i].1.wf()
        &&& forall|i: int| 0 <= i < self.factory_deps@.len() ==> (#[trigger] self.factory_deps@[i]).0.wf()
    }

    /// No dangling code hash: every address whose code slot holds a
    /// non-empty hash has that hash registered in the factory-dependency
    /// table.
    pub open spec fn no_dangling_code_hash(self) -> bool {
        forall|k: (Seq<u8>, Seq<u8>)|
            #[trigger] self.slots_map().contains_key(k) && k.0 == account_code_storage_bytes()
                && self.slots_map()[k] != zeros(32) ==> self.deps_map().contains_key(
                self.slots_map()[k],
            )
    }

    /// Every factory-dependency entry is stored under its own bytecode's
    /// hash: the bytecode a code hash resolves to re-hashes to that code
    /// hash.
    pub open spec fn deps_keyed_by_hash(self) -> bool {
        forall|h: Seq<u8>|
            #[trigger] self.deps_map().contains_key(h) ==> crate::hash::bytecode_hash_of(
                self.deps_map()[h],
            ) == h
    }

    /// The two mappings a fresh world state denotes: the chain identifier
    /// written into its system-context slot, and no factory dependencies.
    pub open spec fn new_spec_maps() -> (Map<(Seq<u8>, Seq<u8>), Seq<u8>>, Map<Seq<u8>, Seq<u8>>) {
        (
            Map::<(Seq<u8>, Seq<u8>), Seq<u8>>::empty().insert(
                chain_id_key(),
                u256_bytes_of_u64(CHAIN_ID),
            ),
            Map::<Seq<u8>, Seq<u8>>::empty(),
        )
    }

    /// A fresh, empty world state tagged with the fixed chain identifier:
    /// the chain id is written into the system-context account before any
    /// contract is installed.
    pub fn new() -> (r: WorldState)
        ensures
            r.chain_id == CHAIN_ID,
            r.slots_map() == Map::<(Seq<u8>, Seq<u8>), Seq<u8>>::empty().insert(
                chain_id_key(),
                u256_bytes_of_u64(CHAIN_ID),
            ),
            r.deps_map() == Map::<Seq<u8>, Seq<u8>>::empty(),
            r.wf(),
            r.no_dangling_code_hash(),
            r.deps_keyed_by_hash(),
    {
        let mut r = WorldState { chain_id: CHAIN_ID, slots: Vec::new(), factory_deps: Vec::new() };
        proof {
            assert(r.slots@.map_values(|p: (StorageKey, H256)| (p.0@, p.1@)) =~= Seq::<
                ((Seq<u8>, Seq<u8>), Seq<u8>),
            >::empty());
            assert(r.factory_deps@.map_values(|p: (H256, Vec<u8>)| (p.0@, p.1@)) =~= Seq::<
                (Seq<u8>, Seq<u8>),
            >::empty());
        }
        let key = StorageKey { account: system_context_address(), key: H256::zero() };
        let value = U256::from_u64(CHAIN_ID);
        r.set_value(key, H256 { bytes: value.bytes });
        proof {
            assert(system_context_bytes() != account_code_storage_bytes()) by {
                assert(system_context_bytes()[19] == 0x0bu8);
                assert(account_code_storage_bytes()[19] == 0x02u8);
            }
        }
        r
    }

    /// Writes `value` at `key`, replacing whatever binding the key had.
    pub(crate) fn set_value(&mut self, key: StorageKey, value: H256)
        requires
            key.wf(),
            value.wf(),
        ensures
            final(self).slots_map() == old(self).slots_map().insert(key@, value@),
            final(self).deps_map() == old(self).deps_map(),
            final(self).chain_id == old(self).chain_id,
            old(self).wf() ==> final(self).wf(),
    {
        let ghost k = key@;
        let ghost v = value@;
        let ghost before = self.slots@.map_values(|p: (StorageKey, H256)| (p.0@, p.1@));
        self.slots.push((key, value));
        proof {
            assert(self.slots@.map_values(|p: (StorageKey, H256)| (p.0@, p.1@)) =~= before.push(
                (k, v),
            ));
            lemma_assoc_push(before, k, v);
            assert(self.factory_deps@ == old(self).factory_deps@);
        }
    }

    /// Reads the value at `key`; a slot never written reads as the zero
    /// word.
    pub fn read_value(&self, key: &StorageKey) -> (r: H256)
        ensures
            self.slots_map().contains_key(key@) ==> r@ == self.slots_map()[key@],
            !self.slots_map().contains_key(key@) ==> r@ == zeros(32),
            self.wf() ==> r.wf(),
    {
        let ghost entries = self.slots@.map_values(|p: (StorageKey, H256)| (p.0@, p.1@));
        let mut i: usize = self.slots.len();
        while i > 0
            invariant
                i <= self.slots@.len(),
                entries == self.slots@.map_values(|p: (StorageKey, H256)| (p.0@, p.1@)),
                forall|j: int| i <= j < entries.len() ==> (#[trigger] entries[j]).0 != key@,
            decreases i,
        {
            i = i - 1;
            let entry_account = &self.slots[i].0.account;
            let entry_slot = &self.slots[i].0.key;
            if bytes_eq(&entry_account.bytes, &key.account.bytes) && bytes_eq(
                &entry_slot.bytes,
                &key.key.bytes,
            ) {
                proof {
                    assert(entries[i as int].0 == key@);
                    lemma_assoc_found(entries, i as int, key@);
                }
                return H256 { bytes: copy_bytes(&self.slots[i].1.bytes) };
            }
            proof {
                assert(entries[i as int].0 != key@);
            }
        }
        proof {
            lemma_assoc_skip_tail(entries, 0, key@);
            assert(entries.take(0) =~= Seq::<((Seq<u8>, Seq<u8>), Seq<u8>)>::empty());
        }
        H256 { bytes: make_zeros(32) }
    }

    /// Registers bytecode under its hash in the factory-dependency table.
    pub(crate) fn store_factory_dep(&mut self, hash: H256, code: Vec<u8>)
        requires
            hash.wf(),
        ensures
            final(self).deps_map() == old(self).deps_map().insert(hash@, code@),
            final(self).slots_map() == old(self).slots_map(),
            final(self).chain_id == old(self).chain_id,
            old(self).wf() ==> final(self).wf(),
    {
        let ghost k = hash@;
        let ghost v = code@;
        let ghost before = self.factory_deps@.map_values(|p: (H256, Vec<u8>)| (p.0@, p.1@));
        self.factory_deps.push((hash, code));
        proof {
            assert(self.factory_deps@.map_values(|p: (H256, Vec<u8>)| (p.0@, p.1@)) =~= before.push(
                (k, v),
            ));
            lemma_assoc_push(before, k, v);
            assert(self.slots@ == old(self).slots@);
        }
    }

    /// Looks a bytecode up by its hash in the factory-dependency table.
    pub fn load_factory_dep(&self, hash: &H256) -> (r: Option<Vec<u8>>)
        ensures
            self.deps_map().contains_key(hash@) ==> (r matches Some(code) && code@
                == self.deps_map()[hash@]),
            !self.deps_map().contains_key(hash@) ==> r is None,
    {
        let ghost entries = self.factory_deps@.map_values(|p: (H256, Vec<u8>)| (p.0@, p.1@));
        let mut i: usize = self.factory_deps.len();
        while i > 0
            invariant
                i <= self.factory_deps@.len(),
                entries == self.factory_deps@.map_values(|p: (H256, Vec<u8>)| (p.0@, p.1@)),
                forall|j: int| i <= j < entries.len() ==> (#[trigger] entries[j]).0 != hash@,
            decreases i,
        {
            i = i - 1;
            if bytes_eq(&self.factory_deps[i].0.bytes, &hash.bytes) {
                proof {
                    assert(entries[i as int].0 == hash@);
                    lemma_assoc_found(entries, i as int, hash@);
                }
                return Some(copy_bytes(&self.factory_deps[i].1));
            }
            proof {
                assert(entries[i as int].0 != hash@);
            }
        }
        proof {
            lemma_assoc_skip_tail(entries, 0, hash@);
            assert(entries.take(0) =~= Seq::<(Seq<u8>, Seq<u8>)>::empty());
        }
        None
    }
}

} // verus!
