//! Signer accounts and the transaction envelopes they author.
//!
//! An account couples a fresh address with a monotonically increasing nonce
//! that every layer-2 transaction it authors consumes. The signature itself
//! belongs to the cryptographic collaborator outside this library; the
//! envelope here carries what the harness reasons about — the payload, and
//! either the consumed nonce or the layer-1 serial id.

use vstd::prelude::*;

use crate::constants::{account_code_storage_bytes, l2_eth_token_address, l2_eth_token_bytes};
use crate::hash::{balance_slot_of, key_for_eth_balance};
use crate::storage::{StorageKey, WorldState};
use crate::types::{Address, H256, U256};

verus! {

/// The conventional starting balance for a factory-made account: ten ether
/// in the smallest unit.
pub const RICH_ACCOUNT_BALANCE: u64 = 10_000_000_000_000_000_000;

/// The semantic payload of a transaction, independent of its envelope: the
/// target, the call data, any bytecode the machine must be able to resolve
/// by hash during execution, and the value transferred.
#[derive(Debug)]
pub struct Execute {
    pub contract_address: Address,
    pub calldata: Vec<u8>,
    pub factory_deps: Option<Vec<Vec<u8>>>,
    pub value: U256,
}

/// Which envelope a built transaction gets.
#[derive(Clone, Copy, Debug, PartialEq, Eq, Structural)]
pub enum TxType {
    /// Layer-1 originated, with an explicit serial id.
    L1 { serial_id: u64 },
    /// Layer-2 originated, consuming the sender's current nonce.
    L2,
}

/// The envelope data of a built transaction.
#[derive(Clone, Copy, Debug, PartialEq, Eq, Structural)]
pub enum TxCommon {
    L1 { serial_id: u64 },
    L2 { nonce: u32 },
}

/// A transaction: immutable once built. It deliberately carries no
/// signature — signing is the cryptographic collaborator's work outside
/// this library, and nothing the harness states or checks reads one; the
/// envelope keeps what the harness reasons about, the consumed nonce or
/// the layer-1 serial id.
#[derive(Debug)]
pub struct Transaction {
    pub execute: Execute,
    pub common: TxCommon,
}

/// A signer identity: its address and its next unused nonce. Owned
/// exclusively by the test driver that created it.
#[derive(Debug)]
pub struct Account {
    pub address: Address,
    pub nonce: u32,
}

/// Relies on rand::random to draw 20 bytes; nothing is promised of their
/// values beyond the count.
#[verifier::external_body]
fn random_address_bytes() -> (r: Vec<u8>)
    ensures
        r@.len() == 20,
{
    rand::random::<[u8; 20]>().to_vec()
}

/// A fresh random address, for externally-owned accounts and fee accounts.
pub fn random_address() -> (r: Address)
    ensures
        r.wf(),
{
    Address { bytes: random_address_bytes() }
}

impl Account {
    pub open spec fn wf(&self) -> bool {
        self.address.wf()
    }

    /// A fresh identity at a random address, with nonce zero.
    pub fn random() -> (r: Account)
        ensures
            r.wf(),
            r.nonce == 0,
    {
        Account { address: random_address(), nonce: 0 }
    }

    /// Wraps a payload as a layer-2 transaction authored by this account:
    /// the transaction carries the account's current nonce, and the nonce
    /// advances by one.
    pub fn get_l2_tx_for_execute(&mut self, execute: Execute) -> (tx: Transaction)
        requires
            old(self).nonce < u32::MAX,
        ensures
            tx.execute == execute,
            tx.common == (TxCommon::L2 { nonce: old(self).nonce }),
            final(self).nonce == old(self).nonce + 1,
            final(self).address == old(self).address,
    {
        let nonce = self.nonce;
        self.nonce = self.nonce + 1;
        Transaction { execute, common: TxCommon::L2 { nonce } }
    }

    /// Wraps a payload as a layer-1 transaction with the given serial id;
    /// the account's nonce is not consumed.
    pub fn get_l1_tx(&self, execute: Execute, serial_id: u64) -> (tx: Transaction)
        ensures
            tx.execute == execute,
            tx.common == (TxCommon::L1 { serial_id }),
    {
        Transaction { execute, common: TxCommon::L1 { serial_id } }
    }
}

/// The storage key a balance is read from: the balance slot of the address
/// inside the ether-token ledger's account.
pub open spec fn balance_key_of(addr: Seq<u8>) -> (Seq<u8>, Seq<u8>) {
    (l2_eth_token_bytes(), balance_slot_of(addr))
}

/// Creates a fresh signer and funds it with `amount` by writing the
/// balance directly into the world state, bypassing any transaction or
/// validation logic: this is test-fixture setup, the only place balances
/// change without a transaction. The funded amount is readable at the
/// account's balance key at once.
pub fn random_rich_account(storage: &mut WorldState, amount: U256) -> (r: Account)
    requires
        old(storage).wf(),
        amount.wf(),
    ensures
        r.wf(),
        r.nonce == 0,
        final(storage).slots_map() == old(storage).slots_map().insert(
            balance_key_of(r.address@),
            amount@,
        ),
        final(storage).deps_map() == old(storage).deps_map(),
        final(storage).chain_id == old(storage).chain_id,
        final(storage).wf(),
        old(storage).no_dangling_code_hash() ==> final(storage).no_dangling_code_hash(),
{
    let account = Account::random();
    let key = StorageKey {
        account: l2_eth_token_address(),
        key: key_for_eth_balance(&account.address),
    };
    storage.set_value(key, H256 { bytes: amount.bytes });
    proof {
        // The balance lives in the ether-token ledger's storage, not the
        // code-storage account, so no code slot changes.
        assert(l2_eth_token_bytes() != account_code_storage_bytes()) by {
            assert(l2_eth_token_bytes()[19] == 0x0au8);
            assert(account_code_storage_bytes()[19] == 0x02u8);
        }
    }
    account
}

/// Funding an account and then reading its balance storage key immediately
/// reflects the funded amount, with no transaction having been executed.
pub proof fn lemma_funded_balance_visible(
    before: WorldState,
    after: WorldState,
    addr: Seq<u8>,
    amount: Seq<u8>,
)
    requires
        after.slots_map() == before.slots_map().insert(balance_key_of(addr), amount),
    ensures
        after.slots_map().contains_key(balance_key_of(addr)),
        after.slots_map()[balance_key_of(addr)] == amount,
{
}

} // verus!
