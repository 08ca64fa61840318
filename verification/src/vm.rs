//! The execution driver: it owns the world state for the machine's
//! lifetime, queues transactions, and hands them out for execution in one
//! of two granularities — one transaction at a time, or everything since
//! the last batch boundary as one sealed unit.
//!
//! The instruction-execution engine itself is an external collaborator:
//! the caller takes the transactions this driver hands out, runs them, and
//! records the outcomes back. Everything the driver decides — order,
//! batching, and the factory-dependency check — is verified here.

use vstd::prelude::*;

use crate::account::Transaction;
use crate::env::{default_l1_batch, default_system_env, L1BatchEnv, SystemEnv};
use crate::hash::valid_bytecode_shape;
use crate::storage::{get_code_key, WorldState};
use crate::types::{bytes_eq, make_zeros, zeros};
use crate::HarnessError;

verus! {

/// The two granularities of execution.
#[derive(Clone, Copy, Debug, PartialEq, Eq, Structural)]
pub enum VmExecutionMode {
    /// Execute exactly one previously pushed transaction.
    OneTx,
    /// Execute everything pushed since the last batch boundary as one
    /// sealed unit.
    Batch,
}

/// The outcome of one executed transaction. A revert or halt is a normal,
/// successfully-reported outcome, never a driver error.
pub enum TxOutcome {
    Success { return_data: Vec<u8> },
    Revert { return_data: Vec<u8> },
    Halt,
}

/// A machine instance bound to its environments and world state, with the
/// transactions queued for the next round and the outcomes reported back
/// so far.
pub struct Vm {
    pub batch_env: L1BatchEnv,
    pub system_env: SystemEnv,
    pub storage: WorldState,
    pub pending: Vec<Transaction>,
    pub results: Vec<TxOutcome>,
}

impl Vm {
    /// Binds a fresh machine to its environments and takes exclusive
    /// ownership of the world state.
    pub fn new(batch_env: L1BatchEnv, system_env: SystemEnv, storage: WorldState) -> (r: Vm)
        ensures
            r.batch_env == batch_env,
            r.system_env == system_env,
            r.storage == storage,
            r.pending@ == Seq::<Transaction>::empty(),
            r.results@ == Seq::<TxOutcome>::empty(),
    {
        Vm { batch_env, system_env, storage, pending: Vec::new(), results: Vec::new() }
    }

    /// Enqueues a transaction for the next execution round.
    pub fn push_transaction(&mut self, tx: Transaction)
        ensures
            final(self).pending@ == old(self).pending@.push(tx),
            final(self).results@ == old(self).results@,
            final(self).storage == old(self).storage,
            final(self).batch_env == old(self).batch_env,
            final(self).system_env == old(self).system_env,
    {
        self.pending.push(tx);
    }

    /// Hands out the transactions of the next execution round, in
    /// submission order: the first pending transaction alone, or the whole
    /// pending queue as one sealed batch. The handed-out transactions move
    /// from the pending queue to the executed log; the world state and the
    /// environments are untouched.
    pub fn take_for_execution(&mut self, mode: VmExecutionMode) -> (txs: Vec<Transaction>)
        ensures
            mode == VmExecutionMode::OneTx ==> txs@ == old(self).pending@.take(
                if old(self).pending@.len() == 0 { 0int } else { 1int },
            ) && final(self).pending@ == old(self).pending@.skip(
                if old(self).pending@.len() == 0 { 0int } else { 1int },
            ),
            mode == VmExecutionMode::Batch ==> txs@ == old(self).pending@ && final(self).pending@
                == Seq::<Transaction>::empty(),
            final(self).results@ == old(self).results@,
            final(self).storage == old(self).storage,
            final(self).batch_env == old(self).batch_env,
            final(self).system_env == old(self).system_env,
    {
        let mut txs: Vec<Transaction> = Vec::new();
        match mode {
            VmExecutionMode::OneTx => {
                if self.pending.len() > 0 {
                    let tx = self.pending.remove(0);
                    txs.push(tx);
                    proof {
                        assert(txs@ =~= old(self).pending@.take(1));
                        assert(self.pending@ =~= old(self).pending@.skip(1));
                    }
                } else {
                    proof {
                        assert(txs@ =~= old(self).pending@.take(0));
                        assert(self.pending@ =~= old(self).pending@.skip(0));
                    }
                }
            },
            VmExecutionMode::Batch => {
                let mut drained = Vec::new();
                core::mem::swap(&mut drained, &mut self.pending);
                txs = drained;
            },
        }
        txs
    }

    /// Records the outcomes the engine reported for a handed-out round, in
    /// the round's order.
    pub fn record_outcomes(&mut self, outcomes: Vec<TxOutcome>)
        ensures
            final(self).results@ == old(self).results@ + outcomes@,
            final(self).pending@ == old(self).pending@,
            final(self).storage == old(self).storage,
            final(self).batch_env == old(self).batch_env,
            final(self).system_env == old(self).system_env,
    {
        let mut rest = outcomes;
        let ghost all = rest@;
        let total = rest.len();
        let mut i: usize = 0;
        proof {
            assert(all.skip(0) =~= all);
        }
        while rest.len() > 0
            invariant
                i <= all.len(),
                all.len() == total,
                rest@ == all.skip(i as int),
                self.results@ == old(self).results@ + all.take(i as int),
                self.pending@ == old(self).pending@,
                self.storage == old(self).storage,
                self.batch_env == old(self).batch_env,
                self.system_env == old(self).system_env,
            decreases rest@.len(),
        {
            proof {
                assert(rest@.len() == all.len() - i);
                assert(i < all.len());
            }
            let outcome = rest.remove(0);
            self.results.push(outcome);
            proof {
                assert(rest@ =~= all.skip(i as int + 1));
                assert(old(self).results@ + all.take(i as int + 1) =~= (old(self).results@
                    + all.take(i as int)).push(all[i as int]));
            }
            i = i + 1;
        }
        proof {
            assert(all.skip(i as int).len() == 0);
            assert(i as int == all.len());
            assert(all.take(i as int) =~= all);
        }
    }

    /// Checks the storage-consistency invariant for a transaction's
    /// target: an address whose code slot holds a non-empty hash must have
    /// that hash's bytecode registered as a factory dependency, or the
    /// round must abort rather than silently execute empty code.
    pub fn check_factory_deps(&self, tx: &Transaction) -> (r: Result<(), HarnessError>)
        requires
            tx.execute.contract_address.wf(),
            self.storage.wf(),
        ensures
            ({
                let key = crate::storage::code_key_of(tx.execute.contract_address@);
                let hash = if self.storage.slots_map().contains_key(key) {
                    self.storage.slots_map()[key]
                } else {
                    zeros(32)
                };
                &&& (r is Ok <==> (hash == zeros(32) || self.storage.deps_map().contains_key(hash)))
                &&& (r matches Err(e) ==> e == HarnessError::StorageConsistency)
            }),
    {
        let key = get_code_key(&tx.execute.contract_address);
        let hash = self.storage.read_value(&key);
        let zero = make_zeros(32);
        if bytes_eq(&hash.bytes, &zero) {
            return Ok(());
        }
        match self.storage.load_factory_dep(&hash) {
            Some(_) => Ok(()),
            None => Err(HarnessError::StorageConsistency),
        }
    }
}

/// The rounds single-transaction execution produces from a pending queue:
/// one round per transaction, in order.
pub open spec fn single_rounds(pending: Seq<Transaction>) -> Seq<Seq<Transaction>>
    decreases pending.len(),
{
    if pending.len() == 0 {
        Seq::empty()
    } else {
        seq![pending.take(1)] + single_rounds(pending.skip(1))
    }
}

/// The transactions of a sequence of rounds, flattened in order.
pub open spec fn flatten_rounds(rounds: Seq<Seq<Transaction>>) -> Seq<Transaction>
    decreases rounds.len(),
{
    if rounds.len() == 0 {
        Seq::empty()
    } else {
        rounds[0] + flatten_rounds(rounds.skip(1))
    }
}

/// Executing a pending queue one transaction at a time covers exactly the
/// transactions of the single sealed batch, in the same submission order:
/// the batch only reports them together where single-transaction rounds
/// report them individually.
pub proof fn lemma_single_rounds_cover_batch(pending: Seq<Transaction>)
    ensures
        flatten_rounds(single_rounds(pending)) == pending,
    decreases pending.len(),
{
    if pending.len() == 0 {
        assert(flatten_rounds(single_rounds(pending)) =~= pending);
    } else {
        lemma_single_rounds_cover_batch(pending.skip(1));
        let rounds = single_rounds(pending);
        assert(rounds[0] == pending.take(1));
        assert(rounds.skip(1) =~= single_rounds(pending.skip(1)));
        assert(flatten_rounds(rounds) == pending.take(1) + flatten_rounds(
            single_rounds(pending.skip(1)),
        ));
        assert(pending.take(1) + pending.skip(1) =~= pending);
    }
}

/// Builds a machine over the given world state with the default batch
/// environment (batch number one) and the default system environment
/// around the two bootstrapping bytecodes. The machine owns the state
/// exclusively from here on: callers must not mutate it through other
/// paths once transactions are pushed. Fails exactly when either bytecode
/// cannot be hashed.
pub fn default_vm(storage: WorldState, bootloader_code: Vec<u8>, default_aa_code: Vec<u8>) -> (r:
    Result<Vm, HarnessError>)
    ensures
        r is Ok <==> valid_bytecode_shape(bootloader_code@) && valid_bytecode_shape(
            default_aa_code@,
        ),
        r matches Ok(vm) ==> {
            &&& vm.batch_env.number == 1
            &&& vm.batch_env.previous_batch_hash is None
            &&& vm.batch_env.l1_gas_price == crate::env::L1_GAS_PRICE
            &&& vm.batch_env.fair_l2_gas_price == crate::env::FAIR_L2_GAS_PRICE
            &&& vm.batch_env.enforced_base_fee is None
            &&& vm.batch_env.fee_account.wf()
            &&& vm.batch_env.first_l2_block.number == 1
            &&& vm.batch_env.first_l2_block.timestamp == vm.batch_env.timestamp
            &&& vm.batch_env.first_l2_block.prev_block_hash@ == crate::hash::legacy_block_hash_of(0)
            &&& vm.batch_env.first_l2_block.max_virtual_blocks_to_create
                == crate::env::MAX_VIRTUAL_BLOCKS
            &&& vm.system_env.zk_porter_available == false
            &&& vm.system_env.version == crate::env::PROTOCOL_VERSION
            &&& vm.system_env.base_system_smart_contracts.bootloader.code@ == bootloader_code@
            &&& vm.system_env.base_system_smart_contracts.bootloader.wf()
            &&& vm.system_env.base_system_smart_contracts.default_aa.code@ == default_aa_code@
            &&& vm.system_env.base_system_smart_contracts.default_aa.wf()
            &&& vm.system_env.gas_limit == crate::env::BLOCK_GAS_LIMIT
            &&& vm.system_env.execution_mode == crate::env::TxExecutionMode::VerifyExecute
            &&& vm.system_env.default_validation_computational_gas_limit
                == crate::env::BLOCK_GAS_LIMIT
            &&& vm.system_env.chain_id == crate::constants::CHAIN_ID
            &&& vm.storage == storage
            &&& vm.pending@ == Seq::<Transaction>::empty()
            &&& vm.results@ == Seq::<TxOutcome>::empty()
        },
        r matches Err(e) ==> e == HarnessError::InvalidBytecodeShape,
{
    let batch_env = default_l1_batch(1);
    let system_env = match default_system_env(bootloader_code, default_aa_code) {
        Ok(env) => env,
        Err(e) => {
            return Err(e);
        },
    };
    Ok(Vm::new(batch_env, system_env, storage))
}

} // verus!
