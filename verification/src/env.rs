//! The immutable configuration a machine instance is bound to: the batch
//! environment (numbers, timestamps, gas prices, fee account) and the
//! system environment (protocol version, gas limits, chain id, and the two
//! mandatory bootstrapping contracts).

use vstd::prelude::*;

use crate::account::random_address;
use crate::constants::CHAIN_ID;
use crate::hash::{
    bytecode_hash_of, hash_bytecode, legacy_block_hash_of, legacy_miniblock_hash,
    valid_bytecode_shape,
};
use crate::types::{Address, H256};
use crate::HarnessError;

verus! {

/// The layer-1 gas price the harness pins: 50 gwei.
pub const L1_GAS_PRICE: u64 = 50_000_000_000;

/// The fair layer-2 gas price the harness pins: 0.25 gwei.
pub const FAIR_L2_GAS_PRICE: u64 = 250_000_000;

/// The per-block gas limit handed to the machine.
pub const BLOCK_GAS_LIMIT: u32 = 4_294_967_295;

/// The protocol version the harness pins for every machine instance.
pub const PROTOCOL_VERSION: u16 = 17;

/// How many virtual blocks one block may create.
pub const MAX_VIRTUAL_BLOCKS: u32 = 100;

/// The environment of the first block inside a batch.
pub struct L2BlockEnv {
    pub number: u32,
    pub timestamp: u64,
    pub prev_block_hash: H256,
    pub max_virtual_blocks_to_create: u32,
}

/// The environment one batch executes under.
pub struct L1BatchEnv {
    pub previous_batch_hash: Option<H256>,
    pub number: u32,
    pub timestamp: u64,
    pub l1_gas_price: u64,
    pub fair_l2_gas_price: u64,
    pub fee_account: Address,
    pub enforced_base_fee: Option<u64>,
    pub first_l2_block: L2BlockEnv,
}

/// A bootstrapping contract: its bytecode and that bytecode's hash.
pub struct SystemContractCode {
    pub code: Vec<u8>,
    pub hash: H256,
}

impl SystemContractCode {
    /// The hash always belongs to the code it rides with.
    pub open spec fn wf(&self) -> bool {
        self.hash@ == bytecode_hash_of(self.code@) && valid_bytecode_shape(self.code@)
    }
}

/// The two contracts every machine instance boots with: the batch
/// orchestration contract and the default account-abstraction contract.
pub struct BaseSystemContracts {
    pub bootloader: SystemContractCode,
    pub default_aa: SystemContractCode,
}

/// The granularity of validation the machine applies to transactions.
#[derive(Clone, Copy, Debug, PartialEq, Eq, Structural)]
pub enum TxExecutionMode {
    VerifyExecute,
    EstimateFee,
    EthCall,
}

/// The immutable system configuration of one machine instance.
pub struct SystemEnv {
    pub zk_porter_available: bool,
    pub version: u16,
    pub base_system_smart_contracts: BaseSystemContracts,
    pub gas_limit: u32,
    pub execution_mode: TxExecutionMode,
    pub default_validation_computational_gas_limit: u32,
    pub chain_id: u64,
}

/// Relies on std::time::SystemTime to read the wall clock as milliseconds
/// since the epoch; nothing is promised of the value.
#[verifier::external_body]
fn unix_timestamp_ms() -> u64 {
    match std::time::SystemTime::now().duration_since(std::time::UNIX_EPOCH) {
        Ok(d) => d.as_millis() as u64,
        Err(_) => 0,
    }
}

/// The default batch environment: the given batch number at the current
/// wall-clock time, the pinned gas prices, a fresh random fee account, no
/// enforced base fee, and a first block numbered one whose previous-block
/// hash is the legacy hash of block zero.
pub fn default_l1_batch(number: u32) -> (r: L1BatchEnv)
    ensures
        r.number == number,
        r.previous_batch_hash is None,
        r.l1_gas_price == L1_GAS_PRICE,
        r.fair_l2_gas_price == FAIR_L2_GAS_PRICE,
        r.enforced_base_fee is None,
        r.fee_account.wf(),
        r.first_l2_block.number == 1,
        r.first_l2_block.timestamp == r.timestamp,
        r.first_l2_block.prev_block_hash@ == legacy_block_hash_of(0),
        r.first_l2_block.max_virtual_blocks_to_create == MAX_VIRTUAL_BLOCKS,
{
    let timestamp = unix_timestamp_ms();
    L1BatchEnv {
        previous_batch_hash: None,
        number,
        timestamp,
        l1_gas_price: L1_GAS_PRICE,
        fair_l2_gas_price: FAIR_L2_GAS_PRICE,
        fee_account: random_address(),
        enforced_base_fee: None,
        first_l2_block: L2BlockEnv {
            number: 1,
            timestamp,
            prev_block_hash: legacy_miniblock_hash(0),
            max_virtual_blocks_to_create: MAX_VIRTUAL_BLOCKS,
        },
    }
}

/// The default system environment around the two bootstrapping contracts'
/// bytecodes: each is hashed, validation is full verify-and-execute, gas
/// limits are pinned, and the chain id is the fixed one. Fails exactly
/// when either bytecode cannot be hashed.
pub fn default_system_env(bootloader_code: Vec<u8>, default_aa_code: Vec<u8>) -> (r: Result<
    SystemEnv,
    HarnessError,
>)
    ensures
        r is Ok <==> valid_bytecode_shape(bootloader_code@) && valid_bytecode_shape(
            default_aa_code@,
        ),
        r matches Ok(env) ==> {
            &&& env.zk_porter_available == false
            &&& env.version == PROTOCOL_VERSION
            &&& env.base_system_smart_contracts.bootloader.code@ == bootloader_code@
            &&& env.base_system_smart_contracts.bootloader.wf()
            &&& env.base_system_smart_contracts.default_aa.code@ == default_aa_code@
            &&& env.base_system_smart_contracts.default_aa.wf()
            &&& env.gas_limit == BLOCK_GAS_LIMIT
            &&& env.execution_mode == TxExecutionMode::VerifyExecute
            &&& env.default_validation_computational_gas_limit == BLOCK_GAS_LIMIT
            &&& env.chain_id == CHAIN_ID
        },
        r matches Err(e) ==> e == HarnessError::InvalidBytecodeShape,
{
    let bootloader_hash = match hash_bytecode(&bootloader_code) {
        Ok(h) => h,
        Err(e) => {
            return Err(e);
        },
    };
    let default_aa_hash = match hash_bytecode(&default_aa_code) {
        Ok(h) => h,
        Err(e) => {
            return Err(e);
        },
    };
    let base_system_smart_contracts = BaseSystemContracts {
        bootloader: SystemContractCode { code: bootloader_code, hash: bootloader_hash },
        default_aa: SystemContractCode { code: default_aa_code, hash: default_aa_hash },
    };
    Ok(
        SystemEnv {
            zk_porter_available: false,
            version: PROTOCOL_VERSION,
            base_system_smart_contracts,
            gas_limit: BLOCK_GAS_LIMIT,
            execution_mode: TxExecutionMode::VerifyExecute,
            default_validation_computational_gas_limit: BLOCK_GAS_LIMIT,
            chain_id: CHAIN_ID,
        },
    )
}

} // verus!
