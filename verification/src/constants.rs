//! Process-wide configuration: the fixed chain identifier, the reserved
//! system-contract addresses, and the ordered list of system contracts that
//! every genesis state is seeded with.

use vstd::prelude::*;

use crate::types::Address;

verus! {

/// The fixed chain identifier every world state is tagged with.
pub const CHAIN_ID: u64 = 270;

/// How a system contract's artifact was produced upstream. The tag only
/// selects the artifact shape it is read from; storage semantics are the
/// same for both.
#[derive(Clone, Copy, Debug, PartialEq, Eq, Structural)]
pub enum ContractLanguage {
    Sol,
    Yul,
}

/// One entry of the fixed system-contract table: a name to resolve the
/// artifact by, the reserved address, and the artifact's language.
pub struct SystemContractEntry {
    pub name: String,
    pub address: Address,
    pub language: ContractLanguage,
}

/// A reserved address: eighteen zero bytes followed by two distinguishing
/// bytes.
pub open spec fn fixed_address_bytes(hi: u8, lo: u8) -> Seq<u8> {
    Seq::new(20, |i: int| if i == 18 { hi } else if i == 19 { lo } else { 0u8 })
}

/// Builds a reserved address from its two distinguishing bytes.
pub fn fixed_address(hi: u8, lo: u8) -> (r: Address)
    ensures
        r@ == fixed_address_bytes(hi, lo),
        r.wf(),
{
    let mut bytes = crate::types::make_zeros(18);
    bytes.push(hi);
    bytes.push(lo);
    proof {
        assert(bytes@ =~= fixed_address_bytes(hi, lo));
    }
    Address { bytes }
}

/// The account whose storage maps each address to its code hash.
pub open spec fn account_code_storage_bytes() -> Seq<u8> {
    fixed_address_bytes(0x80, 0x02)
}

pub fn account_code_storage_address() -> (r: Address)
    ensures
        r@ == account_code_storage_bytes(),
        r.wf(),
{
    fixed_address(0x80, 0x02)
}

/// The canonical deployer contract; its storage also marks which addresses
/// are accounts.
pub open spec fn contract_deployer_bytes() -> Seq<u8> {
    fixed_address_bytes(0x80, 0x06)
}

pub fn contract_deployer_address() -> (r: Address)
    ensures
        r@ == contract_deployer_bytes(),
        r.wf(),
{
    fixed_address(0x80, 0x06)
}

/// The ether-token ledger contract that holds every account's balance.
pub open spec fn l2_eth_token_bytes() -> Seq<u8> {
    fixed_address_bytes(0x80, 0x0a)
}

pub fn l2_eth_token_address() -> (r: Address)
    ensures
        r@ == l2_eth_token_bytes(),
        r.wf(),
{
    fixed_address(0x80, 0x0a)
}

/// The contract that exposes chain configuration to executing code.
pub open spec fn system_context_bytes() -> Seq<u8> {
    fixed_address_bytes(0x80, 0x0b)
}

pub fn system_context_address() -> (r: Address)
    ensures
        r@ == system_context_bytes(),
        r.wf(),
{
    fixed_address(0x80, 0x0b)
}

/// Whether a table entry carries exactly the given name, reserved address
/// and artifact language.
pub open spec fn entry_is(
    e: SystemContractEntry,
    name: Seq<char>,
    hi: u8,
    lo: u8,
    language: ContractLanguage,
) -> bool {
    &&& e.name@ == name
    &&& e.address@ == fixed_address_bytes(hi, lo)
    &&& e.address.wf()
    &&& e.language == language
}

/// The fixed, ordered list of the 18 system contracts pre-installed in
/// every genesis state: each entry's name, reserved address and artifact
/// language is pinned. Identical across all world states of a process.
pub fn system_contract_list() -> (r: Vec<SystemContractEntry>)
    ensures
        r@.len() == 18,
        forall|i: int| 0 <= i < r@.len() ==> (#[trigger] r@[i]).address.wf(),
        entry_is(r@[0], "AccountCodeStorage"@, 0x80, 0x02, ContractLanguage::Sol),
        entry_is(r@[1], "NonceHolder"@, 0x80, 0x03, ContractLanguage::Sol),
        entry_is(r@[2], "KnownCodesStorage"@, 0x80, 0x04, ContractLanguage::Sol),
        entry_is(r@[3], "ImmutableSimulator"@, 0x80, 0x05, ContractLanguage::Sol),
        entry_is(r@[4], "ContractDeployer"@, 0x80, 0x06, ContractLanguage::Sol),
        entry_is(r@[5], "L1Messenger"@, 0x80, 0x08, ContractLanguage::Sol),
        entry_is(r@[6], "MsgValueSimulator"@, 0x80, 0x09, ContractLanguage::Sol),
        entry_is(r@[7], "L2EthToken"@, 0x80, 0x0a, ContractLanguage::Sol),
        entry_is(r@[8], "Keccak256"@, 0x80, 0x10, ContractLanguage::Yul),
        entry_is(r@[9], "SHA256"@, 0x00, 0x02, ContractLanguage::Yul),
        entry_is(r@[10], "Ecrecover"@, 0x00, 0x01, ContractLanguage::Yul),
        entry_is(r@[11], "SystemContext"@, 0x80, 0x0b, ContractLanguage::Sol),
        entry_is(r@[12], "EventWriter"@, 0x80, 0x0d, ContractLanguage::Yul),
        entry_is(r@[13], "BootloaderUtilities"@, 0x80, 0x0c, ContractLanguage::Sol),
        entry_is(r@[14], "BytecodeCompressor"@, 0x80, 0x0e, ContractLanguage::Sol),
        entry_is(r@[15], "ComplexUpgrader"@, 0x80, 0x0f, ContractLanguage::Sol),
        entry_is(r@[16], "EmptyContract"@, 0x00, 0x00, ContractLanguage::Sol),
        entry_is(r@[17], "EmptyContract"@, 0x80, 0x01, ContractLanguage::Sol),
{
    let mut r: Vec<SystemContractEntry> = Vec::new();
    r.push(entry("AccountCodeStorage", 0x80, 0x02, ContractLanguage::Sol));
    r.push(entry("NonceHolder", 0x80, 0x03, ContractLanguage::Sol));
    r.push(entry("KnownCodesStorage", 0x80, 0x04, ContractLanguage::Sol));
    r.push(entry("ImmutableSimulator", 0x80, 0x05, ContractLanguage::Sol));
    r.push(entry("ContractDeployer", 0x80, 0x06, ContractLanguage::Sol));
    r.push(entry("L1Messenger", 0x80, 0x08, ContractLanguage::Sol));
    r.push(entry("MsgValueSimulator", 0x80, 0x09, ContractLanguage::Sol));
    r.push(entry("L2EthToken", 0x80, 0x0a, ContractLanguage::Sol));
    r.push(entry("Keccak256", 0x80, 0x10, ContractLanguage::Yul));
    r.push(entry("SHA256", 0x00, 0x02, ContractLanguage::Yul));
    r.push(entry("Ecrecover", 0x00, 0x01, ContractLanguage::Yul));
    r.push(entry("SystemContext", 0x80, 0x0b, ContractLanguage::Sol));
    r.push(entry("EventWriter", 0x80, 0x0d, ContractLanguage::Yul));
    r.push(entry("BootloaderUtilities", 0x80, 0x0c, ContractLanguage::Sol));
    r.push(entry("BytecodeCompressor", 0x80, 0x0e, ContractLanguage::Sol));
    r.push(entry("ComplexUpgrader", 0x80, 0x0f, ContractLanguage::Sol));
    // Only the zero address and the bootloader address start with empty
    // bytecode; both are seeded with the empty contract's artifact.
    r.push(entry("EmptyContract", 0x00, 0x00, ContractLanguage::Sol));
    r.push(entry("EmptyContract", 0x80, 0x01, ContractLanguage::Sol));
    r
}

fn entry(name: &str, hi: u8, lo: u8, language: ContractLanguage) -> (r: SystemContractEntry)
    ensures
        entry_is(r, name@, hi, lo, language),
{
    SystemContractEntry { name: name.to_owned(), address: fixed_address(hi, lo), language }
}

} // verus!
