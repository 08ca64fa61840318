use era_harness::account::{random_rich_account, Account, TxType, TxCommon, RICH_ACCOUNT_BALANCE};
use era_harness::constants::{l2_eth_token_address, system_contract_list, ContractLanguage, CHAIN_ID};
use era_harness::genesis::{default_empty_storage, insert_contracts};
use era_harness::hash::{hash_bytecode, key_for_eth_balance};
use era_harness::storage::{get_code_key, get_is_account_key, ContractToDeploy, DeployedContract, StorageKey, WorldState};
use era_harness::tx::build_deploy_tx;
use era_harness::types::{Address, U256};

fn addr(byte: u8) -> Address {
    Address::from_bytes(vec![byte; 20])
}

fn sample_code(byte: u8) -> Vec<u8> {
    vec![byte; 32]
}

fn empty_genesis() -> WorldState {
    default_empty_storage(&Vec::new(), &Vec::new())
}

#[test]
fn fresh_state_carries_chain_id() {
    let state = empty_genesis();
    assert_eq!(state.chain_id, CHAIN_ID);
    let key = StorageKey {
        account: era_harness::constants::system_context_address(),
        key: era_harness::types::H256::zero(),
    };
    let value = state.read_value(&key);
    assert_eq!(value.bytes, U256::from_u64(CHAIN_ID).bytes);
}

#[test]
fn installed_contract_has_hash_and_dependency() {
    let mut state = empty_genesis();
    let code = sample_code(0x5a);
    let contracts = vec![ContractToDeploy {
        bytecode: code.clone(),
        address: addr(0x21),
        is_account: false,
    }];
    insert_contracts(&mut state, &contracts);
    let hash = hash_bytecode(&code).unwrap();
    // The code slot holds the hash...
    let stored = state.read_value(&get_code_key(&addr(0x21)));
    assert_eq!(stored.bytes, hash.bytes);
    // ...and the hash resolves to the bytecode: no dangling code hash.
    let dep = state.load_factory_dep(&stored).unwrap();
    assert_eq!(dep, code);
}

#[test]
fn account_marker_only_written_when_asked() {
    let mut state = empty_genesis();
    let contracts = vec![
        ContractToDeploy { bytecode: sample_code(1), address: addr(0x31), is_account: true },
        ContractToDeploy { bytecode: sample_code(2), address: addr(0x32), is_account: false },
    ];
    insert_contracts(&mut state, &contracts);
    let mut one = vec![0u8; 32];
    one[31] = 1;
    assert_eq!(state.read_value(&get_is_account_key(&addr(0x31))).bytes, one);
    assert_eq!(state.read_value(&get_is_account_key(&addr(0x32))).bytes, vec![0u8; 32]);
}

#[test]
fn system_contract_table_holds_the_fixed_triples() {
    let expected: [(&str, u8, u8, ContractLanguage); 18] = [
        ("AccountCodeStorage", 0x80, 0x02, ContractLanguage::Sol),
        ("NonceHolder", 0x80, 0x03, ContractLanguage::Sol),
        ("KnownCodesStorage", 0x80, 0x04, ContractLanguage::Sol),
        ("ImmutableSimulator", 0x80, 0x05, ContractLanguage::Sol),
        ("ContractDeployer", 0x80, 0x06, ContractLanguage::Sol),
        ("L1Messenger", 0x80, 0x08, ContractLanguage::Sol),
        ("MsgValueSimulator", 0x80, 0x09, ContractLanguage::Sol),
        ("L2EthToken", 0x80, 0x0a, ContractLanguage::Sol),
        ("Keccak256", 0x80, 0x10, ContractLanguage::Yul),
        ("SHA256", 0x00, 0x02, ContractLanguage::Yul),
        ("Ecrecover", 0x00, 0x01, ContractLanguage::Yul),
        ("SystemContext", 0x80, 0x0b, ContractLanguage::Sol),
        ("EventWriter", 0x80, 0x0d, ContractLanguage::Yul),
        ("BootloaderUtilities", 0x80, 0x0c, ContractLanguage::Sol),
        ("BytecodeCompressor", 0x80, 0x0e, ContractLanguage::Sol),
        ("ComplexUpgrader", 0x80, 0x0f, ContractLanguage::Sol),
        ("EmptyContract", 0x00, 0x00, ContractLanguage::Sol),
        ("EmptyContract", 0x80, 0x01, ContractLanguage::Sol),
    ];
    let entries = system_contract_list();
    assert_eq!(entries.len(), expected.len());
    for (entry, (name, hi, lo, language)) in entries.iter().zip(expected.iter()) {
        assert_eq!(entry.name, *name);
        let mut address = vec![0u8; 18];
        address.push(*hi);
        address.push(*lo);
        assert_eq!(entry.address.bytes, address);
        assert_eq!(entry.language, *language);
    }
}

#[test]
fn genesis_seeds_system_contracts() {
    let entries = system_contract_list();
    assert_eq!(entries.len(), 18);
    // Pair each entry with a distinct placeholder bytecode, as the loader
    // outside the library would.
    let mut system: Vec<DeployedContract> = Vec::new();
    for (i, entry) in entries.iter().enumerate() {
        system.push(DeployedContract {
            account_id: Address::from_bytes(entry.address.bytes.clone()),
            bytecode: sample_code(i as u8 + 1),
        });
    }
    let state = default_empty_storage(&system, &Vec::new());
    for (i, entry) in entries.iter().enumerate() {
        let stored = state.read_value(&get_code_key(&entry.address));
        let expected = hash_bytecode(&sample_code(i as u8 + 1)).unwrap();
        assert_eq!(stored.bytes, expected.bytes);
        assert!(state.load_factory_dep(&stored).is_some());
    }
}

#[test]
fn funded_account_balance_read_back_without_a_transaction() {
    let mut state = empty_genesis();
    let account = random_rich_account(&mut state, U256::from_u64(RICH_ACCOUNT_BALANCE));
    assert_eq!(account.nonce, 0);
    let key = StorageKey {
        account: l2_eth_token_address(),
        key: key_for_eth_balance(&account.address),
    };
    let balance = state.read_value(&key);
    assert_eq!(balance.bytes, U256::from_u64(RICH_ACCOUNT_BALANCE).bytes);
    // 10^19 in big-endian bytes.
    let mut expected = vec![0u8; 24];
    expected.extend_from_slice(&[0x8a, 0xc7, 0x23, 0x04, 0x89, 0xe8, 0x00, 0x00]);
    assert_eq!(balance.bytes, expected);
}

#[test]
fn reinstalling_at_same_address_keeps_latest_hash_and_both_dependencies() {
    let mut state = empty_genesis();
    let first_code = sample_code(0x71);
    let second_code = sample_code(0x72);
    let contracts = vec![
        ContractToDeploy { bytecode: first_code.clone(), address: addr(0x2a), is_account: false },
        ContractToDeploy { bytecode: second_code.clone(), address: addr(0x2a), is_account: false },
    ];
    insert_contracts(&mut state, &contracts);
    // The later write wins the code slot...
    let stored = state.read_value(&get_code_key(&addr(0x2a)));
    assert_eq!(stored.bytes, hash_bytecode(&second_code).unwrap().bytes);
    // ...and both bytecodes stay resolvable by hash.
    assert_eq!(state.load_factory_dep(&hash_bytecode(&first_code).unwrap()).unwrap(), first_code);
    assert_eq!(state.load_factory_dep(&stored).unwrap(), second_code);
}

#[test]
fn same_sender_and_nonce_same_predicted_address_in_two_worlds() {
    // Two independent world states, two accounts at the same address with
    // the same nonce: the predicted deployment address is identical.
    let code = sample_code(0x0c);
    let mut first_sender = Account { address: addr(0x44), nonce: 3 };
    let mut second_sender = Account { address: addr(0x44), nonce: 3 };
    let first = build_deploy_tx(&mut first_sender, &code, None, Vec::new(), TxType::L2).unwrap();
    let second = build_deploy_tx(&mut second_sender, &code, None, Vec::new(), TxType::L2).unwrap();
    assert_eq!(first.address.bytes, second.address.bytes);
    assert_eq!(first.bytecode_hash.bytes, second.bytecode_hash.bytes);
}

#[test]
fn l1_deploy_uses_serial_id_and_nonce_zero_address() {
    let code = sample_code(0x0d);
    let mut sender = Account { address: addr(0x45), nonce: 9 };
    let deploy =
        build_deploy_tx(&mut sender, &code, None, Vec::new(), TxType::L1 { serial_id: 5 }).unwrap();
    // The layer-1 envelope carries the serial id and leaves the nonce alone.
    assert_eq!(deploy.tx.common, TxCommon::L1 { serial_id: 5 });
    assert_eq!(sender.nonce, 9);
    // The address is derived from nonce zero by convention.
    let mut fresh = Account { address: addr(0x45), nonce: 0 };
    let reference = build_deploy_tx(&mut fresh, &code, None, Vec::new(), TxType::L2).unwrap();
    assert_eq!(deploy.address.bytes, reference.address.bytes);
}
