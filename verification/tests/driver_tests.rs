use era_harness::abi::{FunctionDef, Interface, ParamKind, Token};
use era_harness::account::{random_rich_account, Account, TxCommon, TxType, RICH_ACCOUNT_BALANCE};
use era_harness::genesis::default_empty_storage;
use era_harness::storage::{ContractToDeploy, StorageKey};
use era_harness::tx::{build_call_tx, build_deploy_tx};
use era_harness::types::{Address, U256};
use era_harness::vm::{default_vm, TxOutcome, Vm, VmExecutionMode};
use era_harness::HarnessError;

fn addr(byte: u8) -> Address {
    Address::from_bytes(vec![byte; 20])
}

fn counter_interface() -> Interface {
    Interface {
        functions: vec![
            FunctionDef { name: "get".to_string(), inputs: vec![] },
            FunctionDef { name: "increment".to_string(), inputs: vec![ParamKind::Uint(256)] },
            FunctionDef {
                name: "incrementWithRevert".to_string(),
                inputs: vec![ParamKind::Uint(256), ParamKind::Bool],
            },
        ],
    }
}

fn boot_code() -> Vec<u8> {
    vec![0x0bu8; 32]
}

fn counter_vm() -> (Vm, Account, Address) {
    let mut storage = default_empty_storage(&Vec::new(), &Vec::new());
    let mut sender = random_rich_account(&mut storage, U256::from_u64(RICH_ACCOUNT_BALANCE));
    let deploy =
        build_deploy_tx(&mut sender, &vec![0xccu8; 32], None, Vec::new(), TxType::L2).unwrap();
    let target = Address::from_bytes(deploy.address.bytes.clone());
    let mut vm = default_vm(storage, boot_code(), boot_code()).unwrap();
    vm.push_transaction(deploy.tx);
    (vm, sender, target)
}

#[test]
fn call_tx_advances_nonce_even_for_reverting_call() {
    let (mut vm, mut sender, target) = counter_vm();
    let before = sender.nonce;
    let tx = build_call_tx(
        &mut sender,
        &counter_interface(),
        &target,
        "incrementWithRevert",
        &vec![Token::Uint(U256::from_u64(1)), Token::Bool(true)],
    )
    .unwrap();
    // The nonce is consumed at construction time, whatever the outcome.
    assert_eq!(tx.common, TxCommon::L2 { nonce: before });
    assert_eq!(sender.nonce, before + 1);
    // A reverted transaction is a normal, reported outcome, and the world
    // state the driver holds is unchanged by reporting it.
    let probe = StorageKey {
        account: Address::from_bytes(target.bytes.clone()),
        key: era_harness::types::H256::zero(),
    };
    let before_value = vm.storage.read_value(&probe);
    vm.push_transaction(tx);
    let round = vm.take_for_execution(VmExecutionMode::OneTx);
    assert_eq!(round.len(), 1);
    vm.record_outcomes(vec![TxOutcome::Revert { return_data: Vec::new() }]);
    assert_eq!(vm.results.len(), 1);
    assert_eq!(vm.storage.read_value(&probe).bytes, before_value.bytes);
}

#[test]
fn unknown_function_leaves_sender_unchanged() {
    let mut sender = Account { address: addr(0x66), nonce: 4 };
    let err = build_call_tx(&mut sender, &counter_interface(), &addr(0x10), "missing", &vec![])
        .unwrap_err();
    assert_eq!(err, HarnessError::ArtifactNotFound);
    assert_eq!(sender.nonce, 4);
    let err = build_call_tx(
        &mut sender,
        &counter_interface(),
        &addr(0x10),
        "increment",
        &vec![Token::Bool(false)],
    )
    .unwrap_err();
    assert_eq!(err, HarnessError::Encoding);
    assert_eq!(sender.nonce, 4);
}

fn counter_vm_with_sender(sender: &mut Account) -> (Vm, Address) {
    let storage = default_empty_storage(&Vec::new(), &Vec::new());
    let deploy =
        build_deploy_tx(sender, &vec![0xccu8; 32], None, Vec::new(), TxType::L2).unwrap();
    let target = Address::from_bytes(deploy.address.bytes.clone());
    let mut vm = default_vm(storage, boot_code(), boot_code()).unwrap();
    vm.push_transaction(deploy.tx);
    (vm, target)
}

#[test]
fn batch_and_single_rounds_hand_out_same_transactions_in_order() {
    // One deploy and three calls, pushed twice into two identical drivers.
    let build_round = |vm: &mut Vm, sender: &mut Account, target: &Address| {
        let interface = counter_interface();
        let get_tx = build_call_tx(sender, &interface, target, "get", &vec![]).unwrap();
        vm.push_transaction(get_tx);
        let inc_tx = build_call_tx(
            sender,
            &interface,
            target,
            "increment",
            &vec![Token::Uint(U256::from_u64(1))],
        )
        .unwrap();
        vm.push_transaction(inc_tx);
        let rev_tx = build_call_tx(
            sender,
            &interface,
            target,
            "incrementWithRevert",
            &vec![Token::Uint(U256::from_u64(1)), Token::Bool(true)],
        )
        .unwrap();
        vm.push_transaction(rev_tx);
    };

    let mut batch_sender = Account { address: addr(0x9a), nonce: 0 };
    let (mut batch_vm, batch_target) = counter_vm_with_sender(&mut batch_sender);
    build_round(&mut batch_vm, &mut batch_sender, &batch_target);
    let batch = batch_vm.take_for_execution(VmExecutionMode::Batch);
    assert_eq!(batch.len(), 4);
    assert_eq!(batch_vm.pending.len(), 0);

    let mut single_sender = Account { address: addr(0x9a), nonce: 0 };
    let (mut single_vm, single_target) = counter_vm_with_sender(&mut single_sender);
    build_round(&mut single_vm, &mut single_sender, &single_target);
    let mut singles = Vec::new();
    loop {
        let round = single_vm.take_for_execution(VmExecutionMode::OneTx);
        if round.is_empty() {
            break;
        }
        assert_eq!(round.len(), 1);
        singles.extend(round);
    }
    assert_eq!(singles.len(), 4);
    for (batch_tx, single_tx) in batch.iter().zip(singles.iter()) {
        assert_eq!(batch_tx.execute.calldata, single_tx.execute.calldata);
        assert_eq!(batch_tx.execute.contract_address.bytes, single_tx.execute.contract_address.bytes);
        assert_eq!(batch_tx.common, single_tx.common);
    }
}

#[test]
fn aggregate_outcomes_kept_in_submission_order() {
    let (mut vm, _, _) = counter_vm();
    let batch = vm.take_for_execution(VmExecutionMode::Batch);
    assert_eq!(batch.len(), 1);
    vm.record_outcomes(vec![
        TxOutcome::Success { return_data: vec![1] },
        TxOutcome::Revert { return_data: vec![2] },
        TxOutcome::Halt,
    ]);
    assert_eq!(vm.results.len(), 3);
    assert!(matches!(&vm.results[0], TxOutcome::Success { return_data } if return_data == &vec![1]));
    assert!(matches!(&vm.results[1], TxOutcome::Revert { return_data } if return_data == &vec![2]));
    assert!(matches!(&vm.results[2], TxOutcome::Halt));
}

#[test]
fn missing_factory_dependency_is_a_driver_error() {
    // A contract installed properly passes the consistency check; a code
    // hash written without its bytecode cannot arise through the library,
    // so probe with a target that has code installed and one that has none.
    let target = addr(0x3c);
    let contracts = vec![ContractToDeploy {
        bytecode: vec![0xeeu8; 32],
        address: Address::from_bytes(target.bytes.clone()),
        is_account: false,
    }];
    let storage = default_empty_storage(&Vec::new(), &contracts);
    let vm = default_vm(storage, boot_code(), boot_code()).unwrap();
    let mut sender = Account { address: addr(0x01), nonce: 0 };
    let interface = Interface { functions: vec![FunctionDef { name: "get".to_string(), inputs: vec![] }] };
    let good_tx = build_call_tx(&mut sender, &interface, &target, "get", &vec![]).unwrap();
    assert!(vm.check_factory_deps(&good_tx).is_ok());
    // An address with no code at all is the machine's business, not a
    // consistency error.
    let bare_tx = build_call_tx(&mut sender, &interface, &addr(0x3d), "get", &vec![]).unwrap();
    assert!(vm.check_factory_deps(&bare_tx).is_ok());
}

#[test]
fn dangling_code_hash_is_a_storage_consistency_error() {
    // Hand-assemble a world state whose code slot holds a hash that was
    // never registered: the driver must refuse the round, not silently
    // execute empty code.
    let target = addr(0x3e);
    let orphan_hash = era_harness::hash::hash_bytecode(&vec![0x99u8; 32]).unwrap();
    let mut storage = default_empty_storage(&Vec::new(), &Vec::new());
    storage.slots.push((
        StorageKey {
            account: era_harness::constants::account_code_storage_address(),
            key: era_harness::types::H256 {
                bytes: era_harness::hash::pad_address(&target),
            },
        },
        orphan_hash,
    ));
    let vm = default_vm(storage, boot_code(), boot_code()).unwrap();
    let mut sender = Account { address: addr(0x02), nonce: 0 };
    let interface =
        Interface { functions: vec![FunctionDef { name: "get".to_string(), inputs: vec![] }] };
    let tx = build_call_tx(&mut sender, &interface, &target, "get", &vec![]).unwrap();
    assert_eq!(vm.check_factory_deps(&tx).unwrap_err(), HarnessError::StorageConsistency);
}

#[test]
fn deploy_tx_targets_deployer_and_registers_bytecode() {
    let code = vec![0xabu8; 32];
    let mut sender = Account { address: addr(0x50), nonce: 0 };
    let ctor = vec![Token::Uint(U256::from_u64(0))];
    let deploy =
        build_deploy_tx(&mut sender, &code, Some(&ctor), Vec::new(), TxType::L2).unwrap();
    // The outer call goes to the canonical deployer...
    let mut deployer = vec![0u8; 18];
    deployer.extend_from_slice(&[0x80, 0x06]);
    assert_eq!(deploy.tx.execute.contract_address.bytes, deployer);
    // ...carries the bytecode as a factory dependency...
    let deps = deploy.tx.execute.factory_deps.as_ref().unwrap();
    assert_eq!(deps.len(), 1);
    assert_eq!(deps[0], code);
    // ...transfers no value, and consumed the sender's nonce.
    assert_eq!(deploy.tx.execute.value.bytes, vec![0u8; 32]);
    assert_eq!(sender.nonce, 1);
    // The call data is the create selector over (salt, hash, ctor args).
    let expected_params = [
        ethabi::Token::FixedBytes(vec![0u8; 32]),
        ethabi::Token::FixedBytes(deploy.bytecode_hash.bytes.clone()),
        ethabi::Token::Bytes(ethabi::encode(&[ethabi::Token::Uint(ethabi::Uint::from(0u64))])),
    ];
    let selector = ethabi::short_signature(
        "create",
        &[
            ethabi::ParamType::FixedBytes(32),
            ethabi::ParamType::FixedBytes(32),
            ethabi::ParamType::Bytes,
        ],
    );
    let mut expected = selector.to_vec();
    expected.extend(ethabi::encode(&expected_params));
    assert_eq!(deploy.tx.execute.calldata, expected);
}

#[test]
fn deploy_rejects_malformed_bytecode() {
    let mut sender = Account { address: addr(0x51), nonce: 2 };
    let err = build_deploy_tx(&mut sender, &vec![0u8; 33], None, Vec::new(), TxType::L2)
        .unwrap_err();
    assert_eq!(err, HarnessError::InvalidBytecodeShape);
    assert_eq!(sender.nonce, 2);
}
