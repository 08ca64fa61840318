//! Transaction construction: the deployment path through the canonical
//! deployer contract, and the call path against a resolved interface.

use vstd::prelude::*;

use crate::abi::{
    deployer_create_function, encode_input, encode_of, encode_tokens, find_function, selector_of,
    token_models, tokens_match, Interface, ParamKind, Token, TokenModel,
};
use crate::account::{Account, Execute, Transaction, TxCommon, TxType};
use crate::constants::contract_deployer_bytes;
use crate::hash::{
    bytecode_hash_of, create_address_of, deployed_address_create, hash_bytecode,
    valid_bytecode_shape,
};
use crate::types::{copy_bytes, make_zeros, zeros, Address, H256, U256};
use crate::HarnessError;

verus! {

/// A deployment transaction bundled with its precomputed resulting address
/// and bytecode hash: the address must be known before the transaction
/// executes, so that follow-up calls can be built against it.
#[derive(Debug)]
pub struct DeployContractsTx {
    pub tx: Transaction,
    pub bytecode_hash: H256,
    pub address: Address,
}

/// The views of a list of factory-dependency bytecodes.
pub open spec fn bytes_views(s: Seq<Vec<u8>>) -> Seq<Seq<u8>> {
    s.map_values(|v: Vec<u8>| v@)
}

/// The three arguments handed to the deployer's `create` entry point: the
/// zero salt, the bytecode hash, and the encoded constructor call data.
pub open spec fn deploy_token_models(code: Seq<u8>, ctor: Seq<u8>) -> Seq<TokenModel> {
    seq![
        TokenModel::FixedBytes(zeros(32)),
        TokenModel::FixedBytes(bytecode_hash_of(code)),
        TokenModel::Bytes(ctor),
    ]
}

/// The call data of a deployment: the `create` selector followed by the
/// encoded salt, bytecode hash and constructor data.
pub open spec fn deploy_calldata_of(code: Seq<u8>, ctor: Seq<u8>) -> Seq<u8> {
    selector_of(
        "create"@,
        seq![ParamKind::FixedBytes(32), ParamKind::FixedBytes(32), ParamKind::Bytes],
    ) + encode_of(deploy_token_models(code, ctor))
}

/// Builds a deployment transaction: encodes a call to the canonical
/// deployer's `create` entry point with a zero salt, the bytecode's hash
/// and the encoded constructor arguments, appends the bytecode to the
/// transaction's factory dependencies, wraps it as a layer-1 or layer-2
/// envelope, and precomputes the deterministic address the deployment
/// lands at — from the sender and the nonce the transaction uses (zero by
/// convention for layer-1). Fails exactly when the bytecode cannot be
/// hashed; the sender's nonce advances only for a layer-2 envelope.
pub fn build_deploy_tx(
    sender: &mut Account,
    code: &Vec<u8>,
    calldata: Option<&Vec<Token>>,
    factory_deps: Vec<Vec<u8>>,
    tx_type: TxType,
) -> (r: Result<DeployContractsTx, HarnessError>)
    requires
        old(sender).wf(),
        old(sender).nonce < u32::MAX,
        calldata matches Some(args) ==> forall|i: int|
            0 <= i < args@.len() ==> (#[trigger] args@[i]).wf(),
    ensures
        r is Ok <==> valid_bytecode_shape(code@),
        r matches Err(e) ==> e == HarnessError::InvalidBytecodeShape && *final(sender) == *old(
            sender,
        ),
        final(sender).address == old(sender).address,
        r matches Ok(d) ==> {
            &&& d.bytecode_hash@ == bytecode_hash_of(code@)
            &&& d.tx.execute.contract_address@ == contract_deployer_bytes()
            &&& (calldata matches Some(args) ==> d.tx.execute.calldata@ == deploy_calldata_of(
                code@,
                encode_of(token_models(args@)),
            ))
            &&& (calldata is None ==> d.tx.execute.calldata@ == deploy_calldata_of(
                code@,
                Seq::<u8>::empty(),
            ))
            &&& (d.tx.execute.factory_deps matches Some(deps) && bytes_views(deps@) == bytes_views(
                factory_deps@,
            ).push(code@))
            &&& d.tx.execute.value@ == zeros(32)
            &&& d.address.wf()
            &&& (tx_type == TxType::L2 ==> {
                &&& d.tx.common == (TxCommon::L2 { nonce: old(sender).nonce })
                &&& final(sender).nonce == old(sender).nonce + 1
                &&& d.address@ == create_address_of(old(sender).address@, old(sender).nonce as u64)
            })
            &&& (tx_type matches TxType::L1 { serial_id } ==> {
                &&& d.tx.common == (TxCommon::L1 { serial_id })
                &&& final(sender).nonce == old(sender).nonce
                &&& d.address@ == create_address_of(old(sender).address@, 0)
            })
        },
{
    let hash = match hash_bytecode(code) {
        Ok(h) => h,
        Err(e) => {
            return Err(e);
        },
    };
    let create_fn = deployer_create_function();
    let ctor_encoded: Vec<u8> = match calldata {
        Some(args) => encode_tokens(args),
        None => Vec::new(),
    };
    let ghost ctor = ctor_encoded@;
    let mut params: Vec<Token> = Vec::new();
    params.push(Token::FixedBytes(make_zeros(32)));
    params.push(Token::FixedBytes(copy_bytes(&hash.bytes)));
    params.push(Token::Bytes(ctor_encoded));
    proof {
        assert(token_models(params@) =~= deploy_token_models(code@, ctor));
        assert(tokens_match(token_models(params@), create_fn.inputs@));
    }
    let calldata_bytes = match encode_input(&create_fn, &params) {
        Ok(d) => d,
        Err(_) => vstd::pervasive::unreached(),
    };
    let mut deps = factory_deps;
    deps.push(copy_bytes(code));
    proof {
        assert(bytes_views(deps@) =~= bytes_views(factory_deps@).push(code@));
    }
    let execute = Execute {
        contract_address: crate::constants::contract_deployer_address(),
        calldata: calldata_bytes,
        factory_deps: Some(deps),
        value: U256::zero(),
    };
    let (tx, nonce_used): (Transaction, u32) = match tx_type {
        TxType::L2 => {
            let nonce = sender.nonce;
            (sender.get_l2_tx_for_execute(execute), nonce)
        },
        TxType::L1 { serial_id } => {
            // A layer-1 deployment derives its address from nonce zero by
            // convention.
            (sender.get_l1_tx(execute, serial_id), 0u32)
        },
    };
    let address = deployed_address_create(&sender.address, nonce_used as u64);
    Ok(DeployContractsTx { tx, bytecode_hash: hash, address })
}

/// Builds a call transaction: resolves the function by name in the target
/// contract's interface, encodes the arguments against its declared
/// parameters, wraps the call as a zero-value payload with no factory
/// dependencies — a call never introduces new code — and signs it as a
/// layer-2 transaction with the sender's current nonce, advancing that
/// nonce by one. Fails with an artifact-not-found condition exactly when
/// the interface has no function of that name, and with an encoding
/// condition exactly when the arguments do not fit its parameters; the
/// sender is unchanged on failure.
pub fn build_call_tx(
    sender: &mut Account,
    contract: &Interface,
    contract_address: &Address,
    function_name: &str,
    function_args: &Vec<Token>,
) -> (r: Result<Transaction, HarnessError>)
    requires
        old(sender).wf(),
        old(sender).nonce < u32::MAX,
        contract_address.wf(),
        forall|i: int| 0 <= i < function_args@.len() ==> (#[trigger] function_args@[i]).wf(),
    ensures
        r is Ok <==> (find_function(contract.functions@, function_name@) matches Some(f)
            && tokens_match(token_models(function_args@), f.inputs@)),
        final(sender).address == old(sender).address,
        r matches Ok(tx) ==> {
            &&& (find_function(contract.functions@, function_name@) matches Some(f)
                && tx.execute.calldata@ == selector_of(f.name@, f.inputs@) + encode_of(
                token_models(function_args@),
            ))
            &&& tx.execute.contract_address@ == contract_address@
            &&& tx.execute.factory_deps is None
            &&& tx.execute.value@ == zeros(32)
            &&& tx.common == (TxCommon::L2 { nonce: old(sender).nonce })
            &&& final(sender).nonce == old(sender).nonce + 1
        },
        r is Err ==> *final(sender) == *old(sender),
        r matches Err(e) ==> (if find_function(contract.functions@, function_name@) is None {
            e == HarnessError::ArtifactNotFound
        } else {
            e == HarnessError::Encoding
        }),
{
    let function = match contract.function(function_name) {
        Ok(f) => f,
        Err(e) => {
            return Err(e);
        },
    };
    let calldata = match encode_input(function, function_args) {
        Ok(d) => d,
        Err(e) => {
            return Err(e);
        },
    };
    let execute = Execute {
        contract_address: contract_address.dup(),
        calldata,
        factory_deps: None,
        value: U256::zero(),
    };
    Ok(sender.get_l2_tx_for_execute(execute))
}

} // verus!
