use era_harness::abi::{encode_input, deployer_create_function, parse_param_kind, FunctionDef, Interface, ParamKind, Token};
use era_harness::types::U256;
use era_harness::HarnessError;

fn counter_interface() -> Interface {
    Interface {
        functions: vec![
            FunctionDef { name: "get".to_string(), inputs: vec![] },
            FunctionDef { name: "increment".to_string(), inputs: vec![ParamKind::Uint(256)] },
            FunctionDef {
                name: "incrementWithRevert".to_string(),
                inputs: vec![ParamKind::Uint(256), ParamKind::Bool],
            },
        ],
    }
}

fn ethabi_function(name: &str, kinds: Vec<ethabi::ParamType>) -> ethabi::Function {
    #[allow(deprecated)]
    ethabi::Function {
        name: name.to_string(),
        inputs: kinds
            .into_iter()
            .map(|kind| ethabi::Param { name: String::new(), kind, internal_type: None })
            .collect(),
        outputs: vec![],
        constant: None,
        state_mutability: ethabi::StateMutability::NonPayable,
    }
}

#[test]
fn get_call_data_matches_reference_encoder() {
    let interface = counter_interface();
    let function = interface.function("get").unwrap();
    let data = encode_input(function, &vec![]).unwrap();
    let expected = ethabi_function("get", vec![]).encode_input(&[]).unwrap();
    assert_eq!(data, expected);
    // The well-known selector of get().
    assert_eq!(&data[..4], &[0x6d, 0x4c, 0xe6, 0x3c]);
}

#[test]
fn increment_call_data_matches_reference_encoder() {
    let interface = counter_interface();
    let function = interface.function("increment").unwrap();
    let data = encode_input(function, &vec![Token::Uint(U256::from_u64(1))]).unwrap();
    let expected = ethabi_function("increment", vec![ethabi::ParamType::Uint(256)])
        .encode_input(&[ethabi::Token::Uint(ethabi::Uint::from(1u64))])
        .unwrap();
    assert_eq!(data, expected);
    let mut tail = vec![0u8; 32];
    tail[31] = 1;
    assert_eq!(&data[4..], &tail[..]);
}

#[test]
fn revert_helper_call_data_matches_reference_encoder() {
    let interface = counter_interface();
    let function = interface.function("incrementWithRevert").unwrap();
    let args = vec![Token::Uint(U256::from_u64(1)), Token::Bool(true)];
    let data = encode_input(function, &args).unwrap();
    let expected = ethabi_function(
        "incrementWithRevert",
        vec![ethabi::ParamType::Uint(256), ethabi::ParamType::Bool],
    )
    .encode_input(&[ethabi::Token::Uint(ethabi::Uint::from(1u64)), ethabi::Token::Bool(true)])
    .unwrap();
    assert_eq!(data, expected);
}

#[test]
fn missing_function_is_artifact_not_found() {
    let interface = counter_interface();
    assert_eq!(interface.function("missing").unwrap_err(), HarnessError::ArtifactNotFound);
}

#[test]
fn lookup_returns_first_function_of_that_name() {
    let interface = Interface {
        functions: vec![
            FunctionDef { name: "twin".to_string(), inputs: vec![] },
            FunctionDef { name: "twin".to_string(), inputs: vec![ParamKind::Bool] },
        ],
    };
    let f = interface.function("twin").unwrap();
    assert_eq!(f.inputs.len(), 0);
}

#[test]
fn arity_mismatch_is_encoding_error() {
    let interface = counter_interface();
    let function = interface.function("increment").unwrap();
    assert_eq!(encode_input(function, &vec![]).unwrap_err(), HarnessError::Encoding);
}

#[test]
fn kind_mismatch_is_encoding_error() {
    let interface = counter_interface();
    let function = interface.function("increment").unwrap();
    assert_eq!(
        encode_input(function, &vec![Token::Bool(true)]).unwrap_err(),
        HarnessError::Encoding
    );
}

#[test]
fn oversized_fixed_bytes_is_encoding_error() {
    let f = FunctionDef { name: "fixed".to_string(), inputs: vec![ParamKind::FixedBytes(4)] };
    assert!(encode_input(&f, &vec![Token::FixedBytes(vec![0u8; 4])]).is_ok());
    assert_eq!(
        encode_input(&f, &vec![Token::FixedBytes(vec![0u8; 5])]).unwrap_err(),
        HarnessError::Encoding
    );
}

#[test]
fn mixed_argument_kinds_match_reference_encoder() {
    let f = FunctionDef {
        name: "mixed".to_string(),
        inputs: vec![ParamKind::Uint(256), ParamKind::Bytes, ParamKind::Address],
    };
    let data = encode_input(
        &f,
        &vec![
            Token::Uint(U256::from_u64(9)),
            Token::Bytes(vec![1, 2, 3]),
            Token::Address(era_harness::types::Address::from_bytes(vec![0x11; 20])),
        ],
    )
    .unwrap();
    let expected = ethabi_function(
        "mixed",
        vec![ethabi::ParamType::Uint(256), ethabi::ParamType::Bytes, ethabi::ParamType::Address],
    )
    .encode_input(&[
        ethabi::Token::Uint(ethabi::Uint::from(9u64)),
        ethabi::Token::Bytes(vec![1, 2, 3]),
        ethabi::Token::Address(ethabi::Address::from_slice(&[0x11; 20])),
    ])
    .unwrap();
    assert_eq!(data, expected);
}

#[test]
fn parameter_type_strings_resolve_to_kinds() {
    assert_eq!(parse_param_kind("address").unwrap(), ParamKind::Address);
    assert_eq!(parse_param_kind("bool").unwrap(), ParamKind::Bool);
    assert_eq!(parse_param_kind("bytes").unwrap(), ParamKind::Bytes);
    assert_eq!(parse_param_kind("uint").unwrap(), ParamKind::Uint(256));
    assert_eq!(parse_param_kind("uint256").unwrap(), ParamKind::Uint(256));
    assert_eq!(parse_param_kind("uint8").unwrap(), ParamKind::Uint(8));
    assert_eq!(parse_param_kind("bytes32").unwrap(), ParamKind::FixedBytes(32));
    assert_eq!(parse_param_kind("bytes1").unwrap(), ParamKind::FixedBytes(1));
    assert!(parse_param_kind("uint512").is_err());
    assert!(parse_param_kind("bytes33").is_err());
    assert!(parse_param_kind("string").is_err());
    assert!(parse_param_kind("uintx").is_err());
    assert!(parse_param_kind("").is_err());
}

#[test]
fn deployer_create_entry_point_shape() {
    let create = deployer_create_function();
    assert_eq!(create.name, "create");
    assert_eq!(
        create.inputs,
        vec![ParamKind::FixedBytes(32), ParamKind::FixedBytes(32), ParamKind::Bytes]
    );
}
