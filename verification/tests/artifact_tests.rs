use era_harness::abi::Interface;
use era_harness::artifact::{combined_key, decode_bytecode_hex, CompilationOutput, ZKSArtifact};
use era_harness::HarnessError;

#[test]
fn bytecode_field_decodes_pairwise() {
    let decoded = decode_bytecode_hex(&b"0x0102fF".to_vec()).unwrap();
    assert_eq!(decoded, vec![0x01, 0x02, 0xff]);
    // Matches the reference decoder.
    assert_eq!(decoded, hex::decode("0102fF").unwrap());
    assert_eq!(decode_bytecode_hex(&b"0x".to_vec()).unwrap(), Vec::<u8>::new());
}

#[test]
fn bytecode_field_without_marker_is_rejected() {
    assert_eq!(
        decode_bytecode_hex(&b"0102ff".to_vec()).unwrap_err(),
        HarnessError::MissingHexPrefix
    );
    assert_eq!(decode_bytecode_hex(&b"0".to_vec()).unwrap_err(), HarnessError::MissingHexPrefix);
}

#[test]
fn bytecode_field_with_bad_digits_is_rejected() {
    assert_eq!(decode_bytecode_hex(&b"0x0g".to_vec()).unwrap_err(), HarnessError::InvalidHex);
    // An odd number of digits cannot form byte pairs.
    assert_eq!(decode_bytecode_hex(&b"0x012".to_vec()).unwrap_err(), HarnessError::InvalidHex);
}

#[test]
fn combined_output_resolved_by_path_and_name() {
    let output = CompilationOutput {
        contracts: vec![
            (
                "src/Counter.sol:Counter".to_string(),
                ZKSArtifact { abi: Some(Interface { functions: vec![] }), bin: Some(vec![1]) },
            ),
            (
                "src/Other.sol:Other".to_string(),
                ZKSArtifact { abi: None, bin: Some(vec![2]) },
            ),
        ],
    };
    let artifact = output.find_contract("src/Counter.sol", "Counter").unwrap();
    assert_eq!(artifact.bin.as_ref().unwrap(), &vec![1]);
    let other = output.find_contract("src/Other.sol", "Other").unwrap();
    assert_eq!(other.bin.as_ref().unwrap(), &vec![2]);
    assert_eq!(
        output.find_contract("src/Counter.sol", "Missing").unwrap_err(),
        HarnessError::ArtifactNotFound
    );
}

#[test]
fn combined_key_joins_with_colon() {
    assert_eq!(combined_key("src/Counter.sol", "Counter"), "src/Counter.sol:Counter");
}
