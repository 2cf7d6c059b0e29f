use kakarot_rpc::primitives::Address;
use kakarot_rpc::test_utils::fixtures::{
    contract_empty, counter, erc20, plain_opcodes, ConstructorArg,
};

#[test]
fn counter_takes_no_arguments() {
    let deployment = counter();
    assert_eq!(deployment.name.as_deref(), Some("Counter"));
    assert!(deployment.constructor_args.is_empty());
}

#[test]
fn empty_contract_has_no_name() {
    let deployment = contract_empty();
    assert_eq!(deployment.name, None);
    assert!(deployment.constructor_args.is_empty());
}

#[test]
fn erc20_is_constructed_with_name_symbol_and_decimals() {
    let deployment = erc20();
    assert_eq!(deployment.name.as_deref(), Some("ERC20"));
    assert_eq!(deployment.constructor_args.len(), 3);
    assert!(matches!(&deployment.constructor_args[0], ConstructorArg::Text(s) if s == "Test"));
    assert!(matches!(&deployment.constructor_args[1], ConstructorArg::Text(s) if s == "TT"));
    let mut eighteen = [0u8; 32];
    eighteen[31] = 18;
    assert!(matches!(
        &deployment.constructor_args[2],
        ConstructorArg::Uint { value, bits: 8 } if *value == eighteen
    ));
}

#[test]
fn plain_opcodes_is_constructed_with_the_counter_address() {
    let mut word = [0u8; 32];
    for (i, b) in word.iter_mut().enumerate() {
        *b = 0x40 + i as u8;
    }
    let deployment = plain_opcodes(&word);
    assert_eq!(deployment.name.as_deref(), Some("PlainOpcodes"));
    assert_eq!(deployment.constructor_args.len(), 1);
    let mut expected = [0u8; 20];
    expected.copy_from_slice(&word[12..]);
    assert!(matches!(
        &deployment.constructor_args[0],
        ConstructorArg::Address(a) if *a == Address::new(expected)
    ));
}
