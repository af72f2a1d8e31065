use etherscan_abi_downloader::abi::{canonical_type, AbiEvent, AbiFunction, AbiParam};
use etherscan_abi_downloader::signature::{
    assemble_signature, create_event_selector, create_event_signature, create_function_selector,
    create_function_signature, event_selector_from_digest, function_selector_from_digest,
};

fn simple(ty: &str) -> AbiParam {
    AbiParam { ty: ty.to_string(), components: Vec::new() }
}

fn compound(ty: &str, components: Vec<AbiParam>) -> AbiParam {
    AbiParam { ty: ty.to_string(), components }
}

fn function(name: &str, inputs: Vec<AbiParam>) -> AbiFunction {
    AbiFunction { name: name.to_string(), inputs }
}

fn event(name: &str, inputs: Vec<AbiParam>) -> AbiEvent {
    AbiEvent { name: name.to_string(), inputs }
}

fn is_selector(text: &str, bytes: usize) -> bool {
    text.len() == 2 + 2 * bytes
        && text.starts_with("0x")
        && text[2..].chars().all(|c| matches!(c, '0'..='9' | 'a'..='f'))
}

#[test]
fn transfer_has_the_known_selector() {
    let f = function("transfer", vec![simple("address"), simple("uint256")]);
    assert_eq!(create_function_signature(&f), "transfer(address,uint256)");
    assert_eq!(create_function_selector(&f), "0xa9059cbb");
}

#[test]
fn other_known_function_selectors() {
    let approve = function("approve", vec![simple("address"), simple("uint256")]);
    assert_eq!(create_function_selector(&approve), "0x095ea7b3");
    let balance_of = function("balanceOf", vec![simple("address")]);
    assert_eq!(create_function_selector(&balance_of), "0x70a08231");
    let total_supply = function("totalSupply", Vec::new());
    assert_eq!(create_function_signature(&total_supply), "totalSupply()");
    assert_eq!(create_function_selector(&total_supply), "0x18160ddd");
}

#[test]
fn transfer_event_has_the_known_topic() {
    let e = event("Transfer", vec![simple("address"), simple("address"), simple("uint256")]);
    assert_eq!(create_event_signature(&e), "Transfer(address,address,uint256)");
    assert_eq!(
        create_event_selector(&e),
        "0xddf252ad1be2c89b69c2b068fc378daa952ba7f163c4a11628f55a4df523b3ef"
    );
}

#[test]
fn a_function_and_an_event_of_one_signature_differ_in_width_only() {
    let inputs = || vec![simple("address"), simple("address"), simple("uint256")];
    let as_function = create_function_selector(&function("Transfer", inputs()));
    let as_event = create_event_selector(&event("Transfer", inputs()));
    assert_eq!(as_function.len(), 10);
    assert_eq!(as_event.len(), 66);
    assert_eq!(as_function, as_event[..10]);
}

#[test]
fn tuple_parameter_is_rendered_in_brackets() {
    let f = function("foo", vec![compound("tuple", vec![simple("uint256"), simple("address")])]);
    assert_eq!(create_function_signature(&f), "foo((uint256,address))");
}

#[test]
fn array_of_tuples_keeps_its_brackets() {
    let pair = || vec![simple("uint256"), simple("address")];
    assert_eq!(canonical_type(&compound("tuple[]", pair())), "(uint256,address)[]");
    assert_eq!(canonical_type(&compound("tuple[2][]", pair())), "(uint256,address)[2][]");
}

#[test]
fn nested_tuples_are_rendered_recursively() {
    let inner = compound("tuple[]", vec![simple("bytes32"), simple("bool")]);
    let outer = compound("tuple", vec![simple("uint256"), inner, simple("address")]);
    assert_eq!(canonical_type(&outer), "(uint256,(bytes32,bool)[],address)");
    let f = function("submit", vec![outer, simple("uint8")]);
    assert_eq!(create_function_signature(&f), "submit((uint256,(bytes32,bool)[],address),uint8)");
}

#[test]
fn tuple_of_one_component() {
    assert_eq!(canonical_type(&compound("tuple", vec![simple("uint256")])), "(uint256)");
}

#[test]
fn simple_type_is_its_declared_type() {
    assert_eq!(canonical_type(&simple("uint256")), "uint256");
    assert_eq!(canonical_type(&simple("bytes[2]")), "bytes[2]");
    assert_eq!(canonical_type(&simple("tuple")), "tuple");
}

#[test]
fn compound_type_without_the_word_tuple_has_no_suffix() {
    assert_eq!(canonical_type(&compound("struct[]", vec![simple("uint256")])), "(uint256)");
}

#[test]
fn signature_has_no_whitespace_and_keeps_the_order() {
    let e = event("Swap", vec![simple("uint256"), simple("address"), simple("uint256")]);
    assert_eq!(create_event_signature(&e), "Swap(uint256,address,uint256)");
}

#[test]
fn empty_name_is_kept() {
    let f = function("", vec![simple("uint256")]);
    assert_eq!(create_function_signature(&f), "(uint256)");
}

#[test]
fn signature_and_selector_are_deterministic() {
    let make = || function("transfer", vec![simple("address"), simple("uint256")]);
    assert_eq!(create_function_signature(&make()), create_function_signature(&make()));
    assert_eq!(create_function_selector(&make()), create_function_selector(&make()));
    let f = make();
    assert_eq!(create_function_selector(&f), create_function_selector(&f));
    let make_event = || event("Approval", vec![simple("address"), simple("address")]);
    assert_eq!(create_event_signature(&make_event()), create_event_signature(&make_event()));
    assert_eq!(create_event_selector(&make_event()), create_event_selector(&make_event()));
}

#[test]
fn selectors_have_the_shape_of_their_kind() {
    let names = ["a", "transfer", "", "ünïcode", "with space"];
    for name in names {
        let f = function(name, vec![simple("uint256"), compound("tuple[]", vec![simple("bool")])]);
        assert!(is_selector(&create_function_selector(&f), 4));
        let e = event(name, vec![simple("address")]);
        assert!(is_selector(&create_event_selector(&e), 32));
    }
}

#[test]
fn unresolved_parameter_takes_no_place() {
    let types = vec![Some("uint256".to_string()), None, Some("address".to_string())];
    assert_eq!(assemble_signature("foo", &types), "foo(uint256,address)");
    let types = vec![None, Some("uint256".to_string())];
    assert_eq!(assemble_signature("foo", &types), "foo(uint256)");
    let types = vec![Some("uint256".to_string()), None];
    assert_eq!(assemble_signature("foo", &types), "foo(uint256)");
    let types: Vec<Option<String>> = vec![None, None];
    assert_eq!(assemble_signature("foo", &types), "foo()");
}

#[test]
fn assembled_signature_of_resolved_types() {
    let types = vec![Some("address".to_string()), Some("uint256".to_string())];
    assert_eq!(assemble_signature("transfer", &types), "transfer(address,uint256)");
    assert_eq!(assemble_signature("f", &Vec::new()), "f()");
    assert_eq!(assemble_signature("f", &vec![Some(String::new())]), "f()");
    assert_eq!(assemble_signature("f", &vec![Some(String::new()), Some("a".to_string())]), "f(,a)");
}

#[test]
fn function_selector_is_the_first_four_bytes_of_the_digest() {
    let mut digest = [0u8; 32];
    for (i, byte) in digest.iter_mut().enumerate() {
        *byte = (i as u8) * 17 + 10;
    }
    assert_eq!(function_selector_from_digest(&digest), "0x0a1b2c3d");
    assert_eq!(function_selector_from_digest(&[0u8; 32]), "0x00000000");
    assert_eq!(function_selector_from_digest(&[255u8; 32]), "0xffffffff");
}

#[test]
fn event_selector_is_the_whole_digest() {
    let mut digest = [0u8; 32];
    for (i, byte) in digest.iter_mut().enumerate() {
        *byte = i as u8;
    }
    assert_eq!(
        event_selector_from_digest(&digest),
        "0x000102030405060708090a0b0c0d0e0f101112131415161718191a1b1c1d1e1f"
    );
    let mut high = [0u8; 32];
    high[0] = 0xab;
    high[31] = 0xf0;
    assert_eq!(
        event_selector_from_digest(&high),
        "0xab000000000000000000000000000000000000000000000000000000000000f0"
    );
}

#[test]
fn signature_of_a_name_that_is_not_ascii_is_hashed_as_utf8() {
    // keccak256 of the empty signature "()" differs from that of "é()": the
    // bytes, not the characters, are hashed.
    let plain = create_function_selector(&function("", Vec::new()));
    let accented = create_function_selector(&function("é", Vec::new()));
    assert_eq!(plain, "0x861731d5");
    assert_ne!(plain, accented);
}
