use move_unit_test::address::{Address, AddressParseError};
use move_unit_test::shared::{
    format_comma, format_delim, shorter_path, CompilationEnv, Flags, Identifier, Loc, Name, TName,
    TestingAttributes,
};

#[test]
fn parse_short_address_pads_in_front() {
    let a = Address::parse_str("0x1").unwrap();
    let mut expected = [0u8; 16];
    expected[15] = 1;
    assert_eq!(a.to_u8(), expected);
}

#[test]
fn parse_full_address() {
    let a = Address::parse_str("0x000102030405060708090a0B0c0D0e0F").unwrap();
    let expected: [u8; 16] = [0, 1, 2, 3, 4, 5, 6, 7, 8, 9, 10, 11, 12, 13, 14, 15];
    assert_eq!(a, Address::new(expected));
}

#[test]
fn parse_odd_digits() {
    let a = Address::parse_str("0xabc").unwrap();
    let mut expected = [0u8; 16];
    expected[14] = 0x0a;
    expected[15] = 0xbc;
    assert_eq!(a.to_u8(), expected);
}

#[test]
fn parse_rejects_non_hex() {
    match Address::parse_str("0xzz") {
        Err(AddressParseError::InvalidHex { hex, .. }) => assert_eq!(hex, "zz"),
        other => panic!("unexpected {:?}", other),
    }
}

#[test]
fn parse_rejects_too_long() {
    match Address::parse_str("0x0102030405060708090a0b0c0d0e0f1011") {
        Err(AddressParseError::TooLong { len }) => assert_eq!(len, 17),
        other => panic!("unexpected {:?}", other),
    }
}

#[test]
fn from_bytes_checks_length() {
    assert!(matches!(Address::from_bytes(&[1, 2]), Err(AddressParseError::InvalidLength { len: 2 })));
    assert_eq!(Address::from_bytes(&[7u8; 16]).unwrap().to_u8(), [7u8; 16]);
}

#[test]
fn flags() {
    assert!(!Flags::empty().is_testing());
    assert!(Flags::testing().is_testing());
}

#[test]
fn attributes_resolve_and_name() {
    assert_eq!(TestingAttributes::resolve("test"), Some(TestingAttributes::Test));
    assert_eq!(TestingAttributes::resolve("test_only"), Some(TestingAttributes::TestOnly));
    assert_eq!(TestingAttributes::resolve("expected_failure"), Some(TestingAttributes::ExpectedFailure));
    assert_eq!(TestingAttributes::resolve("tests"), None);
    assert_eq!(TestingAttributes::ExpectedFailure.name(), "expected_failure");
    assert_eq!(TestingAttributes::TestOnly.name(), "test_only");
    assert_eq!(TestingAttributes::Test.name(), "test");
}

#[test]
fn compilation_env_errors() {
    let mut env = CompilationEnv::new(Flags::testing());
    assert!(!env.has_errors());
    assert!(env.check_errors().is_ok());
    let loc = Loc { file: "a.move".to_string(), start: 0, end: 3 };
    env.add_error(vec![(loc.clone(), "bad".to_string())]);
    env.add_errors(vec![vec![(loc, "worse".to_string())]]);
    assert_eq!(env.count_errors(), 2);
    assert!(env.flags().is_testing());
    let errs = env.check_errors().unwrap_err();
    assert_eq!(errs.len(), 2);
    assert_eq!(errs[1][0].1, "worse");
    assert_eq!(env.count_errors(), 0);
}

#[test]
fn format_lists() {
    let items = vec!["a".to_string(), "b".to_string(), "c".to_string()];
    assert_eq!(format_comma(&items), "a, b, c");
    assert_eq!(format_delim(&items, "::"), "a::b::c");
    assert_eq!(format_comma(&vec![]), "");
}

#[test]
fn short_address_text() {
    let mut b = [0u8; 16];
    b[14] = 0x0a;
    b[15] = 0xbc;
    assert_eq!(Address::new(b).short_str(), "0xABC");
    assert_eq!(Address::new([0u8; 16]).short_str(), "0x0");
    assert_eq!(Address::new([0xffu8; 16]).short_str(), format!("0x{}", "F".repeat(32)));
}

#[test]
fn module_id_text() {
    let mut b = [0u8; 16];
    b[15] = 1;
    let id = move_unit_test::plan::ModuleId { address: Address::new(b), name: "coin".to_string() };
    assert_eq!(move_unit_test::plan::format_module_id(&id), "0x1::coin");
}

#[test]
fn shorter_path_keeps_shorter_then_earlier() {
    assert_eq!(shorter_path::<&str>(None, None), None);
    assert_eq!(shorter_path(None, Some((2, "b"))), Some((2, "b")));
    assert_eq!(shorter_path(Some((2, "a")), None), Some((2, "a")));
    assert_eq!(shorter_path(Some((3, "a")), Some((2, "b"))), Some((2, "b")));
    assert_eq!(shorter_path(Some((2, "a")), Some((2, "b"))), Some((2, "a")));
}

#[test]
fn names_come_apart_and_back() {
    let loc = Loc { file: "f.move".to_string(), start: 1, end: 4 };
    let n = Name::add_loc(loc, "abc".to_string());
    assert_eq!(n.value(), "abc");
    assert_eq!(n.loc().end, 4);
    let (l, k) = n.borrow();
    assert_eq!((l.start, k.as_str()), (1, "abc"));
    let (l, k) = n.drop_loc();
    assert_eq!((l.file.as_str(), k.as_str()), ("f.move", "abc"));
}
