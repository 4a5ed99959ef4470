use precompile_utils::{
    check_function_modifier, error, read_selector, revert, succeed, CallHandle, EvmDataReader,
    ExitError, FunctionModifier, LogsBuilder, PrecompileCallContext, PrecompileFailure, H160,
    H256, U256,
};

fn ctx(is_static: bool, value: u128) -> PrecompileCallContext {
    PrecompileCallContext {
        address: H160([1u8; 20]),
        is_static,
        apparent_value: U256::from_u128(value),
    }
}

fn static_revert() -> PrecompileFailure {
    revert(b"can't call non-static function in static context")
}

fn payable_revert() -> PrecompileFailure {
    revert(b"function is not payable")
}

#[test]
fn static_context_refuses_non_payable() {
    assert_eq!(check_function_modifier(&ctx(true, 0), FunctionModifier::NonPayable), Err(static_revert()));
    assert_eq!(check_function_modifier(&ctx(true, 0), FunctionModifier::Payable), Err(static_revert()));
}

#[test]
fn static_context_admits_view() {
    assert_eq!(check_function_modifier(&ctx(true, 0), FunctionModifier::View), Ok(()));
}

#[test]
fn value_to_non_payable_reverts() {
    assert_eq!(check_function_modifier(&ctx(false, 5), FunctionModifier::NonPayable), Err(payable_revert()));
    assert_eq!(check_function_modifier(&ctx(false, 5), FunctionModifier::View), Err(payable_revert()));
}

#[test]
fn value_to_payable_succeeds() {
    assert_eq!(check_function_modifier(&ctx(false, 5), FunctionModifier::Payable), Ok(()));
}

#[test]
fn no_value_non_payable_succeeds() {
    assert_eq!(check_function_modifier(&ctx(false, 0), FunctionModifier::NonPayable), Ok(()));
}

#[test]
fn static_rule_comes_first() {
    assert_eq!(check_function_modifier(&ctx(true, 5), FunctionModifier::NonPayable), Err(static_revert()));
}

#[test]
fn value_in_high_half_counts() {
    let c = PrecompileCallContext {
        address: H160([1u8; 20]),
        is_static: false,
        apparent_value: U256 { high: 1, low: 0 },
    };
    assert_eq!(check_function_modifier(&c, FunctionModifier::NonPayable), Err(payable_revert()));
    assert!(!c.apparent_value.is_zero());
    assert!(U256::from_u128(0).is_zero());
}

#[test]
fn handle_checks_its_context() {
    let h = CallHandle::new(ctx(true, 0), vec![], 10);
    assert_eq!(h.check_function_modifier(FunctionModifier::View), Ok(()));
    assert_eq!(h.check_function_modifier(FunctionModifier::NonPayable), Err(static_revert()));
}

#[derive(Clone, Copy, Debug, PartialEq, Eq)]
enum Method {
    Transfer,
    BalanceOf,
}

const METHODS: [(u32, Method); 2] = [(0xa9059cbb, Method::Transfer), (0x70a08231, Method::BalanceOf)];

#[test]
fn selector_too_short_reverts() {
    assert_eq!(
        read_selector(&[0xa9, 0x05, 0x9c], &METHODS),
        Err(revert(b"tried to parse selector out of bounds"))
    );
}

#[test]
fn selector_unknown_reverts() {
    assert_eq!(read_selector(&[1, 2, 3, 4], &METHODS), Err(revert(b"unknown selector")));
}

#[test]
fn selector_known_method_and_reader_at_offset_four() {
    let input = vec![0x70, 0xa0, 0x82, 0x31, 0xde, 0xad];
    assert_eq!(read_selector(&input, &METHODS), Ok(Method::BalanceOf));
    let h = CallHandle::new(ctx(false, 0), input.clone(), 10);
    assert_eq!(h.read_selector(&METHODS), Ok(Method::BalanceOf));
    let reader = h.read_input().unwrap();
    assert_eq!(reader.cursor, 4);
    assert_eq!(reader.input, input);
    assert_eq!(reader.remaining(), vec![0xde, 0xad]);
}

#[test]
fn selector_first_entry_wins() {
    let table = [(0x01020304u32, 1u8), (0x01020304u32, 2u8)];
    assert_eq!(read_selector(&[1, 2, 3, 4, 5], &table), Ok(1));
}

#[test]
fn read_input_too_short_reverts() {
    assert_eq!(EvmDataReader::new_skip_selector(&[1, 2, 3]), Err(revert(b"input is too short")));
    let h = CallHandle::new(ctx(false, 0), vec![1], 10);
    assert_eq!(h.read_input(), Err(revert(b"input is too short")));
}

#[test]
fn log2_keeps_topics_in_order_and_data() {
    let a = H256([0xaa; 32]);
    let b = H256([0xbb; 32]);
    let log = LogsBuilder::new(H160([3u8; 20])).log2(a, b, vec![1, 2, 3]);
    assert_eq!(log.address, H160([3u8; 20]));
    assert_eq!(log.topics, vec![a, b]);
    assert_eq!(log.data, vec![1, 2, 3]);
}

#[test]
fn log_builders_fix_topic_count() {
    let t = H256([1; 32]);
    let b = LogsBuilder::new(H160([3u8; 20]));
    assert_eq!(b.log0(vec![]).topics.len(), 0);
    assert_eq!(b.log1(t, vec![]).topics.len(), 1);
    assert_eq!(b.log3(t, t, t, vec![]).topics.len(), 3);
    let u = H256([2; 32]);
    assert_eq!(b.log4(t, u, t, u, vec![7]).topics, vec![t, u, t, u]);
}

#[test]
fn succeed_twice_gives_equal_outcomes() {
    let a = succeed(&[1, 2, 3]);
    let b = succeed(&[1, 2, 3]);
    assert_eq!(a, b);
    assert_eq!(a.output, vec![1, 2, 3]);
}

#[test]
fn revert_and_error_carry_their_message() {
    assert_eq!(revert(b"no"), PrecompileFailure::Revert { output: b"no".to_vec() });
    assert_eq!(
        error("bad"),
        PrecompileFailure::Error { exit_status: ExitError::Other("bad".to_string()) }
    );
}
