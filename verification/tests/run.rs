use evmbin::args::ResolvedCallParameters;
use evmbin::harness::{
    Action, CallDescriptor, ExecutionOutcome, Harness, Stage, GAS_LIMIT, ITERATIONS,
};
use evmbin::numeric::{Address, U256};

fn params(expected: &str) -> ResolvedCallParameters {
    ResolvedCallParameters {
        sender: Address::zero(),
        recipient: Address::zero(),
        gas_limit: U256::from_u64(1),
        gas_price: U256::zero(),
        code: vec![0x60, 0x00],
        input_data: Some(vec![6]),
        expected_output: expected.to_string(),
    }
}

fn outcome(return_data: Vec<u8>, gas_left: u64) -> ExecutionOutcome {
    ExecutionOutcome { return_data, gas_left: U256::from_u64(gas_left) }
}

fn descriptor() -> CallDescriptor {
    CallDescriptor { gas: U256::from_u64(1_000_000), code: vec![0x60, 0x00], data: Some(vec![6]) }
}

#[test]
fn a_run_starts_with_one_execution_at_the_fixed_gas() {
    let (harness, first) = Harness::new(params("dead"));
    assert_eq!(GAS_LIMIT, 1_000_000);
    assert_eq!(ITERATIONS, 100);
    assert_eq!(harness.stage, Stage::Pending);
    assert_eq!(harness.expected, "dead");
    assert_eq!(first, descriptor());
    assert_eq!(harness.descriptor(), descriptor());
}

#[test]
fn matching_output_passes_and_reports_gas_used() {
    let (mut harness, _) = Harness::new(params("deadbeef"));
    let action = harness.step(&outcome(vec![0xde, 0xad, 0xbe, 0xef], 999_990), 5);
    assert_eq!(
        action,
        Action::Passed {
            return_data: "deadbeef".to_string(),
            gas_used: U256::from_u64(10),
            next: descriptor(),
        }
    );
    assert_eq!(harness.stage, Stage::Benchmarking { done: 0, total_nanos: 0 });
}

#[test]
fn empty_output_matches_empty_text() {
    let (mut harness, _) = Harness::new(params(""));
    let action = harness.step(&outcome(vec![], 1_000_000), 0);
    assert_eq!(
        action,
        Action::Passed { return_data: String::new(), gas_used: U256::zero(), next: descriptor() }
    );
}

#[test]
fn the_expected_text_is_compared_as_written() {
    let (mut harness, _) = Harness::new(params("DEADBEEF"));
    let action = harness.step(&outcome(vec![0xde, 0xad, 0xbe, 0xef], 0), 0);
    assert_eq!(
        action,
        Action::Mismatch { actual: "deadbeef".to_string(), expected: "DEADBEEF".to_string() }
    );
}

#[test]
fn a_mismatch_ends_the_run() {
    let (mut harness, _) = Harness::new(params("00"));
    let action = harness.step(&outcome(vec![0x0a, 0x01], 3), 7);
    assert_eq!(
        action,
        Action::Mismatch { actual: "0a01".to_string(), expected: "00".to_string() }
    );
    assert_eq!(harness.stage, Stage::Failed);
    assert_eq!(harness.step(&outcome(vec![0], 3), 7), Action::Halt);
    assert_eq!(harness.stage, Stage::Failed);
}

#[test]
fn the_benchmark_takes_a_hundred_samples() {
    let (mut harness, _) = Harness::new(params("01"));
    let first = harness.step(&outcome(vec![1], 0), 1_000_000);
    assert!(matches!(first, Action::Passed { .. }));
    let mut executions = 1;
    let mut sample: u128 = 0;
    loop {
        sample += 1;
        match harness.step(&outcome(vec![1], 0), sample) {
            Action::Execute(next) => {
                assert_eq!(next, descriptor());
                executions += 1;
            }
            Action::Done { average_nanos } => {
                // 1 + 2 + ... + 100 = 5050
                assert_eq!(average_nanos, 50);
                break;
            }
            other => panic!("unexpected action {:?}", other),
        }
    }
    assert_eq!(executions, 100);
    assert_eq!(sample, 100);
    assert_eq!(harness.stage, Stage::Finished);
    assert_eq!(harness.step(&outcome(vec![1], 0), 1), Action::Halt);
}

#[test]
fn the_average_is_rounded_down() {
    let mut harness = Harness {
        code: vec![],
        data: None,
        expected: String::new(),
        stage: Stage::Benchmarking { done: 99, total_nanos: 1000 },
    };
    assert_eq!(harness.step(&outcome(vec![], 0), 299), Action::Done { average_nanos: 12 });
    let mut harness = Harness {
        code: vec![],
        data: None,
        expected: String::new(),
        stage: Stage::Benchmarking { done: 98, total_nanos: 1000 },
    };
    assert_eq!(
        harness.step(&outcome(vec![], 0), 299),
        Action::Execute(CallDescriptor { gas: U256::from_u64(1_000_000), code: vec![], data: None })
    );
    assert_eq!(harness.stage, Stage::Benchmarking { done: 99, total_nanos: 1299 });
}

#[test]
fn the_longest_samples_do_not_overflow() {
    let longest: u128 = 18_446_744_073_709_551_615_999_999_999;
    let (mut harness, _) = Harness::new(params(""));
    harness.step(&outcome(vec![], 0), 0);
    for _ in 0..99 {
        assert!(matches!(harness.step(&outcome(vec![], 0), longest), Action::Execute(_)));
    }
    assert_eq!(
        harness.step(&outcome(vec![], 0), longest),
        Action::Done { average_nanos: longest }
    );
}

#[test]
fn decoding_then_encoding_gives_lower_case() {
    let mut args = evmbin::args::Args {
        flag_code_file: None,
        flag_only: None,
        flag_from: None,
        flag_to: None,
        flag_code: Some("00FfaA19".to_string()),
        flag_gas: None,
        flag_gas_price: None,
        flag_input: None,
        flag_expected: None,
    };
    let bytes = args.code().unwrap().unwrap();
    let (mut harness, _) = Harness::new(params("00ffaa19"));
    assert!(matches!(harness.step(&outcome(bytes, 0), 0), Action::Passed { .. }));
    args.flag_code = Some("0 0 f F".to_string());
    let bytes = args.code().unwrap().unwrap();
    let (mut harness, _) = Harness::new(params("00ff"));
    assert!(matches!(harness.step(&outcome(bytes, 0), 0), Action::Passed { .. }));
}
