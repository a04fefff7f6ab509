use zk_calculator::calculator::{CircuitRun, Operator, ZkCalculator};
use zk_calculator::errors::CircuitError;
use zk_calculator::field::FieldValue;
use zk_calculator::synthesis::{check, synthesize};

fn run(line: &str) -> CircuitRun {
    let mut calculator = ZkCalculator::new();
    calculator.parse(line.to_string()).expect("parse failed");
    calculator.run_circuit().expect("circuit failed")
}

fn fe(n: u64) -> FieldValue {
    FieldValue::from_u64(n)
}

#[test]
fn add_correct_instance_verifies() {
    let r = run("2 + 3");
    assert_eq!(r.result, fe(5));
    assert!(check(&r.trace, &vec![fe(5)]));
    assert!(r.verify(&vec![fe(5)]).is_ok());
}

#[test]
fn add_tampered_instance_fails() {
    let r = run("2 + 3");
    assert!(!check(&r.trace, &vec![fe(6)]));
    assert_eq!(r.verify(&vec![fe(6)]), Err(CircuitError::VerifierError));
}

#[test]
fn sub_correct_instance_verifies() {
    let r = run("5 - 3");
    assert_eq!(r.result, fe(2));
    assert!(check(&r.trace, &vec![fe(2)]));
}

#[test]
fn sub_tampered_instance_fails() {
    let r = run("5 - 3");
    assert!(!check(&r.trace, &vec![fe(5)]));
}

#[test]
fn mul_correct_instance_verifies() {
    let r = run("4 * 6");
    assert_eq!(r.result, fe(24));
    assert!(check(&r.trace, &vec![fe(24)]));
}

// Subtracting a larger operand from a smaller one wraps around the field
// modulus: the result is p - 2, not an error. The expected bytes are the
// canonical little-endian representation of
// 0x40000000000000000000000000000000224698fc094cf91b992d30ecffffffff.
#[test]
fn field_wraparound_is_not_an_error() {
    let p_minus_2: [u8; 32] = [
        0xff, 0xff, 0xff, 0xff, 0xec, 0x30, 0x2d, 0x99, 0x1b, 0xf9, 0x4c, 0x09, 0xfc, 0x98, 0x46,
        0x22, 0x00, 0x00, 0x00, 0x00, 0x00, 0x00, 0x00, 0x00, 0x00, 0x00, 0x00, 0x00, 0x00, 0x00,
        0x00, 0x40,
    ];
    let r = run("3 - 5");
    assert_eq!(r.result.bytes, p_minus_2);
    assert!(check(&r.trace, &vec![FieldValue { bytes: p_minus_2 }]));
    assert!(!check(&r.trace, &vec![fe(2)]));
}

#[test]
fn exactly_one_selector_on_the_gate_row() {
    for (line, op) in [("2 + 3", Operator::Add), ("2 - 3", Operator::Sub), ("2 * 3", Operator::Mul)]
    {
        let r = run(line);
        assert_eq!(r.operator, op);
        assert_eq!(r.trace.rows.len(), 4);
        let gate = &r.trace.rows[2];
        assert_eq!(gate.sel_add, op == Operator::Add);
        assert_eq!(gate.sel_sub, op == Operator::Sub);
        assert_eq!(gate.sel_mul, op == Operator::Mul);
        for i in [0usize, 1, 3] {
            let row = &r.trace.rows[i];
            assert!(!row.sel_add && !row.sel_sub && !row.sel_mul);
        }
    }
}

// Overwriting an operand cell after synthesis violates a copy link, so the
// edited trace is rejected even against the public input that used to pass.
#[test]
fn editing_a_loaded_cell_breaks_its_copy_link() {
    let mut r = run("2 + 3");
    assert!(check(&r.trace, &vec![fe(5)]));
    r.trace.rows[0].a = Some(fe(9));
    assert!(!check(&r.trace, &vec![fe(5)]));
}

#[test]
fn instance_arity_matters() {
    let r = run("2 + 3");
    // The output cell is bound to instance row 0, so an empty public input
    // can satisfy nothing; surplus rows beyond row 0 are simply unused.
    assert!(!check(&r.trace, &vec![]));
    assert!(check(&r.trace, &vec![fe(5), fe(99)]));
}

#[test]
fn forcing_a_second_selector_demands_its_gate_too() {
    let mut r = run("2 + 3");
    assert!(check(&r.trace, &vec![fe(5)]));
    // With the multiplication selector also on, the same row must satisfy
    // both relations; 2 * 3 is not 5, so the trace is rejected.
    r.trace.rows[2].sel_mul = true;
    assert!(!check(&r.trace, &vec![fe(5)]));
}

#[test]
fn no_operation_is_rejected_before_synthesis() {
    let calculator = ZkCalculator::new();
    match calculator.run_circuit() {
        Err(CircuitError::NoOperation) => {}
        other => panic!("expected NoOperation, got {:?}", other.is_ok()),
    }
}

#[test]
fn failed_parse_leaves_no_operation() {
    let mut calculator = ZkCalculator::new();
    assert!(calculator.parse("2 %".to_string()).is_err());
    match calculator.run_circuit() {
        Err(CircuitError::NoOperation) => {}
        other => panic!("expected NoOperation, got {:?}", other.is_ok()),
    }
}

#[test]
fn synthesize_directly_matches_the_calculator() {
    let a = fe(7);
    let b = fe(9);
    let (trace, c) = synthesize(Operator::Mul, &a, &b);
    assert_eq!(c, fe(63));
    assert!(check(&trace, &vec![fe(63)]));
    assert!(!check(&trace, &vec![fe(62)]));
}

#[test]
fn field_operations_have_exact_values() {
    assert_eq!(fe(2).add(&fe(3)), fe(5));
    assert_eq!(fe(5).sub(&fe(3)), fe(2));
    assert_eq!(fe(4).mul(&fe(6)), fe(24));
    let mut five = [0u8; 32];
    five[0] = 5;
    assert_eq!(fe(5).bytes, five);
    assert!(fe(7).eq_value(&fe(7)));
    assert!(!fe(7).eq_value(&fe(8)));
}

#[test]
fn large_operands_round_trip_through_the_field() {
    let max = u64::MAX;
    let r = run(&format!("{} * {}", max, max));
    // (2^64 - 1)^2 is far below the modulus, so no reduction happens.
    let square = (max as u128) * (max as u128);
    let mut expected = [0u8; 32];
    expected[0..16].copy_from_slice(&square.to_le_bytes());
    assert_eq!(r.result.bytes, expected);
    assert!(check(&r.trace, &vec![FieldValue { bytes: expected }]));
}
