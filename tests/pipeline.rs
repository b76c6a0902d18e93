use jit_test::backend::{build_native, compile_jit, operands_of, parse_operands, verified_adder, PipelineError};
use jit_test::validate::{verify, VerifyError};
use jit_test::ir::{build_adder, Inst, IrFunction, ScalarType};
use jit_test::semantics::evaluate;

fn adder_result(r: i64, c: i64) -> Option<i64> {
    let f = build_adder(c);
    assert_eq!(verify(&f), Ok(()));
    evaluate(&f, r)
}

fn func(params: Vec<ScalarType>, results: Vec<ScalarType>, vars: Vec<ScalarType>, insts: Vec<Inst>) -> IrFunction {
    IrFunction { params, results, vars, insts }
}

#[test]
fn adder_has_fixed_shape() {
    let f = build_adder(7);
    assert_eq!(f.params, vec![ScalarType::I64]);
    assert_eq!(f.results, vec![ScalarType::I64]);
    assert_eq!(f.vars, vec![ScalarType::I64; 3]);
    assert_eq!(
        f.insts,
        vec![
            Inst::Load { dst: 0, param: 0, offset: 0 },
            Inst::Iconst { dst: 1, imm: 7 },
            Inst::Iadd { dst: 2, lhs: 0, rhs: 1 },
            Inst::Return { src: 2 },
        ]
    );
}

#[test]
fn verifier_accepts_every_adder() {
    for c in [0, 1, -1, 2, i64::MIN, i64::MAX, 123456789] {
        assert_eq!(verify(&build_adder(c)), Ok(()));
    }
}

#[test]
fn verifier_is_idempotent() {
    let f = build_adder(3);
    assert_eq!(verify(&f), verify(&f));
}

#[test]
fn one_plus_two_is_three() {
    assert_eq!(adder_result(1, 2), Some(3));
}

#[test]
fn minus_five_plus_five_is_zero() {
    assert_eq!(adder_result(-5, 5), Some(0));
}

#[test]
fn zero_constant_is_identity() {
    for r in [0, 1, -1, 42, i64::MIN, i64::MAX] {
        assert_eq!(adder_result(r, 0), Some(r));
    }
}

#[test]
fn zero_runtime_operand_gives_constant() {
    assert_eq!(adder_result(0, 99), Some(99));
    assert_eq!(adder_result(0, i64::MIN), Some(i64::MIN));
}

#[test]
fn minimum_plus_minimum_wraps_to_zero() {
    assert_eq!(adder_result(i64::MIN, i64::MIN), Some(0));
}

#[test]
fn maximum_plus_one_wraps_to_minimum() {
    assert_eq!(adder_result(i64::MAX, 1), Some(i64::MIN));
    assert_eq!(adder_result(i64::MAX, i64::MAX), Some(-2));
}

#[test]
fn adder_matches_wrapping_add() {
    for r in [-7, 0, 5, i64::MAX - 3, i64::MIN + 2] {
        for c in [-9, 0, 8, i64::MAX, i64::MIN] {
            assert_eq!(adder_result(r, c), Some(r.wrapping_add(c)));
        }
    }
}

#[test]
fn i32_addition_wraps_at_32_bits() {
    let f = func(
        vec![ScalarType::I64],
        vec![ScalarType::I32],
        vec![ScalarType::I32, ScalarType::I32, ScalarType::I32],
        vec![
            Inst::Iconst { dst: 0, imm: i32::MAX as i64 },
            Inst::Iconst { dst: 1, imm: 1 },
            Inst::Iadd { dst: 2, lhs: 0, rhs: 1 },
            Inst::Return { src: 2 },
        ],
    );
    assert_eq!(verify(&f), Ok(()));
    assert_eq!(evaluate(&f, 0), Some(i32::MIN as i64));
}

#[test]
fn read_before_write_is_rejected() {
    let f = func(
        vec![ScalarType::I64],
        vec![ScalarType::I64],
        vec![ScalarType::I64; 3],
        vec![
            Inst::Iconst { dst: 1, imm: 2 },
            Inst::Iadd { dst: 2, lhs: 0, rhs: 1 },
            Inst::Load { dst: 0, param: 0, offset: 0 },
            Inst::Return { src: 2 },
        ],
    );
    assert_eq!(verify(&f), Err(VerifyError::UseBeforeDef { index: 1, var: 0 }));
}

#[test]
fn empty_block_lacks_terminator() {
    let f = func(vec![], vec![ScalarType::I64], vec![], vec![]);
    assert_eq!(verify(&f), Err(VerifyError::MissingTerminator));
    let g = func(vec![], vec![], vec![ScalarType::I64], vec![Inst::Iconst { dst: 0, imm: 1 }]);
    assert_eq!(verify(&g), Err(VerifyError::MissingTerminator));
}

#[test]
fn return_before_end_is_rejected() {
    let f = func(
        vec![],
        vec![ScalarType::I64],
        vec![ScalarType::I64],
        vec![Inst::Iconst { dst: 0, imm: 1 }, Inst::Return { src: 0 }, Inst::Return { src: 0 }],
    );
    assert_eq!(verify(&f), Err(VerifyError::InstAfterReturn { index: 1 }));
}

#[test]
fn undeclared_variable_is_rejected() {
    let f = func(vec![], vec![ScalarType::I64], vec![ScalarType::I64], vec![Inst::Iconst { dst: 3, imm: 1 }, Inst::Return { src: 3 }]);
    assert_eq!(verify(&f), Err(VerifyError::UndeclaredVar { index: 0, var: 3 }));
}

#[test]
fn second_definition_is_rejected() {
    let f = func(
        vec![],
        vec![ScalarType::I64],
        vec![ScalarType::I64],
        vec![Inst::Iconst { dst: 0, imm: 1 }, Inst::Iconst { dst: 0, imm: 2 }, Inst::Return { src: 0 }],
    );
    assert_eq!(verify(&f), Err(VerifyError::Redefined { index: 1, var: 0 }));
}

#[test]
fn load_needs_a_pointer_parameter() {
    let f = func(vec![], vec![ScalarType::I64], vec![ScalarType::I64], vec![Inst::Load { dst: 0, param: 0, offset: 0 }, Inst::Return { src: 0 }]);
    assert_eq!(verify(&f), Err(VerifyError::BadParam { index: 0, param: 0 }));
    let g = func(vec![ScalarType::I32], vec![ScalarType::I64], vec![ScalarType::I64], vec![Inst::Load { dst: 0, param: 0, offset: 0 }, Inst::Return { src: 0 }]);
    assert_eq!(verify(&g), Err(VerifyError::BadParam { index: 0, param: 0 }));
}

#[test]
fn mixed_widths_are_rejected() {
    let f = func(
        vec![],
        vec![ScalarType::I64],
        vec![ScalarType::I64, ScalarType::I32, ScalarType::I64],
        vec![
            Inst::Iconst { dst: 0, imm: 1 },
            Inst::Iconst { dst: 1, imm: 2 },
            Inst::Iadd { dst: 2, lhs: 0, rhs: 1 },
            Inst::Return { src: 2 },
        ],
    );
    assert_eq!(verify(&f), Err(VerifyError::TypeMismatch { index: 2 }));
    let g = func(vec![], vec![ScalarType::I32], vec![ScalarType::I32], vec![Inst::Iconst { dst: 0, imm: 1 << 40 }, Inst::Return { src: 0 }]);
    assert_eq!(verify(&g), Err(VerifyError::TypeMismatch { index: 0 }));
}

#[test]
fn return_type_must_match_signature() {
    let f = func(vec![], vec![ScalarType::I32], vec![ScalarType::I64], vec![Inst::Iconst { dst: 0, imm: 1 }, Inst::Return { src: 0 }]);
    assert_eq!(verify(&f), Err(VerifyError::ReturnMismatch { index: 1 }));
    let g = func(vec![], vec![], vec![ScalarType::I64], vec![Inst::Iconst { dst: 0, imm: 1 }, Inst::Return { src: 0 }]);
    assert_eq!(verify(&g), Err(VerifyError::ReturnMismatch { index: 1 }));
}

#[test]
fn load_at_other_offset_has_no_value() {
    let f = func(
        vec![ScalarType::I64],
        vec![ScalarType::I64],
        vec![ScalarType::I64],
        vec![Inst::Load { dst: 0, param: 0, offset: 8 }, Inst::Return { src: 0 }],
    );
    assert_eq!(verify(&f), Ok(()));
    assert_eq!(evaluate(&f, 5), None);
}

#[test]
fn one_operand_is_an_argument_error() {
    assert_eq!(operands_of(&vec![1]), Err(PipelineError::Argument { count: 1 }));
}

#[test]
fn three_operands_are_an_argument_error() {
    assert_eq!(operands_of(&vec![1, 2, 3]), Err(PipelineError::Argument { count: 3 }));
    assert!(matches!(build_native(vec![1, 2, 3]), Err(PipelineError::Argument { count: 3 })));
    assert!(matches!(build_native(vec![1]), Err(PipelineError::Argument { count: 1 })));
}

#[test]
fn two_operands_split_into_runtime_and_constant() {
    assert_eq!(operands_of(&vec![1, 2]), Ok((1, 2)));
}

#[test]
fn operand_tokens_are_parsed() {
    let args = vec!["-5".to_string(), "5".to_string()];
    assert_eq!(parse_operands(&args), Ok((-5, 5)));
    let big = vec![i64::MIN.to_string(), "+7".to_string()];
    assert_eq!(parse_operands(&big), Ok((i64::MIN, 7)));
}

#[test]
fn bad_operand_tokens_are_rejected() {
    assert_eq!(parse_operands(&vec!["1".to_string()]), Err(PipelineError::Argument { count: 1 }));
    assert_eq!(
        parse_operands(&vec!["1".to_string(), "2".to_string(), "3".to_string()]),
        Err(PipelineError::Argument { count: 3 })
    );
    assert_eq!(parse_operands(&vec!["x".to_string(), "2".to_string()]), Err(PipelineError::NotAnInteger { index: 0 }));
    assert_eq!(parse_operands(&vec!["1".to_string(), "2.5".to_string()]), Err(PipelineError::NotAnInteger { index: 1 }));
    assert_eq!(
        parse_operands(&vec!["1".to_string(), "9223372036854775808".to_string()]),
        Err(PipelineError::NotAnInteger { index: 1 })
    );
}

#[test]
fn verified_adder_is_the_built_adder() {
    let f = verified_adder(2).unwrap();
    assert_eq!(f.insts, build_adder(2).insts);
}

#[test]
fn jit_compiles_the_adder() {
    let a = compile_jit(2).unwrap();
    assert_eq!(evaluate(&a.ir, 1), Some(3));
    assert!(a.text.contains("iconst.i64 2"), "{}", a.text);
    assert!(a.text.contains("iadd"), "{}", a.text);
    assert!(a.text.contains("load.i64"), "{}", a.text);
}

#[test]
fn object_backend_emits_an_object() {
    let a = build_native(vec![1, 2]).unwrap();
    assert!(a.bytes.len() > 4);
    assert_eq!(&a.bytes[0..4], &[0x7f, b'E', b'L', b'F']);
    assert_eq!(evaluate(&a.ir, 1), Some(3));
    assert!(a.text.contains("iconst.i64 2"), "{}", a.text);
    assert!(a.text.contains("return"), "{}", a.text);
}

#[test]
fn object_backend_embeds_the_second_operand() {
    let a = build_native(vec![-5, 5]).unwrap();
    assert!(a.text.contains("iconst.i64 5"), "{}", a.text);
    assert_eq!(evaluate(&a.ir, -5), Some(0));
}

#[test]
fn lone_signs_and_empty_tokens_are_not_integers() {
    for bad in ["-", "+", "", " 1", "1 ", "--1", "0x10"] {
        assert_eq!(
            parse_operands(&vec![bad.to_string(), "0".to_string()]),
            Err(PipelineError::NotAnInteger { index: 0 }),
            "{bad:?}"
        );
    }
}

#[test]
fn range_edges_parse_exactly() {
    let args = vec!["-9223372036854775808".to_string(), "9223372036854775807".to_string()];
    assert_eq!(parse_operands(&args), Ok((i64::MIN, i64::MAX)));
    let under = vec!["-9223372036854775809".to_string(), "0".to_string()];
    assert_eq!(parse_operands(&under), Err(PipelineError::NotAnInteger { index: 0 }));
    let zeros = vec!["-0".to_string(), "007".to_string()];
    assert_eq!(parse_operands(&zeros), Ok((0, 7)));
}
