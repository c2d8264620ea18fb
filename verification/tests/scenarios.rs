//! Concrete scenarios over the 8-bit unsigned range, the error taxonomy
//! with its messages, and the pass-through rules.

use arithmetic_mode::ast::{ArithOp, BadOperator, BinOp, Expr, Policy, RewriteError};
use arithmetic_mode::render::expand;
use arithmetic_mode::rewrite::{checked, checked_op, panicking, rewrite, saturating, wrapping, wrapping_op};

fn lit(s: &str) -> Expr {
    Expr::Lit(s.to_string())
}

fn bin(op: BinOp, l: Expr, r: Expr) -> Expr {
    Expr::Binary(op, Box::new(l), Box::new(r))
}

#[test]
fn test_scenario_panicking_overflow_unwraps_absent() {
    assert_eq!(
        panicking(bin(BinOp::Add, lit("255_u8"), lit("1_u8"))).unwrap().to_text(),
        "(255_u8).checked_add(1_u8).unwrap()"
    );
    // the generated call is absent on overflow, which the trailing
    // `.unwrap()` turns into an abort
    assert_eq!(None, (255_u8).checked_add(1_u8));
}

#[test]
fn test_scenario_wrapping_overflow_wraps_to_zero() {
    assert_eq!(
        wrapping(bin(BinOp::Add, lit("255_u8"), lit("1_u8"))).unwrap().to_text(),
        "(255_u8).wrapping_add(1_u8)"
    );
    assert_eq!(0, (255_u8).wrapping_add(1_u8));
}

#[test]
fn test_scenario_saturating_overflow_clamps() {
    assert_eq!(
        saturating(bin(BinOp::Add, lit("255_u8"), lit("1_u8"))).unwrap().to_text(),
        "(255_u8).saturating_add(1_u8)"
    );
    assert_eq!(255, (255_u8).saturating_add(1_u8));
}

#[test]
fn test_scenario_checked_present_and_absent() {
    assert_eq!(
        checked(bin(BinOp::Sub, lit("255_u8"), lit("1_u8"))).unwrap().to_text(),
        "(Some(255_u8)).zip(Some(1_u8)).and_then(|(l, r)| l.checked_sub(r))"
    );
    assert_eq!(Some(254), (Some(255_u8)).zip(Some(1_u8)).and_then(|(l, r)| l.checked_sub(r)));
    assert_eq!(
        checked(bin(BinOp::Add, lit("255_u8"), lit("1_u8"))).unwrap().to_text(),
        "(Some(255_u8)).zip(Some(1_u8)).and_then(|(l, r)| l.checked_add(r))"
    );
    assert_eq!(None, (Some(255_u8)).zip(Some(1_u8)).and_then(|(l, r)| l.checked_add(r)));
}

#[test]
fn test_scenario_bare_literal() {
    assert_eq!(panicking(lit("42")).unwrap().to_text(), "42");
    assert_eq!(wrapping(lit("42")).unwrap().to_text(), "42");
    assert_eq!(saturating(lit("42")).unwrap().to_text(), "42");
    assert_eq!(checked(lit("42")).unwrap().to_text(), "Some(42)");
}

#[test]
fn test_scenario_wrapping_shift_chain_left_associative() {
    assert_eq!(
        wrapping(bin(BinOp::Shr, bin(BinOp::Shl, lit("1_i8"), lit("2")), lit("3")))
            .unwrap()
            .to_text(),
        "((1_i8).wrapping_shl(2)).wrapping_shr(3)"
    );
    assert_eq!(0, ((1_i8).wrapping_shl(2)).wrapping_shr(3));
}

#[test]
fn test_compound_assignment_rejected_under_all_policies() {
    let err = RewriteError::UnsupportedOperator(BadOperator::CompoundAssignment);
    assert_eq!(panicking(bin(BinOp::AddAssign, lit("1"), lit("2"))), Err(err));
    let err = RewriteError::UnsupportedOperator(BadOperator::CompoundAssignment);
    assert_eq!(wrapping(bin(BinOp::SubAssign, lit("1"), lit("2"))), Err(err));
    let err = RewriteError::UnsupportedOperator(BadOperator::CompoundAssignment);
    assert_eq!(saturating(bin(BinOp::ShlAssign, lit("1"), lit("2"))), Err(err));
    let err = RewriteError::UnsupportedOperator(BadOperator::CompoundAssignment);
    assert_eq!(checked(bin(BinOp::BitOrAssign, lit("1"), lit("2"))), Err(err));
    let err = RewriteError::UnsupportedOperator(BadOperator::CompoundAssignment);
    assert_eq!(err.message(), "Unsupported operation");
}

#[test]
fn test_saturating_shift_rejected_with_message() {
    let res = saturating(bin(BinOp::Shl, lit("255_u8"), lit("1")));
    assert_eq!(res, Err(RewriteError::UnsupportedOperator(BadOperator::SaturatingShift)));
    let err = res.unwrap_err();
    assert_eq!(
        err.message(),
        "Saturating bit shifts are not supported (https://github.com/rust-lang/libs-team/issues/230)"
    );
    assert_eq!(
        err.diagnostic(),
        "Error: Saturating bit shifts are not supported (https://github.com/rust-lang/libs-team/issues/230)"
    );
}

#[test]
fn test_extended_capability_enables_saturating_shift() {
    let res = rewrite(Policy::Saturating, true, bin(BinOp::Shl, lit("1_u8"), lit("2")));
    assert_eq!(res.unwrap().to_text(), "(::core::num::Saturating(1_u8) << (2)).0");
    let res = rewrite(Policy::Saturating, true, bin(BinOp::Shr, lit("8_u8"), lit("2")));
    assert_eq!(res.unwrap().to_text(), "(::core::num::Saturating(8_u8) >> (2)).0");
}

#[test]
fn test_unsupported_expression_reported() {
    let res = wrapping(Expr::Unsupported("MethodCall".to_string()));
    assert_eq!(res, Err(RewriteError::UnsupportedExpression("MethodCall".to_string())));
    let err = res.unwrap_err();
    assert_eq!(err.message(), "Unexpected expression token MethodCall");
    assert_eq!(err.diagnostic(), "Error: Unexpected expression token MethodCall");
}

#[test]
fn test_parse_failure_message() {
    let err = RewriteError::ParseFailure("unexpected end of input".to_string());
    assert_eq!(err.message(), "unexpected end of input");
    assert_eq!(err.diagnostic(), "Error: unexpected end of input");
}

#[test]
fn test_opaque_leaves_pass_through() {
    assert_eq!(panicking(Expr::Cast("x as u64".to_string())).unwrap().to_text(), "x as u64");
    assert_eq!(wrapping(Expr::Index("xs[0]".to_string())).unwrap().to_text(), "xs[0]");
    assert_eq!(saturating(Expr::Path("count".to_string())).unwrap().to_text(), "count");
    assert_eq!(checked(Expr::Reference("&x".to_string())).unwrap().to_text(), "&x");
    assert_eq!(checked(Expr::Path("count".to_string())).unwrap().to_text(), "count");
}

#[test]
fn test_parentheses_preserved_group_transparent() {
    let e = Expr::Paren(Box::new(bin(BinOp::Add, lit("1"), lit("2"))));
    assert_eq!(wrapping(e).unwrap().to_text(), "((1).wrapping_add(2))");
    let e = Expr::Group(Box::new(bin(BinOp::Add, lit("1"), lit("2"))));
    assert_eq!(wrapping(e).unwrap().to_text(), "(1).wrapping_add(2)");
}

#[test]
fn test_comparison_kept_under_checked() {
    assert_eq!(
        checked(bin(BinOp::Lt, lit("1"), lit("2"))).unwrap().to_text(),
        "(Some(1)).zip(Some(2)).map(|(l, r)| l < r)"
    );
    assert_eq!(
        wrapping(bin(BinOp::Eq, lit("1"), lit("2"))).unwrap().to_text(),
        "1 == 2"
    );
}

#[test]
fn test_operator_lookup() {
    assert_eq!(checked_op(BinOp::Add), Ok(Some(ArithOp::Add)));
    assert_eq!(checked_op(BinOp::Shr), Ok(Some(ArithOp::Shr)));
    assert_eq!(checked_op(BinOp::And), Ok(None));
    assert_eq!(
        checked_op(BinOp::RemAssign),
        Err(RewriteError::UnsupportedOperator(BadOperator::CompoundAssignment))
    );
    assert_eq!(wrapping_op(BinOp::Mul), Ok(Some(ArithOp::Mul)));
    assert_eq!(wrapping_op(BinOp::Ge), Ok(None));
    assert_eq!(
        wrapping_op(BinOp::ShrAssign),
        Err(RewriteError::UnsupportedOperator(BadOperator::CompoundAssignment))
    );
}

#[test]
fn test_expand_entry() {
    assert_eq!(
        expand(Policy::Wrapping, false, bin(BinOp::Add, lit("1"), lit("2"))),
        Ok("(1).wrapping_add(2)".to_string())
    );
    assert_eq!(
        expand(Policy::Saturating, false, bin(BinOp::Shl, lit("1"), lit("2"))),
        Err(RewriteError::UnsupportedOperator(BadOperator::SaturatingShift))
    );
}
