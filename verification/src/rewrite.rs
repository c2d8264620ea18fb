//! The rewrite engine: one post-order traversal, parameterized by the
//! policy, that replaces every arithmetic operator occurrence with an
//! overflow-handling call and threads errors for unsupported constructs.

use vstd::prelude::*;

use crate::ast::{ArithOp, BadOperator, BinOp, Expr, OpClass, Policy, RewriteError, Rewritten};

verus! {

/// The family a binary operator belongs to.
pub open spec fn op_class(op: BinOp) -> OpClass {
    match op {
        BinOp::Add => OpClass::Arith(ArithOp::Add),
        BinOp::Sub => OpClass::Arith(ArithOp::Sub),
        BinOp::Mul => OpClass::Arith(ArithOp::Mul),
        BinOp::Div => OpClass::Arith(ArithOp::Div),
        BinOp::Rem => OpClass::Arith(ArithOp::Rem),
        BinOp::Shl => OpClass::Arith(ArithOp::Shl),
        BinOp::Shr => OpClass::Arith(ArithOp::Shr),
        BinOp::And => OpClass::Logical,
        BinOp::Or => OpClass::Logical,
        BinOp::BitXor => OpClass::Logical,
        BinOp::BitAnd => OpClass::Logical,
        BinOp::BitOr => OpClass::Logical,
        BinOp::Eq => OpClass::Logical,
        BinOp::Lt => OpClass::Logical,
        BinOp::Le => OpClass::Logical,
        BinOp::Ne => OpClass::Logical,
        BinOp::Ge => OpClass::Logical,
        BinOp::Gt => OpClass::Logical,
        BinOp::AddAssign => OpClass::Assign,
        BinOp::SubAssign => OpClass::Assign,
        BinOp::MulAssign => OpClass::Assign,
        BinOp::DivAssign => OpClass::Assign,
        BinOp::RemAssign => OpClass::Assign,
        BinOp::BitXorAssign => OpClass::Assign,
        BinOp::BitAndAssign => OpClass::Assign,
        BinOp::BitOrAssign => OpClass::Assign,
        BinOp::ShlAssign => OpClass::Assign,
        BinOp::ShrAssign => OpClass::Assign,
    }
}

/// Classifies a binary operator.
pub fn op_class_of(op: BinOp) -> (c: OpClass)
    ensures
        c == op_class(op),
{
    match op {
        BinOp::Add => OpClass::Arith(ArithOp::Add),
        BinOp::Sub => OpClass::Arith(ArithOp::Sub),
        BinOp::Mul => OpClass::Arith(ArithOp::Mul),
        BinOp::Div => OpClass::Arith(ArithOp::Div),
        BinOp::Rem => OpClass::Arith(ArithOp::Rem),
        BinOp::Shl => OpClass::Arith(ArithOp::Shl),
        BinOp::Shr => OpClass::Arith(ArithOp::Shr),
        BinOp::And => OpClass::Logical,
        BinOp::Or => OpClass::Logical,
        BinOp::BitXor => OpClass::Logical,
        BinOp::BitAnd => OpClass::Logical,
        BinOp::BitOr => OpClass::Logical,
        BinOp::Eq => OpClass::Logical,
        BinOp::Lt => OpClass::Logical,
        BinOp::Le => OpClass::Logical,
        BinOp::Ne => OpClass::Logical,
        BinOp::Ge => OpClass::Logical,
        BinOp::Gt => OpClass::Logical,
        BinOp::AddAssign => OpClass::Assign,
        BinOp::SubAssign => OpClass::Assign,
        BinOp::MulAssign => OpClass::Assign,
        BinOp::DivAssign => OpClass::Assign,
        BinOp::RemAssign => OpClass::Assign,
        BinOp::BitXorAssign => OpClass::Assign,
        BinOp::BitAndAssign => OpClass::Assign,
        BinOp::BitOrAssign => OpClass::Assign,
        BinOp::ShlAssign => OpClass::Assign,
        BinOp::ShrAssign => OpClass::Assign,
    }
}

/// What the operator lookup of the panicking and checked policies returns:
/// the arithmetic operator whose `checked_*` method the rewrite calls,
/// `None` for an operator that is kept, or the rejection of a
/// compound-assignment operator.
pub open spec fn op_lookup(op: BinOp) -> Result<Option<ArithOp>, RewriteError> {
    match op_class(op) {
        OpClass::Arith(a) => Ok(Some(a)),
        OpClass::Logical => Ok(None),
        OpClass::Assign => Err(
            RewriteError::UnsupportedOperator(BadOperator::CompoundAssignment),
        ),
    }
}

/// The operator lookup used by the panicking and checked policies, whose
/// arithmetic rewrites call the `checked_*` methods.
pub fn checked_op(op: BinOp) -> (r: Result<Option<ArithOp>, RewriteError>)
    ensures
        r == op_lookup(op),
{
    match op_class_of(op) {
        OpClass::Arith(a) => Ok(Some(a)),
        OpClass::Logical => Ok(None),
        OpClass::Assign => Err(
            RewriteError::UnsupportedOperator(BadOperator::CompoundAssignment),
        ),
    }
}

/// The operator lookup used by the wrapping policy, whose arithmetic
/// rewrites call the `wrapping_*` methods.  The classification is the same
/// as [`checked_op`]'s; only the method family the caller then emits
/// differs.
pub fn wrapping_op(op: BinOp) -> (r: Result<Option<ArithOp>, RewriteError>)
    ensures
        r == op_lookup(op),
{
    match op_class_of(op) {
        OpClass::Arith(a) => Ok(Some(a)),
        OpClass::Logical => Ok(None),
        OpClass::Assign => Err(
            RewriteError::UnsupportedOperator(BadOperator::CompoundAssignment),
        ),
    }
}

/// The replacement for a binary node whose operands have already been
/// rewritten to `l` and `r`: the per-policy operator table.
///
/// An arithmetic operator becomes the policy's overflow-handling call; a
/// logical/comparison operator is kept (lifted to `zip` + `map` under the
/// checked policy); a compound-assignment operator is rejected; a shift
/// under the saturating policy is rejected unless the extended numeric
/// wrapper capability is enabled.
pub open spec fn rewritten_binary(
    policy: Policy,
    extended: bool,
    op: BinOp,
    l: Rewritten,
    r: Rewritten,
) -> Result<Rewritten, RewriteError> {
    match op_class(op) {
        OpClass::Assign => Err(
            RewriteError::UnsupportedOperator(BadOperator::CompoundAssignment),
        ),
        OpClass::Logical => match policy {
            Policy::Checked => Ok(Rewritten::ZipMap(op, Box::new(l), Box::new(r))),
            _ => Ok(Rewritten::Binary(op, Box::new(l), Box::new(r))),
        },
        OpClass::Arith(a) => match policy {
            Policy::Panicking => Ok(Rewritten::PanickingCall(a, Box::new(l), Box::new(r))),
            Policy::Wrapping => Ok(Rewritten::WrappingCall(a, Box::new(l), Box::new(r))),
            Policy::Checked => Ok(Rewritten::ZipAndThen(a, Box::new(l), Box::new(r))),
            Policy::Saturating => if a is Shl || a is Shr {
                if extended {
                    Ok(Rewritten::SaturatingShift(a, Box::new(l), Box::new(r)))
                } else {
                    Err(RewriteError::UnsupportedOperator(BadOperator::SaturatingShift))
                }
            } else {
                Ok(Rewritten::SaturatingCall(a, Box::new(l), Box::new(r)))
            },
        },
    }
}

/// What rewriting an expression returns: the complete rewritten tree, or
/// the first error met in a post-order walk.
///
/// The walk rewrites the operands of a binary node before its operator is
/// classified, preserves parentheses, looks through transparent groups,
/// passes opaque leaves through verbatim, and fails on any unsupported
/// shape.  Under the three non-checked policies a unary node is returned
/// verbatim, operand and all; under the checked policy its operand is
/// rewritten and the operator is mapped over the optional result.  A
/// literal is kept, except under the checked policy, where it seeds the
/// optional chain as a present value.
pub open spec fn rewritten(policy: Policy, extended: bool, e: Expr) -> Result<
    Rewritten,
    RewriteError,
>
    decreases e,
{
    match e {
        Expr::Binary(op, l, r) => match rewritten(policy, extended, *l) {
            Ok(nl) => match rewritten(policy, extended, *r) {
                Ok(nr) => rewritten_binary(policy, extended, op, nl, nr),
                Err(err) => Err(err),
            },
            Err(err) => Err(err),
        },
        Expr::Unary(op, operand) => match policy {
            Policy::Checked => match rewritten(policy, extended, *operand) {
                Ok(no) => Ok(Rewritten::MapUnary(op, Box::new(no))),
                Err(err) => Err(err),
            },
            _ => Ok(Rewritten::Source(Expr::Unary(op, operand))),
        },
        Expr::Lit(s) => match policy {
            Policy::Checked => Ok(Rewritten::SomeLit(s)),
            _ => Ok(Rewritten::Source(Expr::Lit(s))),
        },
        Expr::Paren(inner) => match rewritten(policy, extended, *inner) {
            Ok(ni) => Ok(Rewritten::Paren(Box::new(ni))),
            Err(err) => Err(err),
        },
        Expr::Group(inner) => rewritten(policy, extended, *inner),
        Expr::Cast(s) => Ok(Rewritten::Source(Expr::Cast(s))),
        Expr::Index(s) => Ok(Rewritten::Source(Expr::Index(s))),
        Expr::Path(s) => Ok(Rewritten::Source(Expr::Path(s))),
        Expr::Reference(s) => Ok(Rewritten::Source(Expr::Reference(s))),
        Expr::Unsupported(d) => Err(RewriteError::UnsupportedExpression(d)),
    }
}

/// Builds the replacement for a binary node from its already-rewritten
/// operands, per the policy's operator table.
pub fn rewrite_binary(policy: Policy, extended: bool, op: BinOp, l: Rewritten, r: Rewritten) -> (res:
    Result<Rewritten, RewriteError>)
    ensures
        res == rewritten_binary(policy, extended, op, l, r),
{
    match policy {
        Policy::Panicking => match checked_op(op) {
            Ok(Some(a)) => Ok(Rewritten::PanickingCall(a, Box::new(l), Box::new(r))),
            Ok(None) => Ok(Rewritten::Binary(op, Box::new(l), Box::new(r))),
            Err(err) => Err(err),
        },
        Policy::Wrapping => match wrapping_op(op) {
            Ok(Some(a)) => Ok(Rewritten::WrappingCall(a, Box::new(l), Box::new(r))),
            Ok(None) => Ok(Rewritten::Binary(op, Box::new(l), Box::new(r))),
            Err(err) => Err(err),
        },
        Policy::Checked => match checked_op(op) {
            Ok(Some(a)) => Ok(Rewritten::ZipAndThen(a, Box::new(l), Box::new(r))),
            Ok(None) => Ok(Rewritten::ZipMap(op, Box::new(l), Box::new(r))),
            Err(err) => Err(err),
        },
        Policy::Saturating => match op_class_of(op) {
            OpClass::Arith(a) => match a {
                ArithOp::Shl | ArithOp::Shr => if extended {
                    Ok(Rewritten::SaturatingShift(a, Box::new(l), Box::new(r)))
                } else {
                    Err(RewriteError::UnsupportedOperator(BadOperator::SaturatingShift))
                },
                _ => Ok(Rewritten::SaturatingCall(a, Box::new(l), Box::new(r))),
            },
            OpClass::Logical => Ok(Rewritten::Binary(op, Box::new(l), Box::new(r))),
            OpClass::Assign => Err(
                RewriteError::UnsupportedOperator(BadOperator::CompoundAssignment),
            ),
        },
    }
}

/// Rewrites one expression under the given policy, with `extended` saying
/// whether the extended numeric wrapper capability (a saturating shift
/// type) is available.  Returns the complete rewritten tree, or the first
/// error met; no node is ever half-rewritten.
pub fn rewrite(policy: Policy, extended: bool, expr: Expr) -> (res: Result<
    Rewritten,
    RewriteError,
>)
    ensures
        res == rewritten(policy, extended, expr),
    decreases expr,
{
    match expr {
        Expr::Binary(op, l, r) => {
            let nl = match rewrite(policy, extended, *l) {
                Ok(v) => v,
                Err(err) => {
                    return Err(err);
                },
            };
            let nr = match rewrite(policy, extended, *r) {
                Ok(v) => v,
                Err(err) => {
                    return Err(err);
                },
            };
            rewrite_binary(policy, extended, op, nl, nr)
        },
        Expr::Unary(op, operand) => match policy {
            Policy::Checked => match rewrite(policy, extended, *operand) {
                Ok(no) => Ok(Rewritten::MapUnary(op, Box::new(no))),
                Err(err) => Err(err),
            },
            _ => Ok(Rewritten::Source(Expr::Unary(op, operand))),
        },
        Expr::Lit(s) => match policy {
            Policy::Checked => Ok(Rewritten::SomeLit(s)),
            _ => Ok(Rewritten::Source(Expr::Lit(s))),
        },
        Expr::Paren(inner) => match rewrite(policy, extended, *inner) {
            Ok(ni) => Ok(Rewritten::Paren(Box::new(ni))),
            Err(err) => Err(err),
        },
        Expr::Group(inner) => rewrite(policy, extended, *inner),
        Expr::Cast(s) => Ok(Rewritten::Source(Expr::Cast(s))),
        Expr::Index(s) => Ok(Rewritten::Source(Expr::Index(s))),
        Expr::Path(s) => Ok(Rewritten::Source(Expr::Path(s))),
        Expr::Reference(s) => Ok(Rewritten::Source(Expr::Reference(s))),
        Expr::Unsupported(d) => Err(RewriteError::UnsupportedExpression(d)),
    }
}

/// Rewrites the expression so that every arithmetic operation panics on
/// overflow: `checked_*` calls, each unwrapped.
pub fn panicking(expr: Expr) -> (res: Result<Rewritten, RewriteError>)
    ensures
        res == rewritten(Policy::Panicking, false, expr),
{
    rewrite(Policy::Panicking, false, expr)
}

/// Rewrites the expression so that every arithmetic operation wraps modulo
/// the operand width on overflow: `wrapping_*` calls.
pub fn wrapping(expr: Expr) -> (res: Result<Rewritten, RewriteError>)
    ensures
        res == rewritten(Policy::Wrapping, false, expr),
{
    rewrite(Policy::Wrapping, false, expr)
}

/// Rewrites the expression so that every arithmetic operation clamps to
/// the type's extremes on overflow: `saturating_*` calls.  Shifts are
/// rejected, since the extended numeric wrapper capability is off by
/// default.
pub fn saturating(expr: Expr) -> (res: Result<Rewritten, RewriteError>)
    ensures
        res == rewritten(Policy::Saturating, false, expr),
{
    rewrite(Policy::Saturating, false, expr)
}

/// Rewrites the expression so that every sub-result becomes an optional
/// value that is absent on overflow, with absence propagating through the
/// whole expression via `zip`/`and_then` chains.
pub fn checked(expr: Expr) -> (res: Result<Rewritten, RewriteError>)
    ensures
        res == rewritten(Policy::Checked, false, expr),
{
    rewrite(Policy::Checked, false, expr)
}

} // verus!
