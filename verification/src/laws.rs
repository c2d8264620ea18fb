//! Proved statements about the rewrite as a whole: what the traversal
//! guarantees for whole families of inputs, stated over the same spec
//! functions the executable functions' contracts use.

use vstd::prelude::*;

use crate::ast::{ArithOp, BadOperator, BinOp, Expr, Policy, RewriteError, Rewritten, UnOp};
use crate::rewrite::{op_class, rewritten};

verus! {

/// An expression built from literals and the arithmetic/shift operators
/// alone.
pub open spec fn arithmetic_expr(e: Expr) -> bool
    decreases e,
{
    match e {
        Expr::Lit(_) => true,
        Expr::Binary(op, l, r) => op_class(op) is Arith && arithmetic_expr(*l) && arithmetic_expr(
            *r,
        ),
        _ => false,
    }
}

/// No shift operator occurs in the expression.
pub open spec fn shift_free(e: Expr) -> bool
    decreases e,
{
    match e {
        Expr::Binary(op, l, r) => !(op is Shl) && !(op is Shr) && shift_free(*l) && shift_free(*r),
        Expr::Unary(_, operand) => shift_free(*operand),
        Expr::Paren(inner) => shift_free(*inner),
        Expr::Group(inner) => shift_free(*inner),
        _ => true,
    }
}

/// The arithmetic operator a binary operator of the arithmetic family
/// carries.
pub open spec fn arith_part(op: BinOp) -> ArithOp {
    op_class(op)->Arith_0
}

/// The replacement the policy's operator table builds for one arithmetic
/// node from its already-rewritten operands.
pub open spec fn arith_replacement(
    policy: Policy,
    a: ArithOp,
    l: Rewritten,
    r: Rewritten,
) -> Rewritten {
    match policy {
        Policy::Panicking => Rewritten::PanickingCall(a, Box::new(l), Box::new(r)),
        Policy::Wrapping => Rewritten::WrappingCall(a, Box::new(l), Box::new(r)),
        Policy::Saturating => if a is Shl || a is Shr {
            Rewritten::SaturatingShift(a, Box::new(l), Box::new(r))
        } else {
            Rewritten::SaturatingCall(a, Box::new(l), Box::new(r))
        },
        Policy::Checked => Rewritten::ZipAndThen(a, Box::new(l), Box::new(r)),
    }
}

/// The image of an arithmetic expression under a policy: the same operator
/// nesting, node for node, with every literal lifted per the policy and
/// every arithmetic node replaced by the policy's overflow-handling call
/// over the images of its own operands.
pub open spec fn arithmetic_image(policy: Policy, e: Expr) -> Rewritten
    decreases e,
{
    match e {
        Expr::Lit(s) => match policy {
            Policy::Checked => Rewritten::SomeLit(s),
            _ => Rewritten::Source(Expr::Lit(s)),
        },
        Expr::Binary(op, l, r) => arith_replacement(
            policy,
            arith_part(op),
            arithmetic_image(policy, *l),
            arithmetic_image(policy, *r),
        ),
        _ => Rewritten::Source(e),
    }
}

/// Law: on every expression built from literals and the arithmetic/shift
/// operators, rewriting succeeds under every policy and returns a tree
/// structurally isomorphic to the input — the same operator nesting, with
/// each arithmetic node replaced by the policy's overflow-handling call
/// and nothing else changed.  The one family of inputs left out is a shift
/// under the saturating policy without the extended numeric wrapper
/// capability, which is rejected instead (see
/// [`lemma_saturating_shift_rejected`]).
pub proof fn lemma_arithmetic_rewrite_isomorphic(policy: Policy, extended: bool, e: Expr)
    requires
        arithmetic_expr(e),
        policy is Saturating && !extended ==> shift_free(e),
    ensures
        rewritten(policy, extended, e) == Ok::<Rewritten, RewriteError>(
            arithmetic_image(policy, e),
        ),
    decreases e,
{
    match e {
        Expr::Binary(op, l, r) => {
            lemma_arithmetic_rewrite_isomorphic(policy, extended, *l);
            lemma_arithmetic_rewrite_isomorphic(policy, extended, *r);
        },
        _ => {},
    }
}

/// Law: an opaque leaf — a cast, an indexing, a path or identifier, a
/// reference — is returned verbatim under every policy, its carried source
/// text byte for byte that of the input.
pub proof fn lemma_opaque_leaf_unchanged(policy: Policy, extended: bool, e: Expr)
    requires
        e is Cast || e is Index || e is Path || e is Reference,
    ensures
        rewritten(policy, extended, e) == Ok::<Rewritten, RewriteError>(Rewritten::Source(e)),
{
}

/// Law: a logical, comparison or bitwise operator is never replaced with
/// an overflow-handling call: whenever both operands rewrite successfully,
/// the node is rebuilt around the same operator with the rewritten
/// operands — as a plain binary node under the panicking, wrapping and
/// saturating policies, and as `zip` + `map` over the same operator under
/// the checked policy.
pub proof fn lemma_logical_operator_kept(
    policy: Policy,
    extended: bool,
    op: BinOp,
    l: Expr,
    r: Expr,
)
    requires
        op_class(op) is Logical,
        rewritten(policy, extended, l) is Ok,
        rewritten(policy, extended, r) is Ok,
    ensures
        rewritten(policy, extended, Expr::Binary(op, Box::new(l), Box::new(r))) == Ok::<
            Rewritten,
            RewriteError,
        >(
            if policy is Checked {
                Rewritten::ZipMap(
                    op,
                    Box::new(rewritten(policy, extended, l)->Ok_0),
                    Box::new(rewritten(policy, extended, r)->Ok_0),
                )
            } else {
                Rewritten::Binary(
                    op,
                    Box::new(rewritten(policy, extended, l)->Ok_0),
                    Box::new(rewritten(policy, extended, r)->Ok_0),
                )
            },
        ),
{
}

/// Law: under the checked policy every literal becomes a present
/// optional, every logical/comparison binary node becomes `zip` + `map`,
/// every arithmetic binary node becomes `zip` + `and_then`, and every
/// unary node maps its operator over its rewritten operand.
pub proof fn lemma_checked_shapes(extended: bool, op: BinOp, uop: UnOp, s: String, l: Expr, r: Expr)
    requires
        rewritten(Policy::Checked, extended, l) is Ok,
        rewritten(Policy::Checked, extended, r) is Ok,
    ensures
        rewritten(Policy::Checked, extended, Expr::Lit(s)) == Ok::<Rewritten, RewriteError>(
            Rewritten::SomeLit(s),
        ),
        op_class(op) is Logical ==> rewritten(
            Policy::Checked,
            extended,
            Expr::Binary(op, Box::new(l), Box::new(r)),
        ) == Ok::<Rewritten, RewriteError>(
            Rewritten::ZipMap(
                op,
                Box::new(rewritten(Policy::Checked, extended, l)->Ok_0),
                Box::new(rewritten(Policy::Checked, extended, r)->Ok_0),
            ),
        ),
        op_class(op) is Arith ==> rewritten(
            Policy::Checked,
            extended,
            Expr::Binary(op, Box::new(l), Box::new(r)),
        ) == Ok::<Rewritten, RewriteError>(
            Rewritten::ZipAndThen(
                op_class(op)->Arith_0,
                Box::new(rewritten(Policy::Checked, extended, l)->Ok_0),
                Box::new(rewritten(Policy::Checked, extended, r)->Ok_0),
            ),
        ),
        rewritten(Policy::Checked, extended, Expr::Unary(uop, Box::new(l))) == Ok::<
            Rewritten,
            RewriteError,
        >(Rewritten::MapUnary(uop, Box::new(rewritten(Policy::Checked, extended, l)->Ok_0))),
{
}

/// Law: under the saturating policy, without the extended numeric wrapper
/// capability, a shift node whose operands both rewrite successfully is
/// rejected with the unsupported-operator error — the rewriter refuses to
/// emit code with made-up saturating-shift semantics.
pub proof fn lemma_saturating_shift_rejected(op: BinOp, l: Expr, r: Expr)
    requires
        op is Shl || op is Shr,
        rewritten(Policy::Saturating, false, l) is Ok,
        rewritten(Policy::Saturating, false, r) is Ok,
    ensures
        rewritten(Policy::Saturating, false, Expr::Binary(op, Box::new(l), Box::new(r))) == Err::<
            Rewritten,
            RewriteError,
        >(RewriteError::UnsupportedOperator(BadOperator::SaturatingShift)),
{
}

/// Law: a compound-assignment operator whose operands both rewrite
/// successfully is rejected with the unsupported-operator error under all
/// four policies.
pub proof fn lemma_compound_assignment_rejected(
    policy: Policy,
    extended: bool,
    op: BinOp,
    l: Expr,
    r: Expr,
)
    requires
        op_class(op) is Assign,
        rewritten(policy, extended, l) is Ok,
        rewritten(policy, extended, r) is Ok,
    ensures
        rewritten(policy, extended, Expr::Binary(op, Box::new(l), Box::new(r))) == Err::<
            Rewritten,
            RewriteError,
        >(RewriteError::UnsupportedOperator(BadOperator::CompoundAssignment)),
{
}

} // verus!
