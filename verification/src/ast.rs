//! The tree model of the rewriter: source expressions, operators, rewrite
//! policies, rewritten trees, and the error taxonomy.

use vstd::prelude::*;
use vstd::string::StringExecFns;

verus! {

/// A binary operator occurring in a source expression.
///
/// The arithmetic family (`Add` through `Shr`) is rewritten into
/// overflow-handling calls; the logical, bitwise and comparison operators
/// (`And` through `Gt`) are kept while their operands are still rewritten;
/// the compound-assignment operators (`AddAssign` through `ShrAssign`) are
/// always rejected, since they have no meaning inside a pure expression.
#[derive(Clone, Copy, Debug, PartialEq, Eq, Structural)]
pub enum BinOp {
    Add,
    Sub,
    Mul,
    Div,
    Rem,
    Shl,
    Shr,
    And,
    Or,
    BitXor,
    BitAnd,
    BitOr,
    Eq,
    Lt,
    Le,
    Ne,
    Ge,
    Gt,
    AddAssign,
    SubAssign,
    MulAssign,
    DivAssign,
    RemAssign,
    BitXorAssign,
    BitAndAssign,
    BitOrAssign,
    ShlAssign,
    ShrAssign,
}

/// A unary operator occurring in a source expression.
#[derive(Clone, Copy, Debug, PartialEq, Eq, Structural)]
pub enum UnOp {
    /// `-`
    Neg,
    /// `!`
    Not,
    /// `*`
    Deref,
}

/// One of the seven operators of the arithmetic family, as carried by a
/// rewritten node; it selects the `_add` .. `_shr` suffix of the
/// overflow-handling method the node calls.
#[derive(Clone, Copy, Debug, PartialEq, Eq, Structural)]
pub enum ArithOp {
    Add,
    Sub,
    Mul,
    Div,
    Rem,
    Shl,
    Shr,
}

/// The family a binary operator belongs to, which decides its treatment.
#[derive(Clone, Copy, Debug, PartialEq, Eq, Structural)]
pub enum OpClass {
    /// Rewritten into an overflow-handling call.
    Arith(ArithOp),
    /// Kept as an operator; only the operands are rewritten.
    Logical,
    /// Always rejected.
    Assign,
}

/// The overflow-handling semantics selected for one rewrite invocation.
#[derive(Clone, Copy, Debug, PartialEq, Eq, Structural)]
pub enum Policy {
    /// Overflow aborts the process: `checked_*` then unwrap.
    Panicking,
    /// The result wraps modulo the operand width: `wrapping_*`.
    Wrapping,
    /// The result clamps to the type's extremes: `saturating_*`.
    Saturating,
    /// Every sub-result becomes an optional value, absent on overflow.
    Checked,
}

/// A source expression, as handed to the rewriter by the external parser.
///
/// `Cast`, `Index`, `Path` and `Reference` are opaque leaves: the rewriter
/// never looks inside them, so they carry their source text verbatim.
/// `Unsupported` stands for every syntactic shape outside the recognized
/// set; it carries a description of the shape and makes the whole rewrite
/// fail.
#[derive(Debug, PartialEq, Eq)]
pub enum Expr {
    /// `left op right`
    Binary(BinOp, Box<Expr>, Box<Expr>),
    /// `op operand`
    Unary(UnOp, Box<Expr>),
    /// A literal, carried as its source text, e.g. `42` or `5_u8`.
    Lit(String),
    /// `( inner )` — grouping that is preserved on output.
    Paren(Box<Expr>),
    /// A transparent wrapper with no syntactic effect (invisible grouping
    /// produced by macro hygiene); the rewriter looks through it.
    Group(Box<Expr>),
    /// `expr as Type`, verbatim.
    Cast(String),
    /// `expr[index]`, verbatim.
    Index(String),
    /// A path or identifier, verbatim.
    Path(String),
    /// `&expr`, verbatim.
    Reference(String),
    /// Any other syntactic shape, with a description of what it was.
    Unsupported(String),
}

/// A rewritten expression, as built bottom-up by the rewriter.
///
/// Every variant renders as one fixed syntactic shape; `Source` embeds a
/// piece of the input that is passed through unchanged.
#[derive(Debug, PartialEq, Eq)]
pub enum Rewritten {
    /// A verbatim piece of the input: an opaque leaf, a literal, or a whole
    /// unary expression under the policies that leave unary nodes alone.
    Source(Expr),
    /// `left op right` — a kept logical/comparison operator over rewritten
    /// operands.
    Binary(BinOp, Box<Rewritten>, Box<Rewritten>),
    /// `( inner )` — preserved grouping.
    Paren(Box<Rewritten>),
    /// `(left).checked_op(right).unwrap()`
    PanickingCall(ArithOp, Box<Rewritten>, Box<Rewritten>),
    /// `(left).wrapping_op(right)`
    WrappingCall(ArithOp, Box<Rewritten>, Box<Rewritten>),
    /// `(left).saturating_op(right)`
    SaturatingCall(ArithOp, Box<Rewritten>, Box<Rewritten>),
    /// `(::core::num::Saturating(left) op (right)).0` — a saturating shift
    /// through the extended numeric wrapper, only built when that
    /// capability is enabled.
    SaturatingShift(ArithOp, Box<Rewritten>, Box<Rewritten>),
    /// `Some(lit)` — a literal lifted into a present optional under the
    /// checked policy.
    SomeLit(String),
    /// `(left).zip(right).and_then(|(l, r)| l.checked_op(r))`
    ZipAndThen(ArithOp, Box<Rewritten>, Box<Rewritten>),
    /// `(left).zip(right).map(|(l, r)| l op r)`
    ZipMap(BinOp, Box<Rewritten>, Box<Rewritten>),
    /// `(operand).map(|v| op v)`
    MapUnary(UnOp, Box<Rewritten>),
}

/// Which unsupported operator made the rewrite fail.
#[derive(Clone, Copy, Debug, PartialEq, Eq, Structural)]
pub enum BadOperator {
    /// A compound-assignment operator, rejected under every policy.
    CompoundAssignment,
    /// A shift under the saturating policy without the extended numeric
    /// wrapper capability.
    SaturatingShift,
}

/// Why a rewrite invocation failed.  Every failure is terminal: the
/// rewriter returns either one complete output tree or one of these.
#[derive(Clone, Debug, PartialEq, Eq)]
pub enum RewriteError {
    /// A syntactic shape outside the recognized set, with its description.
    UnsupportedExpression(String),
    /// An operator that cannot be rewritten.
    UnsupportedOperator(BadOperator),
    /// The external parser could not read the invocation text; carries the
    /// parser's own message.
    ParseFailure(String),
}

/// The human-readable message of an error, as [`RewriteError::message`]
/// returns it.
pub open spec fn message_spec(e: RewriteError) -> Seq<char> {
    match e {
        RewriteError::UnsupportedExpression(d) => "Unexpected expression token "@ + d@,
        RewriteError::UnsupportedOperator(k) => match k {
            BadOperator::CompoundAssignment => "Unsupported operation"@,
            BadOperator::SaturatingShift => "Saturating bit shifts are not supported (https://github.com/rust-lang/libs-team/issues/230)"@,
        },
        RewriteError::ParseFailure(d) => d@,
    }
}

impl RewriteError {
    /// The human-readable message of the error.
    pub fn message(&self) -> (s: String)
        ensures
            s@ == message_spec(*self),
    {
        match self {
            RewriteError::UnsupportedExpression(d) => {
                let mut s = String::from_str("Unexpected expression token ");
                s.append(d.as_str());
                s
            },
            RewriteError::UnsupportedOperator(k) => match k {
                BadOperator::CompoundAssignment => String::from_str("Unsupported operation"),
                BadOperator::SaturatingShift => String::from_str(
                    "Saturating bit shifts are not supported (https://github.com/rust-lang/libs-team/issues/230)",
                ),
            },
            RewriteError::ParseFailure(d) => d.clone(),
        }
    }

    /// The single-line diagnostic the host surfaces as a build-time error:
    /// `Error: ` followed by the message.
    pub fn diagnostic(&self) -> (s: String)
        ensures
            s@ == "Error: "@ + message_spec(*self),
    {
        let mut s = String::from_str("Error: ");
        let m = self.message();
        s.append(m.as_str());
        s
    }
}

} // verus!
