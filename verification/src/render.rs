//! Printing a tree back as source text, so that the rewritten expression
//! can be spliced in place of the original one.

use vstd::prelude::*;
use vstd::string::StringExecFns;

use crate::ast::{ArithOp, BinOp, Expr, Policy, RewriteError, Rewritten, UnOp};
use crate::rewrite::{rewrite, rewritten};

verus! {

/// The token of a binary operator.
pub open spec fn bin_op_token(op: BinOp) -> Seq<char> {
    match op {
        BinOp::Add => "+"@,
        BinOp::Sub => "-"@,
        BinOp::Mul => "*"@,
        BinOp::Div => "/"@,
        BinOp::Rem => "%"@,
        BinOp::Shl => "<<"@,
        BinOp::Shr => ">>"@,
        BinOp::And => "&&"@,
        BinOp::Or => "||"@,
        BinOp::BitXor => "^"@,
        BinOp::BitAnd => "&"@,
        BinOp::BitOr => "|"@,
        BinOp::Eq => "=="@,
        BinOp::Lt => "<"@,
        BinOp::Le => "<="@,
        BinOp::Ne => "!="@,
        BinOp::Ge => ">="@,
        BinOp::Gt => ">"@,
        BinOp::AddAssign => "+="@,
        BinOp::SubAssign => "-="@,
        BinOp::MulAssign => "*="@,
        BinOp::DivAssign => "/="@,
        BinOp::RemAssign => "%="@,
        BinOp::BitXorAssign => "^="@,
        BinOp::BitAndAssign => "&="@,
        BinOp::BitOrAssign => "|="@,
        BinOp::ShlAssign => "<<="@,
        BinOp::ShrAssign => ">>="@,
    }
}

/// The token of a binary operator.
pub fn bin_op_text(op: BinOp) -> (s: &'static str)
    ensures
        s@ == bin_op_token(op),
{
    match op {
        BinOp::Add => "+",
        BinOp::Sub => "-",
        BinOp::Mul => "*",
        BinOp::Div => "/",
        BinOp::Rem => "%",
        BinOp::Shl => "<<",
        BinOp::Shr => ">>",
        BinOp::And => "&&",
        BinOp::Or => "||",
        BinOp::BitXor => "^",
        BinOp::BitAnd => "&",
        BinOp::BitOr => "|",
        BinOp::Eq => "==",
        BinOp::Lt => "<",
        BinOp::Le => "<=",
        BinOp::Ne => "!=",
        BinOp::Ge => ">=",
        BinOp::Gt => ">",
        BinOp::AddAssign => "+=",
        BinOp::SubAssign => "-=",
        BinOp::MulAssign => "*=",
        BinOp::DivAssign => "/=",
        BinOp::RemAssign => "%=",
        BinOp::BitXorAssign => "^=",
        BinOp::BitAndAssign => "&=",
        BinOp::BitOrAssign => "|=",
        BinOp::ShlAssign => "<<=",
        BinOp::ShrAssign => ">>=",
    }
}

/// The token of a unary operator.
pub open spec fn un_op_token(op: UnOp) -> Seq<char> {
    match op {
        UnOp::Neg => "-"@,
        UnOp::Not => "!"@,
        UnOp::Deref => "*"@,
    }
}

/// The token of a unary operator.
pub fn un_op_text(op: UnOp) -> (s: &'static str)
    ensures
        s@ == un_op_token(op),
{
    match op {
        UnOp::Neg => "-",
        UnOp::Not => "!",
        UnOp::Deref => "*",
    }
}

/// The `add` .. `shr` method-name suffix of an arithmetic operator, as in
/// `checked_add` or `wrapping_shl`.
pub open spec fn arith_suffix(a: ArithOp) -> Seq<char> {
    match a {
        ArithOp::Add => "add"@,
        ArithOp::Sub => "sub"@,
        ArithOp::Mul => "mul"@,
        ArithOp::Div => "div"@,
        ArithOp::Rem => "rem"@,
        ArithOp::Shl => "shl"@,
        ArithOp::Shr => "shr"@,
    }
}

/// The `add` .. `shr` method-name suffix of an arithmetic operator.
pub fn arith_suffix_text(a: ArithOp) -> (s: &'static str)
    ensures
        s@ == arith_suffix(a),
{
    match a {
        ArithOp::Add => "add",
        ArithOp::Sub => "sub",
        ArithOp::Mul => "mul",
        ArithOp::Div => "div",
        ArithOp::Rem => "rem",
        ArithOp::Shl => "shl",
        ArithOp::Shr => "shr",
    }
}

/// The source text of an input expression: verbatim leaves print their
/// carried text, operators print infix with single spaces around binary
/// ones, parentheses are kept, and a transparent group prints as its
/// content alone.
pub open spec fn expr_text(e: Expr) -> Seq<char>
    decreases e,
{
    match e {
        Expr::Binary(op, l, r) => expr_text(*l) + " "@ + bin_op_token(op) + " "@ + expr_text(*r),
        Expr::Unary(op, operand) => un_op_token(op) + expr_text(*operand),
        Expr::Lit(s) => s@,
        Expr::Paren(inner) => "("@ + expr_text(*inner) + ")"@,
        Expr::Group(inner) => expr_text(*inner),
        Expr::Cast(s) => s@,
        Expr::Index(s) => s@,
        Expr::Path(s) => s@,
        Expr::Reference(s) => s@,
        Expr::Unsupported(s) => s@,
    }
}

/// The source text of a rewritten expression: each rewritten node prints
/// as the fixed overflow-handling shape its variant stands for, and a
/// `Source` node prints as the verbatim input text.
pub open spec fn rewritten_text(t: Rewritten) -> Seq<char>
    decreases t,
{
    match t {
        Rewritten::Source(e) => expr_text(e),
        Rewritten::Binary(op, l, r) => rewritten_text(*l) + " "@ + bin_op_token(op) + " "@
            + rewritten_text(*r),
        Rewritten::Paren(inner) => "("@ + rewritten_text(*inner) + ")"@,
        Rewritten::PanickingCall(a, l, r) => "("@ + rewritten_text(*l) + ").checked_"@
            + arith_suffix(a) + "("@ + rewritten_text(*r) + ").unwrap()"@,
        Rewritten::WrappingCall(a, l, r) => "("@ + rewritten_text(*l) + ").wrapping_"@
            + arith_suffix(a) + "("@ + rewritten_text(*r) + ")"@,
        Rewritten::SaturatingCall(a, l, r) => "("@ + rewritten_text(*l) + ").saturating_"@
            + arith_suffix(a) + "("@ + rewritten_text(*r) + ")"@,
        Rewritten::SaturatingShift(a, l, r) => "(::core::num::Saturating("@ + rewritten_text(*l)
            + ") "@ + (if a is Shl {
            "<<"@
        } else {
            ">>"@
        }) + " ("@ + rewritten_text(*r) + ")).0"@,
        Rewritten::SomeLit(s) => "Some("@ + s@ + ")"@,
        Rewritten::ZipAndThen(a, l, r) => "("@ + rewritten_text(*l) + ").zip("@ + rewritten_text(*r)
            + ").and_then(|(l, r)| l.checked_"@ + arith_suffix(a) + "(r))"@,
        Rewritten::ZipMap(op, l, r) => "("@ + rewritten_text(*l) + ").zip("@ + rewritten_text(*r)
            + ").map(|(l, r)| l "@ + bin_op_token(op) + " r)"@,
        Rewritten::MapUnary(op, operand) => "("@ + rewritten_text(*operand) + ").map(|v| "@
            + un_op_token(op) + "v)"@,
    }
}

impl Expr {
    /// Prints the expression as source text.
    pub fn to_text(&self) -> (s: String)
        ensures
            s@ == expr_text(*self),
        decreases *self,
    {
        match self {
            Expr::Binary(op, l, r) => {
                let mut s = l.to_text();
                s.append(" ");
                s.append(bin_op_text(*op));
                s.append(" ");
                let rt = r.to_text();
                s.append(rt.as_str());
                s
            },
            Expr::Unary(op, operand) => {
                let mut s = String::from_str(un_op_text(*op));
                let ot = operand.to_text();
                s.append(ot.as_str());
                s
            },
            Expr::Lit(text) => text.clone(),
            Expr::Paren(inner) => {
                let mut s = String::from_str("(");
                let it = inner.to_text();
                s.append(it.as_str());
                s.append(")");
                s
            },
            Expr::Group(inner) => inner.to_text(),
            Expr::Cast(text) => text.clone(),
            Expr::Index(text) => text.clone(),
            Expr::Path(text) => text.clone(),
            Expr::Reference(text) => text.clone(),
            Expr::Unsupported(text) => text.clone(),
        }
    }
}

impl Rewritten {
    /// Prints the rewritten expression as source text, ready to be spliced
    /// in place of the original expression.
    pub fn to_text(&self) -> (s: String)
        ensures
            s@ == rewritten_text(*self),
        decreases *self,
    {
        match self {
            Rewritten::Source(e) => e.to_text(),
            Rewritten::Binary(op, l, r) => {
                let mut s = l.to_text();
                s.append(" ");
                s.append(bin_op_text(*op));
                s.append(" ");
                let rt = r.to_text();
                s.append(rt.as_str());
                s
            },
            Rewritten::Paren(inner) => {
                let mut s = String::from_str("(");
                let it = inner.to_text();
                s.append(it.as_str());
                s.append(")");
                s
            },
            Rewritten::PanickingCall(a, l, r) => {
                let mut s = String::from_str("(");
                let lt = l.to_text();
                s.append(lt.as_str());
                s.append(").checked_");
                s.append(arith_suffix_text(*a));
                s.append("(");
                let rt = r.to_text();
                s.append(rt.as_str());
                s.append(").unwrap()");
                s
            },
            Rewritten::WrappingCall(a, l, r) => {
                let mut s = String::from_str("(");
                let lt = l.to_text();
                s.append(lt.as_str());
                s.append(").wrapping_");
                s.append(arith_suffix_text(*a));
                s.append("(");
                let rt = r.to_text();
                s.append(rt.as_str());
                s.append(")");
                s
            },
            Rewritten::SaturatingCall(a, l, r) => {
                let mut s = String::from_str("(");
                let lt = l.to_text();
                s.append(lt.as_str());
                s.append(").saturating_");
                s.append(arith_suffix_text(*a));
                s.append("(");
                let rt = r.to_text();
                s.append(rt.as_str());
                s.append(")");
                s
            },
            Rewritten::SaturatingShift(a, l, r) => {
                let mut s = String::from_str("(::core::num::Saturating(");
                let lt = l.to_text();
                s.append(lt.as_str());
                s.append(") ");
                s.append(
                    if matches!(a, ArithOp::Shl) {
                        "<<"
                    } else {
                        ">>"
                    },
                );
                s.append(" (");
                let rt = r.to_text();
                s.append(rt.as_str());
                s.append(")).0");
                s
            },
            Rewritten::SomeLit(text) => {
                let mut s = String::from_str("Some(");
                s.append(text.as_str());
                s.append(")");
                s
            },
            Rewritten::ZipAndThen(a, l, r) => {
                let mut s = String::from_str("(");
                let lt = l.to_text();
                s.append(lt.as_str());
                s.append(").zip(");
                let rt = r.to_text();
                s.append(rt.as_str());
                s.append(").and_then(|(l, r)| l.checked_");
                s.append(arith_suffix_text(*a));
                s.append("(r))");
                s
            },
            Rewritten::ZipMap(op, l, r) => {
                let mut s = String::from_str("(");
                let lt = l.to_text();
                s.append(lt.as_str());
                s.append(").zip(");
                let rt = r.to_text();
                s.append(rt.as_str());
                s.append(").map(|(l, r)| l ");
                s.append(bin_op_text(*op));
                s.append(" r)");
                s
            },
            Rewritten::MapUnary(op, operand) => {
                let mut s = String::from_str("(");
                let ot = operand.to_text();
                s.append(ot.as_str());
                s.append(").map(|v| ");
                s.append(un_op_text(*op));
                s.append("v)");
                s
            },
        }
    }
}

/// Rewrites the expression under the given policy and prints the result:
/// the text of the rewritten tree on success, the rewrite's own error
/// otherwise.
pub fn expand(policy: Policy, extended: bool, expr: Expr) -> (res: Result<String, RewriteError>)
    ensures
        rewritten(policy, extended, expr) matches Ok(t) ==> res matches Ok(s) && s@
            == rewritten_text(t),
        rewritten(policy, extended, expr) matches Err(e) ==> res == Err::<String, RewriteError>(e),
{
    match rewrite(policy, extended, expr) {
        Ok(tree) => Ok(tree.to_text()),
        Err(err) => Err(err),
    }
}

} // verus!
