use vstd::prelude::*;

use crate::spceval::{ExprError, ExprErrorKind};
use crate::text::{decimal, push_decimal, push_str, str_eq};

verus! {

/// The number of distinct `u64` values.
pub open spec fn u64_modulus() -> int {
    0x1_0000_0000_0000_0000
}

/// `v` reduced to the range of `u64` (two's complement wrap-around).
pub open spec fn wrap_u64(v: int) -> u64 {
    (((v % u64_modulus()) + u64_modulus()) % u64_modulus()) as u64
}

/// `1` for true, `0` for false.
pub open spec fn bool_u64(b: bool) -> u64 {
    if b {
        1
    } else {
        0
    }
}

/// How an operator groups with operators of the same precedence.
#[derive(Debug, PartialEq, Eq, Structural, Copy, Clone)]
pub enum OperAssoc {
    Nil,
    Left,
    Right,
}

/// The syntactic role of an operator.
#[derive(Debug, PartialEq, Eq, Structural, Copy, Clone)]
pub enum OperKind {
    Regular,
    OpenParen,
    CloseParen,
    ParamSep,
}

/// Which evaluation an operator performs.
#[derive(Debug, PartialEq, Eq, Structural, Copy, Clone)]
pub enum OperEval {
    Nop,
    Add,
    Sub,
    UnaryMinus,
    LogicalNot,
    BitNot,
    Mul,
    Div,
    Rem,
    BitLshift,
    BitRshift,
    Lt,
    Lte,
    Gt,
    Gte,
    Eq,
    Ne,
    BitAnd,
    BitXor,
    BitOr,
}

/// An operator of the expression language.
#[derive(Debug)]
pub struct Oper<'a> {
    pub kind: OperKind,
    pub prec: u8,
    pub params: u8,
    pub assoc: OperAssoc,
    pub evalfn: OperEval,
    pub name: &'a str,
    pub syntax: &'a str,
    pub help: &'a str,
}

/// The number of operands an evaluation reads.
pub open spec fn eval_arity(e: OperEval) -> nat {
    match e {
        OperEval::Nop | OperEval::UnaryMinus | OperEval::LogicalNot | OperEval::BitNot => 1,
        _ => 2,
    }
}

/// The integer result of an evaluation on its operands (division by zero and
/// remainder by zero aside).
pub open spec fn oper_value(e: OperEval, nums: Seq<u64>) -> u64 {
    let a = nums[0];
    let b = nums[1];
    match e {
        OperEval::Nop => a,
        OperEval::Add => wrap_u64(a + b),
        OperEval::Sub => wrap_u64(a - b),
        OperEval::UnaryMinus => wrap_u64(-a),
        OperEval::LogicalNot => bool_u64(a == 0),
        OperEval::BitNot => !a,
        OperEval::Mul => wrap_u64(a * b),
        OperEval::Div => a / b,
        OperEval::Rem => a % b,
        OperEval::BitLshift => a << (b % 64),
        OperEval::BitRshift => a >> (b % 64),
        OperEval::Lt => bool_u64(a < b),
        OperEval::Lte => bool_u64(a <= b),
        OperEval::Gt => bool_u64(a > b),
        OperEval::Gte => bool_u64(a >= b),
        OperEval::Eq => bool_u64(a == b),
        OperEval::Ne => bool_u64(a != b),
        OperEval::BitAnd => a & b,
        OperEval::BitXor => a ^ b,
        OperEval::BitOr => a | b,
    }
}

/// The message of a division by zero at position `idx_expr`.
pub open spec fn division_by_zero_message(idx_expr: usize) -> Seq<char> {
    "due to division by 0 for operator at "@ + decimal(idx_expr as nat)
}

/// What evaluating `e` on `nums` at position `idx_expr` gives: a division by
/// zero fails, everything else yields `oper_value`.
pub open spec fn oper_result_ok(e: OperEval, nums: Seq<u64>, r: Result<u64, ExprError>, idx_expr: usize) -> bool {
    if e == OperEval::Div && nums[1] == 0 {
        (r matches Err(err) && err.idx_expr == idx_expr && err.kind == ExprErrorKind::FailedEvaluation
            && err.message@ == division_by_zero_message(idx_expr))
    } else {
        r == Ok::<u64, ExprError>(oper_value(e, nums))
    }
}

pub fn oper_nop(_idx_expr: usize, nums: &[u64]) -> (r: Result<u64, ExprError>)
    requires
        nums@.len() >= 1,
    ensures
        r == Ok::<u64, ExprError>(nums@[0]),
{
    Ok(nums[0])
}

pub fn oper_add(_idx_expr: usize, nums: &[u64]) -> (r: Result<u64, ExprError>)
    requires
        nums@.len() >= 2,
    ensures
        r == Ok::<u64, ExprError>(wrap_u64(nums@[0] + nums@[1])),
{
    let lhs = nums[0];
    let rhs = nums[1];
    Ok(lhs.wrapping_add(rhs))
}

pub fn oper_sub(_idx_expr: usize, nums: &[u64]) -> (r: Result<u64, ExprError>)
    requires
        nums@.len() >= 2,
    ensures
        r == Ok::<u64, ExprError>(wrap_u64(nums@[0] - nums@[1])),
{
    let lhs = nums[0];
    let rhs = nums[1];
    Ok(lhs.wrapping_sub(rhs))
}

pub fn oper_unary_minus(_idx_expr: usize, nums: &[u64]) -> (r: Result<u64, ExprError>)
    requires
        nums@.len() >= 1,
    ensures
        r == Ok::<u64, ExprError>(wrap_u64(-nums@[0])),
{
    let rhs = nums[0];
    Ok(0u64.wrapping_sub(rhs))
}

pub fn oper_logical_not(_idx_expr: usize, nums: &[u64]) -> (r: Result<u64, ExprError>)
    requires
        nums@.len() >= 1,
    ensures
        r == Ok::<u64, ExprError>(bool_u64(nums@[0] == 0)),
{
    let rhs = nums[0];
    Ok(
        if rhs == 0 {
            1
        } else {
            0
        },
    )
}

pub fn oper_bit_not(_idx_expr: usize, nums: &[u64]) -> (r: Result<u64, ExprError>)
    requires
        nums@.len() >= 1,
    ensures
        r == Ok::<u64, ExprError>(!nums@[0]),
{
    let rhs = nums[0];
    Ok(!rhs)
}

pub fn oper_mul(_idx_expr: usize, nums: &[u64]) -> (r: Result<u64, ExprError>)
    requires
        nums@.len() >= 2,
    ensures
        r == Ok::<u64, ExprError>(wrap_u64(nums@[0] * nums@[1])),
{
    let lhs = nums[0];
    let rhs = nums[1];
    let v = lhs.wrapping_mul(rhs);
    Ok(v)
}

/// Divides the operands; a zero divisor fails with `FailedEvaluation`.
pub fn oper_div(idx_expr: usize, nums: &[u64]) -> (r: Result<u64, ExprError>)
    requires
        nums@.len() >= 2,
    ensures
        nums@[1] != 0 ==> r == Ok::<u64, ExprError>(nums@[0] / nums@[1]),
        nums@[1] == 0 ==> (r matches Err(e) && e.idx_expr == idx_expr && e.kind
            == ExprErrorKind::FailedEvaluation && e.message@ == division_by_zero_message(idx_expr)),
{
    let lhs = nums[0];
    let rhs = nums[1];
    if rhs != 0 {
        Ok(lhs / rhs)
    } else {
        let mut message = String::new();
        push_str(&mut message, "due to division by 0 for operator at ");
        push_decimal(&mut message, idx_expr as u64);
        Err(ExprError { idx_expr, kind: ExprErrorKind::FailedEvaluation, message })
    }
}

/// The remainder of the operands; the divisor must not be zero.
pub fn oper_rem(_idx_expr: usize, nums: &[u64]) -> (r: Result<u64, ExprError>)
    requires
        nums@.len() >= 2,
        nums@[1] != 0,
    ensures
        r == Ok::<u64, ExprError>(nums@[0] % nums@[1]),
{
    let lhs = nums[0];
    let rhs = nums[1];
    Ok(lhs % rhs)
}

/// The shift amount `rhs` truncated to 32 bits and then taken modulo 64.
fn shift_amount(rhs: u64) -> (r: u32)
    ensures
        r < 64,
        r == rhs % 64,
{
    let t = rhs as u32;
    assert(t % 64 == (rhs % 64) as u32) by (bit_vector)
        requires
            t == rhs as u32,
    ;
    t % 64
}

pub fn oper_bit_lshift(_idx_expr: usize, nums: &[u64]) -> (r: Result<u64, ExprError>)
    requires
        nums@.len() >= 2,
    ensures
        r == Ok::<u64, ExprError>(nums@[0] << (nums@[1] % 64)),
{
    let lhs = nums[0];
    let rhs = nums[1];
    let s = shift_amount(rhs);
    Ok(lhs << s)
}

pub fn oper_bit_rshift(_idx_expr: usize, nums: &[u64]) -> (r: Result<u64, ExprError>)
    requires
        nums@.len() >= 2,
    ensures
        r == Ok::<u64, ExprError>(nums@[0] >> (nums@[1] % 64)),
{
    let lhs = nums[0];
    let rhs = nums[1];
    let s = shift_amount(rhs);
    Ok(lhs >> s)
}

pub fn oper_lt(_idx_expr: usize, nums: &[u64]) -> (r: Result<u64, ExprError>)
    requires
        nums@.len() >= 2,
    ensures
        r == Ok::<u64, ExprError>(bool_u64(nums@[0] < nums@[1])),
{
    Ok(
        if nums[0] < nums[1] {
            1
        } else {
            0
        },
    )
}

pub fn oper_lte(_idx_expr: usize, nums: &[u64]) -> (r: Result<u64, ExprError>)
    requires
        nums@.len() >= 2,
    ensures
        r == Ok::<u64, ExprError>(bool_u64(nums@[0] <= nums@[1])),
{
    Ok(
        if nums[0] <= nums[1] {
            1
        } else {
            0
        },
    )
}

pub fn oper_gt(_idx_expr: usize, nums: &[u64]) -> (r: Result<u64, ExprError>)
    requires
        nums@.len() >= 2,
    ensures
        r == Ok::<u64, ExprError>(bool_u64(nums@[0] > nums@[1])),
{
    Ok(
        if nums[0] > nums[1] {
            1
        } else {
            0
        },
    )
}

pub fn oper_gte(_idx_expr: usize, nums: &[u64]) -> (r: Result<u64, ExprError>)
    requires
        nums@.len() >= 2,
    ensures
        r == Ok::<u64, ExprError>(bool_u64(nums@[0] >= nums@[1])),
{
    Ok(
        if nums[0] >= nums[1] {
            1
        } else {
            0
        },
    )
}

pub fn oper_eq(_idx_expr: usize, nums: &[u64]) -> (r: Result<u64, ExprError>)
    requires
        nums@.len() >= 2,
    ensures
        r == Ok::<u64, ExprError>(bool_u64(nums@[0] == nums@[1])),
{
    Ok(
        if nums[0] == nums[1] {
            1
        } else {
            0
        },
    )
}

pub fn oper_ne(_idx_expr: usize, nums: &[u64]) -> (r: Result<u64, ExprError>)
    requires
        nums@.len() >= 2,
    ensures
        r == Ok::<u64, ExprError>(bool_u64(nums@[0] != nums@[1])),
{
    Ok(
        if nums[0] != nums[1] {
            1
        } else {
            0
        },
    )
}

pub fn oper_bit_and(_idx_expr: usize, nums: &[u64]) -> (r: Result<u64, ExprError>)
    requires
        nums@.len() >= 2,
    ensures
        r == Ok::<u64, ExprError>(nums@[0] & nums@[1]),
{
    Ok(nums[0] & nums[1])
}

pub fn oper_bit_xor(_idx_expr: usize, nums: &[u64]) -> (r: Result<u64, ExprError>)
    requires
        nums@.len() >= 2,
    ensures
        r == Ok::<u64, ExprError>(nums@[0] ^ nums@[1]),
{
    Ok(nums[0] ^ nums[1])
}

pub fn oper_bit_or(_idx_expr: usize, nums: &[u64]) -> (r: Result<u64, ExprError>)
    requires
        nums@.len() >= 2,
    ensures
        r == Ok::<u64, ExprError>(nums@[0] | nums@[1]),
{
    Ok(nums[0] | nums[1])
}

/// The operator table, entry by entry: kind, precedence, number of
/// parameters, associativity, evaluation and name.
pub open spec fn oper_entry(i: int) -> (OperKind, u8, u8, OperAssoc, OperEval, Seq<char>) {
    if i == 0 {
        (OperKind::OpenParen, 1, 0, OperAssoc::Nil, OperEval::Nop, "("@)
    } else if i == 1 {
        (OperKind::CloseParen, 1, 0, OperAssoc::Nil, OperEval::Nop, ")"@)
    } else if i == 2 {
        (OperKind::Regular, 4, 2, OperAssoc::Left, OperEval::Add, "+"@)
    } else if i == 3 {
        (OperKind::Regular, 4, 2, OperAssoc::Left, OperEval::Sub, "-"@)
    } else if i == 4 {
        (OperKind::Regular, 2, 1, OperAssoc::Right, OperEval::Nop, "+"@)
    } else if i == 5 {
        (OperKind::Regular, 2, 1, OperAssoc::Right, OperEval::UnaryMinus, "-"@)
    } else if i == 6 {
        (OperKind::Regular, 2, 1, OperAssoc::Right, OperEval::LogicalNot, "!"@)
    } else if i == 7 {
        (OperKind::Regular, 2, 1, OperAssoc::Right, OperEval::BitNot, "~"@)
    } else if i == 8 {
        (OperKind::Regular, 3, 2, OperAssoc::Left, OperEval::Mul, "*"@)
    } else if i == 9 {
        (OperKind::Regular, 3, 2, OperAssoc::Left, OperEval::Div, "/"@)
    } else if i == 10 {
        (OperKind::Regular, 3, 2, OperAssoc::Left, OperEval::Rem, "%"@)
    } else if i == 11 {
        (OperKind::Regular, 5, 2, OperAssoc::Left, OperEval::BitLshift, "<<"@)
    } else if i == 12 {
        (OperKind::Regular, 5, 2, OperAssoc::Left, OperEval::BitRshift, ">>"@)
    } else if i == 13 {
        (OperKind::Regular, 6, 2, OperAssoc::Left, OperEval::Lt, "<"@)
    } else if i == 14 {
        (OperKind::Regular, 6, 2, OperAssoc::Left, OperEval::Lte, "<="@)
    } else if i == 15 {
        (OperKind::Regular, 6, 2, OperAssoc::Left, OperEval::Gt, ">"@)
    } else if i == 16 {
        (OperKind::Regular, 6, 2, OperAssoc::Left, OperEval::Gte, ">="@)
    } else if i == 17 {
        (OperKind::Regular, 7, 2, OperAssoc::Left, OperEval::Eq, "=="@)
    } else if i == 18 {
        (OperKind::Regular, 7, 2, OperAssoc::Left, OperEval::Ne, "!="@)
    } else if i == 19 {
        (OperKind::Regular, 8, 2, OperAssoc::Left, OperEval::BitAnd, "&"@)
    } else if i == 20 {
        (OperKind::Regular, 9, 2, OperAssoc::Left, OperEval::BitXor, "^"@)
    } else if i == 21 {
        (OperKind::Regular, 10, 2, OperAssoc::Left, OperEval::BitOr, "|"@)
    } else if i == 22 {
        (OperKind::Regular, 11, 2, OperAssoc::Left, OperEval::Nop, "&&"@)
    } else if i == 23 {
        (OperKind::Regular, 12, 2, OperAssoc::Left, OperEval::Nop, "||"@)
    } else {
        (OperKind::ParamSep, 13, 2, OperAssoc::Left, OperEval::Nop, ","@)
    }
}

/// The operators of the expression language. Operators that share a name
/// are listed with the one that takes more parameters first (binary `-`
/// before unary `-`), and the table holds exactly one open parenthesis, one
/// close parenthesis and one parameter separator.
pub fn opers() -> (r: Vec<Oper<'static>>)
    ensures
        r@.len() == 25,
        forall|i: int|
            0 <= i < 25 ==> oper_entry(i) == ((#[trigger] r@[i]).kind, r@[i].prec, r@[i].params,
                r@[i].assoc, r@[i].evalfn, r@[i].name@),
{
    let mut v: Vec<Oper<'static>> = Vec::new();
    v.push(Oper { kind: OperKind::OpenParen, prec: 1, params: 0, assoc: OperAssoc::Nil, evalfn: OperEval::Nop, name: "(", syntax: "(<expr>", help: "Begin expression." });
    v.push(Oper { kind: OperKind::CloseParen, prec: 1, params: 0, assoc: OperAssoc::Nil, evalfn: OperEval::Nop, name: ")", syntax: "<expr>)", help: "End expression." });
    v.push(Oper { kind: OperKind::Regular, prec: 4, params: 2, assoc: OperAssoc::Left, evalfn: OperEval::Add, name: "+", syntax: "<expr> + <expr>", help: "Addition." });
    v.push(Oper { kind: OperKind::Regular, prec: 4, params: 2, assoc: OperAssoc::Left, evalfn: OperEval::Sub, name: "-", syntax: "<expr> - <expr>", help: "Subtraction." });
    v.push(Oper { kind: OperKind::Regular, prec: 2, params: 1, assoc: OperAssoc::Right, evalfn: OperEval::Nop, name: "+", syntax: "+<expr>", help: "Unary plus." });
    v.push(Oper { kind: OperKind::Regular, prec: 2, params: 1, assoc: OperAssoc::Right, evalfn: OperEval::UnaryMinus, name: "-", syntax: "-<expr>", help: "Unary minus." });
    v.push(Oper { kind: OperKind::Regular, prec: 2, params: 1, assoc: OperAssoc::Right, evalfn: OperEval::LogicalNot, name: "!", syntax: "!<expr>", help: "Logical NOT." });
    v.push(Oper { kind: OperKind::Regular, prec: 2, params: 1, assoc: OperAssoc::Right, evalfn: OperEval::BitNot, name: "~", syntax: "~<expr>", help: "Bitwise NOT." });
    v.push(Oper { kind: OperKind::Regular, prec: 3, params: 2, assoc: OperAssoc::Left, evalfn: OperEval::Mul, name: "*", syntax: "<expr> * <expr>", help: "Multiplication." });
    v.push(Oper { kind: OperKind::Regular, prec: 3, params: 2, assoc: OperAssoc::Left, evalfn: OperEval::Div, name: "/", syntax: "<expr> / <expr>", help: "Division." });
    v.push(Oper { kind: OperKind::Regular, prec: 3, params: 2, assoc: OperAssoc::Left, evalfn: OperEval::Rem, name: "%", syntax: "<expr> % <expr>", help: "Remainder." });
    v.push(Oper { kind: OperKind::Regular, prec: 5, params: 2, assoc: OperAssoc::Left, evalfn: OperEval::BitLshift, name: "<<", syntax: "<expr> << <expr>", help: "Bitwise left-shift." });
    v.push(Oper { kind: OperKind::Regular, prec: 5, params: 2, assoc: OperAssoc::Left, evalfn: OperEval::BitRshift, name: ">>", syntax: "<expr> >> <expr>", help: "Bitwise right-shift." });
    v.push(Oper { kind: OperKind::Regular, prec: 6, params: 2, assoc: OperAssoc::Left, evalfn: OperEval::Lt, name: "<", syntax: "<expr> < <expr>", help: "Less-than." });
    v.push(Oper { kind: OperKind::Regular, prec: 6, params: 2, assoc: OperAssoc::Left, evalfn: OperEval::Lte, name: "<=", syntax: "<expr> <= <expr>", help: "Less-than-or-equals." });
    v.push(Oper { kind: OperKind::Regular, prec: 6, params: 2, assoc: OperAssoc::Left, evalfn: OperEval::Gt, name: ">", syntax: "<expr> > <expr>", help: "Greater-than." });
    v.push(Oper { kind: OperKind::Regular, prec: 6, params: 2, assoc: OperAssoc::Left, evalfn: OperEval::Gte, name: ">=", syntax: "<expr> >= <expr>", help: "Greater-than-or-equals." });
    v.push(Oper { kind: OperKind::Regular, prec: 7, params: 2, assoc: OperAssoc::Left, evalfn: OperEval::Eq, name: "==", syntax: "<expr> == <expr>", help: "Equals." });
    v.push(Oper { kind: OperKind::Regular, prec: 7, params: 2, assoc: OperAssoc::Left, evalfn: OperEval::Ne, name: "!=", syntax: "<expr> != <expr>", help: "Not-equals." });
    v.push(Oper { kind: OperKind::Regular, prec: 8, params: 2, assoc: OperAssoc::Left, evalfn: OperEval::BitAnd, name: "&", syntax: "<expr> & <expr>", help: "Bitwise AND." });
    v.push(Oper { kind: OperKind::Regular, prec: 9, params: 2, assoc: OperAssoc::Left, evalfn: OperEval::BitXor, name: "^", syntax: "<expr> ^ <expr>", help: "Bitwise XOR." });
    v.push(Oper { kind: OperKind::Regular, prec: 10, params: 2, assoc: OperAssoc::Left, evalfn: OperEval::BitOr, name: "|", syntax: "<expr> | <expr>", help: "Bitwise OR." });
    v.push(Oper { kind: OperKind::Regular, prec: 11, params: 2, assoc: OperAssoc::Left, evalfn: OperEval::Nop, name: "&&", syntax: "<expr> && <expr>", help: "Logical AND." });
    v.push(Oper { kind: OperKind::Regular, prec: 12, params: 2, assoc: OperAssoc::Left, evalfn: OperEval::Nop, name: "||", syntax: "<expr> || <expr>", help: "Logical OR." });
    v.push(Oper { kind: OperKind::ParamSep, prec: 13, params: 2, assoc: OperAssoc::Left, evalfn: OperEval::Nop, name: ",", syntax: "<param1>, <param2>", help: "Parameter separator." });
    assert forall|i: int| 0 <= i < 25 implies oper_entry(i) == ((#[trigger] v@[i]).kind, v@[i].prec, v@[i].params, v@[i].assoc, v@[i].evalfn, v@[i].name@) by {}
    v
}

/// The operator table is well formed: no operator takes more than two
/// parameters, regular operators take at least one and at least as many as
/// their evaluation reads, right-associative (prefix) operators take
/// exactly one, parentheses have no
/// associativity, and the table has exactly one open parenthesis, one close
/// parenthesis and one parameter separator.
pub proof fn lemma_oper_table_shape()
    ensures
        forall|i: int|
            0 <= i < 25 ==> {
                let e = #[trigger] oper_entry(i);
                &&& e.2 < 3
                &&& (e.0 == OperKind::Regular ==> e.2 > 0)
                &&& (e.0 == OperKind::Regular ==> e.2 >= eval_arity(e.4))
                &&& (e.3 == OperAssoc::Right ==> e.2 == 1)
                &&& (e.0 == OperKind::OpenParen || e.0 == OperKind::CloseParen ==> e.3 == OperAssoc::Nil)
            },
        oper_entry(0).0 == OperKind::OpenParen,
        oper_entry(1).0 == OperKind::CloseParen,
        oper_entry(24).0 == OperKind::ParamSep,
        forall|i: int| 0 <= i < 25 && #[trigger] oper_entry(i).0 == OperKind::OpenParen ==> i == 0,
        forall|i: int| 0 <= i < 25 && #[trigger] oper_entry(i).0 == OperKind::CloseParen ==> i == 1,
        forall|i: int| 0 <= i < 25 && #[trigger] oper_entry(i).0 == OperKind::ParamSep ==> i == 24,
{
}

/// No two operators of the table share both name and associativity, and of
/// two operators with the same name but a different number of parameters the
/// one with more parameters comes first.
pub proof fn lemma_oper_table_names()
    ensures
        forall|i: int, j: int|
            0 <= i < 25 && 0 <= j < 25 && i != j ==> !(#[trigger] oper_entry(i).3 == #[trigger] oper_entry(j).3
                && oper_entry(i).5 == oper_entry(j).5),
        forall|i: int, j: int|
            0 <= i < 25 && 0 <= j < 25 && #[trigger] oper_entry(i).5 == #[trigger] oper_entry(j).5
                && oper_entry(i).2 > oper_entry(j).2 ==> i < j,
{
    reveal_strlit("!");
    reveal_strlit("!=");
    reveal_strlit("%");
    reveal_strlit("&");
    reveal_strlit("&&");
    reveal_strlit("(");
    reveal_strlit(")");
    reveal_strlit("*");
    reveal_strlit("+");
    reveal_strlit(",");
    reveal_strlit("-");
    reveal_strlit("/");
    reveal_strlit("<");
    reveal_strlit("<<");
    reveal_strlit("<=");
    reveal_strlit("==");
    reveal_strlit(">");
    reveal_strlit(">=");
    reveal_strlit(">>");
    reveal_strlit("^");
    reveal_strlit("|");
    reveal_strlit("||");
    reveal_strlit("~");
    assert forall|i: int, j: int|
        0 <= i < 25 && 0 <= j < 25 && i != j implies !(#[trigger] oper_entry(i).3 == #[trigger] oper_entry(j).3
            && oper_entry(i).5 == oper_entry(j).5) by {
        if oper_entry(i).5 == oper_entry(j).5 {
            assert(oper_entry(i).5.len() == oper_entry(j).5.len());
            assert(oper_entry(i).5[0] == oper_entry(j).5[0]);
            if oper_entry(i).5.len() > 1 {
                assert(oper_entry(i).5[1] == oper_entry(j).5[1]);
            }
        }
    }
    assert forall|i: int, j: int|
        0 <= i < 25 && 0 <= j < 25 && #[trigger] oper_entry(i).5 == #[trigger] oper_entry(j).5
            && oper_entry(i).2 > oper_entry(j).2 implies i < j by {
        assert(oper_entry(i).5.len() == oper_entry(j).5.len());
        assert(oper_entry(i).5[0] == oper_entry(j).5[0]);
    }
}

/// Wrapping a value around at `2^64` takes it modulo `2^64`.
pub proof fn lemma_wrap_is_mod(v: int)
    ensures
        wrap_u64(v) == (v % 0x1_0000_0000_0000_0000int) as u64,
{
    let m = 0x1_0000_0000_0000_0000int;
    let t = v % m;
    vstd::arithmetic::div_mod::lemma_mod_bound(v, m);
    vstd::arithmetic::div_mod::lemma_mod_add_multiples_vanish(t, m);
    vstd::arithmetic::div_mod::lemma_small_mod(t as nat, m as nat);
    assert((t + m) % m == t);
}

/// What each operator of the table computes, by its name: for every entry
/// `i` of the table and every operands `a = nums[0]`, `b = nums[1]` on which
/// it evaluated to `r` (what `Oper::eval` gives for that entry), binary `+`,
/// `-` and `*` give the sum, difference and product wrapped around at
/// `2^64`; unary `+` gives `a` and unary `-` gives `-a` wrapped; `!` gives 1
/// exactly when `a` is zero and `~` gives `u64::MAX - a`; `/` gives the
/// quotient and fails on a zero divisor; `%` gives the remainder; `<<` and
/// `>>` shift by `b` modulo 64; the comparisons give 1 exactly when they
/// hold and 0 otherwise; `&`, `^` and `|` are the bitwise operations; and
/// `&&`, `||` and the separator pass their first operand through, as the
/// table binds them to no evaluation of their own.
pub proof fn lemma_oper_table_semantics(i: int, nums: Seq<u64>, r: Result<u64, ExprError>, idx: usize)
    requires
        0 <= i < 25,
        oper_result_ok(oper_entry(i).4, nums, r, idx),
    ensures
        ({
            let name = oper_entry(i).5;
            let params = oper_entry(i).2;
            let a = nums[0];
            let b = nums[1];
            let m = 0x1_0000_0000_0000_0000int;
            &&& name == "+"@ && params == 2 ==> r == Ok::<u64, ExprError>(((a + b) % m) as u64)
            &&& name == "-"@ && params == 2 ==> r == Ok::<u64, ExprError>(((a - b) % m) as u64)
            &&& name == "*"@ ==> r == Ok::<u64, ExprError>(((a * b) % m) as u64)
            &&& name == "+"@ && params == 1 ==> r == Ok::<u64, ExprError>(a)
            &&& name == "-"@ && params == 1 ==> r == Ok::<u64, ExprError>(((0 - a) % m) as u64)
            &&& name == "!"@ ==> r == Ok::<u64, ExprError>(if a == 0 { 1u64 } else { 0u64 })
            &&& name == "~"@ ==> r == Ok::<u64, ExprError>((u64::MAX - a) as u64)
            &&& name == "/"@ && b != 0 ==> r == Ok::<u64, ExprError>(a / b)
            &&& name == "/"@ && b == 0 ==> (r matches Err(e) && e.kind
                == ExprErrorKind::FailedEvaluation && e.idx_expr == idx)
            &&& name == "%"@ && b != 0 ==> r == Ok::<u64, ExprError>(a % b)
            &&& name == "<<"@ ==> r == Ok::<u64, ExprError>(a << (b % 64))
            &&& name == ">>"@ ==> r == Ok::<u64, ExprError>(a >> (b % 64))
            &&& name == "<"@ ==> r == Ok::<u64, ExprError>(if a < b { 1u64 } else { 0u64 })
            &&& name == "<="@ ==> r == Ok::<u64, ExprError>(if a <= b { 1u64 } else { 0u64 })
            &&& name == ">"@ ==> r == Ok::<u64, ExprError>(if a > b { 1u64 } else { 0u64 })
            &&& name == ">="@ ==> r == Ok::<u64, ExprError>(if a >= b { 1u64 } else { 0u64 })
            &&& name == "=="@ ==> r == Ok::<u64, ExprError>(if a == b { 1u64 } else { 0u64 })
            &&& name == "!="@ ==> r == Ok::<u64, ExprError>(if a != b { 1u64 } else { 0u64 })
            &&& name == "&"@ ==> r == Ok::<u64, ExprError>(a & b)
            &&& name == "^"@ ==> r == Ok::<u64, ExprError>(a ^ b)
            &&& name == "|"@ ==> r == Ok::<u64, ExprError>(a | b)
            &&& name == "&&"@ || name == "||"@ || name == ","@ ==> r == Ok::<u64, ExprError>(a)
        }),
{
    reveal_strlit("!");
    reveal_strlit("!=");
    reveal_strlit("%");
    reveal_strlit("&");
    reveal_strlit("&&");
    reveal_strlit("(");
    reveal_strlit(")");
    reveal_strlit("*");
    reveal_strlit("+");
    reveal_strlit(",");
    reveal_strlit("-");
    reveal_strlit("/");
    reveal_strlit("<");
    reveal_strlit("<<");
    reveal_strlit("<=");
    reveal_strlit("==");
    reveal_strlit(">");
    reveal_strlit(">=");
    reveal_strlit(">>");
    reveal_strlit("^");
    reveal_strlit("|");
    reveal_strlit("||");
    reveal_strlit("~");
    let a = nums[0];
    let b = nums[1];
    let m = 0x1_0000_0000_0000_0000int;
    lemma_wrap_is_mod(a + b);
    lemma_wrap_is_mod(a - b);
    lemma_wrap_is_mod(a * b);
    lemma_wrap_is_mod(-a);
    assert(!a == (u64::MAX - a) as u64) by (bit_vector);
    // The characters of the names tell the names apart.
    assert("!"@.len() == 1 && "!"@[0] == '!');
    assert("!="@.len() == 2 && "!="@[0] == '!' && "!="@[1] == '=');
    assert("%"@.len() == 1 && "%"@[0] == '%');
    assert("&"@.len() == 1 && "&"@[0] == '&');
    assert("&&"@.len() == 2 && "&&"@[0] == '&' && "&&"@[1] == '&');
    assert("("@.len() == 1 && "("@[0] == '(');
    assert(")"@.len() == 1 && ")"@[0] == ')');
    assert("*"@.len() == 1 && "*"@[0] == '*');
    assert("+"@.len() == 1 && "+"@[0] == '+');
    assert(","@.len() == 1 && ","@[0] == ',');
    assert("-"@.len() == 1 && "-"@[0] == '-');
    assert("/"@.len() == 1 && "/"@[0] == '/');
    assert("<"@.len() == 1 && "<"@[0] == '<');
    assert("<<"@.len() == 2 && "<<"@[0] == '<' && "<<"@[1] == '<');
    assert("<="@.len() == 2 && "<="@[0] == '<' && "<="@[1] == '=');
    assert("=="@.len() == 2 && "=="@[0] == '=' && "=="@[1] == '=');
    assert(">"@.len() == 1 && ">"@[0] == '>');
    assert(">="@.len() == 2 && ">="@[0] == '>' && ">="@[1] == '=');
    assert(">>"@.len() == 2 && ">>"@[0] == '>' && ">>"@[1] == '>');
    assert("^"@.len() == 1 && "^"@[0] == '^');
    assert("|"@.len() == 1 && "|"@[0] == '|');
    assert("||"@.len() == 2 && "||"@[0] == '|' && "||"@[1] == '|');
    assert("~"@.len() == 1 && "~"@[0] == '~');
    // One case per entry of the table.
    if i == 0 {
    } else if i == 1 {
    } else if i == 2 {
    } else if i == 3 {
    } else if i == 4 {
    } else if i == 5 {
    } else if i == 6 {
    } else if i == 7 {
    } else if i == 8 {
    } else if i == 9 {
    } else if i == 10 {
    } else if i == 11 {
    } else if i == 12 {
    } else if i == 13 {
    } else if i == 14 {
    } else if i == 15 {
    } else if i == 16 {
    } else if i == 17 {
    } else if i == 18 {
    } else if i == 19 {
    } else if i == 20 {
    } else if i == 21 {
    } else if i == 22 {
    } else if i == 23 {
    } else {
    }

}

impl<'a> Oper<'a> {
    /// Evaluates the operator on its operands.
    pub fn eval(&self, idx_expr: usize, nums: &[u64]) -> (r: Result<u64, ExprError>)
        requires
            nums@.len() >= eval_arity(self.evalfn),
            self.evalfn == OperEval::Rem ==> nums@[1] != 0,
        ensures
            oper_result_ok(self.evalfn, nums@, r, idx_expr),
    {
        match self.evalfn {
            OperEval::Nop => oper_nop(idx_expr, nums),
            OperEval::Add => oper_add(idx_expr, nums),
            OperEval::Sub => oper_sub(idx_expr, nums),
            OperEval::UnaryMinus => oper_unary_minus(idx_expr, nums),
            OperEval::LogicalNot => oper_logical_not(idx_expr, nums),
            OperEval::BitNot => oper_bit_not(idx_expr, nums),
            OperEval::Mul => oper_mul(idx_expr, nums),
            OperEval::Div => oper_div(idx_expr, nums),
            OperEval::Rem => oper_rem(idx_expr, nums),
            OperEval::BitLshift => oper_bit_lshift(idx_expr, nums),
            OperEval::BitRshift => oper_bit_rshift(idx_expr, nums),
            OperEval::Lt => oper_lt(idx_expr, nums),
            OperEval::Lte => oper_lte(idx_expr, nums),
            OperEval::Gt => oper_gt(idx_expr, nums),
            OperEval::Gte => oper_gte(idx_expr, nums),
            OperEval::Eq => oper_eq(idx_expr, nums),
            OperEval::Ne => oper_ne(idx_expr, nums),
            OperEval::BitAnd => oper_bit_and(idx_expr, nums),
            OperEval::BitXor => oper_bit_xor(idx_expr, nums),
            OperEval::BitOr => oper_bit_or(idx_expr, nums),
        }
    }
}

impl<'a> PartialEq for Oper<'a> {
    fn eq(&self, other: &Self) -> (r: bool) {
        self.kind == other.kind && self.prec == other.prec && self.params == other.params
            && self.assoc == other.assoc && str_eq(self.name, other.name)
    }
}

impl<'a> vstd::std_specs::cmp::PartialEqSpecImpl for Oper<'a> {
    open spec fn obeys_eq_spec() -> bool {
        true
    }

    /// Two operators are equal when they agree on kind, precedence, number of
    /// parameters, associativity and name.
    open spec fn eq_spec(&self, other: &Self) -> bool {
        &&& self.kind == other.kind
        &&& self.prec == other.prec
        &&& self.params == other.params
        &&& self.assoc == other.assoc
        &&& self.name@ == other.name@
    }
}

} // verus!
