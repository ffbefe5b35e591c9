use vstd::prelude::*;

use core::ops::Range;

use crate::spceval::operators::wrap_u64;
use crate::spceval::{ExprError, ExprErrorKind};
use crate::text::{decimal, push_decimal, push_signed_decimal, push_str, signed_decimal};

verus! {

pub const KB: u64 = 0x400;

pub const MB: u64 = 0x100000;

pub const GB: u64 = 0x40000000;

pub const TB: u64 = 0x10000000000;

pub const PB: u64 = 0x4000000000000;

/// Functions take fewer parameters than this.
pub const MAX_FN_PARAMS: u8 = 255;

/// `u64::checked_pow` raises `base` to `exp`, or gives `None` when the true
/// power does not fit in a `u64`.
pub assume_specification[ u64::checked_pow ](base: u64, exp: u32) -> (r: Option<u64>)
    ensures
        r == (if vstd::arithmetic::power::pow(base as int, exp as nat) <= u64::MAX {
            Some(vstd::arithmetic::power::pow(base as int, exp as nat) as u64)
        } else {
            None
        }),
;

/// Which evaluation a function performs.
#[derive(Debug, PartialEq, Eq, Structural, Copy, Clone)]
pub enum FuncEval {
    Avg,
    B2gb,
    B2kb,
    B2mb,
    B2pb,
    B2tb,
    Bit,
    Bits,
    Gb2b,
    IsPowOfTwo,
    Kb2b,
    Mb2b,
    Mb2kb,
    Mb2gb,
    Mb2tb,
    Mb2pb,
    Pb2b,
    Pow,
    Sum,
    Tb2b,
}

/// A function of the expression language.
#[derive(Debug)]
pub struct Func<'a> {
    pub name: &'a str,
    pub params: Range<u8>,
    pub syntax: &'a str,
    pub help: &'a str,
    pub evalfn: FuncEval,
}

/// The mathematical sum of the numbers.
pub open spec fn seq_sum(nums: Seq<u64>) -> int
    decreases nums.len(),
{
    if nums.len() == 0 {
        0
    } else {
        seq_sum(nums.drop_last()) + nums.last()
    }
}

/// Whether bit `i` of `v` is set.
pub open spec fn bit_set(v: u64, i: u64) -> bool {
    (v >> i) & 1u64 == 1u64
}

/// Whether `v` is a power of two.
pub open spec fn is_power_of_two(v: u64) -> bool {
    exists|k: u64| k < 64 && v == #[trigger] (1u64 << k)
}

/// The message of `pow` overflowing.
pub open spec fn pow_overflow_message(name: Seq<char>, base: u64, exp: u64) -> Seq<char> {
    "for function '"@ + name + "', "@ + decimal(base as nat) + " power "@ + decimal(exp as nat)
        + " overflowed"@
}

/// The message of a `pow` exponent beyond `u32::MAX`.
pub open spec fn pow_exponent_message(name: Seq<char>, base: u64, exp: u64) -> Seq<char> {
    "for function '"@ + name + "', "@ + decimal(base as nat) + " power "@ + decimal(exp as nat)
        + ", exponent overflowed (must be <= "@ + decimal(u32::MAX as nat) + ")"@
}

/// The message of an invalid shift for `bit`.
pub open spec fn bit_shift_message(name: Seq<char>, idx_expr: usize, n: u64) -> Seq<char> {
    "for function '"@ + name + "' at "@ + decimal(idx_expr as nat) + " due to invalid shift "@
        + signed_decimal((n as i64) as int) + " (must be 0..63)"@
}

/// The message of an invalid bit range for `bits`.
pub open spec fn bit_range_message(name: Seq<char>, idx_expr: usize, a: u64, b: u64) -> Seq<
    char,
> {
    "for function '"@ + name + "' at "@ + decimal(idx_expr as nat) + " due to invalid bit range ("@
        + signed_decimal((a as i64) as int) + ", "@ + signed_decimal((b as i64) as int)
        + ") (must be 0..63)"@
}

/// Whether `r` is a failed evaluation at `idx_expr` with the given message.
pub open spec fn is_eval_failure(r: Result<u64, ExprError>, idx_expr: usize, message: Seq<char>) -> bool {
    r matches Err(e) && e.idx_expr == idx_expr && e.kind == ExprErrorKind::FailedEvaluation
        && e.message@ == message
}

/// The sum of the numbers, wrapping around at `2^64`.
pub fn func_sum__(nums: &[u64]) -> (r: Result<u64, ExprError>)
    ensures
        r == Ok::<u64, ExprError>(wrap_u64(seq_sum(nums@))),
{
    let mut res: u64 = 0;
    let mut i: usize = 0;
    while i < nums.len()
        invariant
            i <= nums@.len(),
            res == wrap_u64(seq_sum(nums@.take(i as int))),
        decreases nums@.len() - i,
    {
        assert(nums@.take(i + 1).drop_last() =~= nums@.take(i as int));
        res = res.wrapping_add(nums[i]);
        i = i + 1;
    }
    assert(nums@.take(nums@.len() as int) =~= nums@);
    Ok(res)
}

/// Taking one number out of a sequence takes it out of the sum.
proof fn lemma_seq_sum_remove(nums: Seq<u64>, j: int)
    requires
        0 <= j < nums.len(),
    ensures
        seq_sum(nums) == seq_sum(nums.remove(j)) + nums[j],
    decreases nums.len(),
{
    if j == nums.len() - 1 {
        assert(nums.remove(j) =~= nums.drop_last());
    } else {
        lemma_seq_sum_remove(nums.drop_last(), j);
        assert(nums.remove(j).drop_last() =~= nums.drop_last().remove(j));
        assert(nums.remove(j).last() == nums.last());
    }
}

/// The sum does not depend on the order of the numbers: two sequences that
/// hold the same numbers, each as often, have the same sum, and so `sum`
/// gives the same result for every order of its operands.
pub proof fn lemma_sum_order_independent(a: Seq<u64>, b: Seq<u64>)
    requires
        a.to_multiset() == b.to_multiset(),
    ensures
        seq_sum(a) == seq_sum(b),
        wrap_u64(seq_sum(a)) == wrap_u64(seq_sum(b)),
    decreases a.len(),
{
    broadcast use vstd::seq_lib::group_to_multiset_ensures;

    if a.len() == 0 {
        assert(b.to_multiset().len() == 0);
        assert(b =~= Seq::<u64>::empty());
    } else {
        let x = a.last();
        assert(a.remove(a.len() - 1) =~= a.drop_last());
        assert(a.to_multiset().count(x) > 0) by {
            assert(a.contains(x)) by {
                assert(a[a.len() - 1] == x);
            }
        }
        assert(b.contains(x));
        let j = choose|j: int| 0 <= j < b.len() && b[j] == x;
        assert(a.drop_last().to_multiset() == b.remove(j).to_multiset());
        lemma_sum_order_independent(a.drop_last(), b.remove(j));
        lemma_seq_sum_remove(b, j);
    }
}

pub fn func_sum(_func: &Func, _idx_expr: usize, nums: &[u64]) -> (r: Result<u64, ExprError>)
    ensures
        r == Ok::<u64, ExprError>(wrap_u64(seq_sum(nums@))),
{
    func_sum__(nums)
}

/// The sum of the numbers, which lies between zero and `u64::MAX` times
/// their count.
proof fn lemma_seq_sum_bounds(nums: Seq<u64>)
    ensures
        0 <= seq_sum(nums) <= nums.len() * u64::MAX,
    decreases nums.len(),
{
    if nums.len() > 0 {
        lemma_seq_sum_bounds(nums.drop_last());
    }
}

/// The average of the numbers: their exact sum divided by their count,
/// rounded down.
pub fn func_avg(_func: &Func, _idx_expr: usize, nums: &[u64]) -> (r: Result<u64, ExprError>)
    requires
        nums@.len() > 0,
    ensures
        r == Ok::<u64, ExprError>((seq_sum(nums@) / (nums@.len() as int)) as u64),
{
    // The sum is kept in 128 bits, where it cannot overflow.
    let mut total: u128 = 0;
    let mut i: usize = 0;
    while i < nums.len()
        invariant
            i <= nums@.len(),
            total == seq_sum(nums@.take(i as int)),
        decreases nums@.len() - i,
    {
        assert(nums@.take(i + 1).drop_last() =~= nums@.take(i as int));
        proof {
            lemma_seq_sum_bounds(nums@.take(i as int));
            assert(i * u64::MAX + u64::MAX <= u128::MAX) by (nonlinear_arith)
                requires
                    i <= usize::MAX,
            ;
        }
        total = total + nums[i] as u128;
        i = i + 1;
    }
    assert(nums@.take(nums@.len() as int) =~= nums@);
    let n = nums.len() as u128;
    proof {
        lemma_seq_sum_bounds(nums@);
        assert(total / n <= u64::MAX) by (nonlinear_arith)
            requires
                0 <= total <= n * u64::MAX,
                n > 0,
        ;
    }
    let avg = total / n;
    Ok(avg as u64)
}

pub fn func_b2kb(_func: &Func, _idx_expr: usize, nums: &[u64]) -> (r: Result<u64, ExprError>)
    requires
        nums@.len() >= 1,
    ensures
        r == Ok::<u64, ExprError>(nums@[0] / KB),
{
    Ok(nums[0] / KB)
}

pub fn func_kb2b(_func: &Func, _idx_expr: usize, nums: &[u64]) -> (r: Result<u64, ExprError>)
    requires
        nums@.len() >= 1,
        nums@[0] * KB <= u64::MAX,
    ensures
        r == Ok::<u64, ExprError>((nums@[0] * KB) as u64),
{
    Ok(nums[0] * KB)
}

pub fn func_b2mb(_func: &Func, _idx_expr: usize, nums: &[u64]) -> (r: Result<u64, ExprError>)
    requires
        nums@.len() >= 1,
    ensures
        r == Ok::<u64, ExprError>(nums@[0] / MB),
{
    Ok(nums[0] / MB)
}

pub fn func_mb2b(_func: &Func, _idx_expr: usize, nums: &[u64]) -> (r: Result<u64, ExprError>)
    requires
        nums@.len() >= 1,
        nums@[0] * MB <= u64::MAX,
    ensures
        r == Ok::<u64, ExprError>((nums@[0] * MB) as u64),
{
    Ok(nums[0] * MB)
}

/// Megabytes to kilobytes: the integer half multiplies by `KB`.
pub fn func_mb2kb(_func: &Func, _idx_expr: usize, nums: &[u64]) -> (r: Result<u64, ExprError>)
    requires
        nums@.len() >= 1,
        nums@[0] * KB <= u64::MAX,
    ensures
        r == Ok::<u64, ExprError>((nums@[0] * KB) as u64),
{
    Ok(nums[0] * KB)
}

pub fn func_mb2gb(_func: &Func, _idx_expr: usize, nums: &[u64]) -> (r: Result<u64, ExprError>)
    requires
        nums@.len() >= 1,
    ensures
        r == Ok::<u64, ExprError>(nums@[0] / KB),
{
    Ok(nums[0] / KB)
}

pub fn func_mb2tb(_func: &Func, _idx_expr: usize, nums: &[u64]) -> (r: Result<u64, ExprError>)
    requires
        nums@.len() >= 1,
    ensures
        r == Ok::<u64, ExprError>(nums@[0] / MB),
{
    Ok(nums[0] / MB)
}

pub fn func_mb2pb(_func: &Func, _idx_expr: usize, nums: &[u64]) -> (r: Result<u64, ExprError>)
    requires
        nums@.len() >= 1,
    ensures
        r == Ok::<u64, ExprError>(nums@[0] / GB),
{
    Ok(nums[0] / GB)
}

pub fn func_b2gb(_func: &Func, _idx_expr: usize, nums: &[u64]) -> (r: Result<u64, ExprError>)
    requires
        nums@.len() >= 1,
    ensures
        r == Ok::<u64, ExprError>(nums@[0] / GB),
{
    Ok(nums[0] / GB)
}

pub fn func_gb2b(_func: &Func, _idx_expr: usize, nums: &[u64]) -> (r: Result<u64, ExprError>)
    requires
        nums@.len() >= 1,
        nums@[0] * GB <= u64::MAX,
    ensures
        r == Ok::<u64, ExprError>((nums@[0] * GB) as u64),
{
    Ok(nums[0] * GB)
}

pub fn func_b2tb(_func: &Func, _idx_expr: usize, nums: &[u64]) -> (r: Result<u64, ExprError>)
    requires
        nums@.len() >= 1,
    ensures
        r == Ok::<u64, ExprError>(nums@[0] / TB),
{
    Ok(nums[0] / TB)
}

pub fn func_tb2b(_func: &Func, _idx_expr: usize, nums: &[u64]) -> (r: Result<u64, ExprError>)
    requires
        nums@.len() >= 1,
        nums@[0] * TB <= u64::MAX,
    ensures
        r == Ok::<u64, ExprError>((nums@[0] * TB) as u64),
{
    Ok(nums[0] * TB)
}

pub fn func_b2pb(_func: &Func, _idx_expr: usize, nums: &[u64]) -> (r: Result<u64, ExprError>)
    requires
        nums@.len() >= 1,
    ensures
        r == Ok::<u64, ExprError>(nums@[0] / PB),
{
    Ok(nums[0] / PB)
}

pub fn func_pb2b(_func: &Func, _idx_expr: usize, nums: &[u64]) -> (r: Result<u64, ExprError>)
    requires
        nums@.len() >= 1,
        nums@[0] * PB <= u64::MAX,
    ensures
        r == Ok::<u64, ExprError>((nums@[0] * PB) as u64),
{
    Ok(nums[0] * PB)
}

/// Raises the first number to the power of the second. An exponent beyond
/// `u32::MAX`, or a power that does not fit in 64 bits, fails.
pub fn func_pow(func: &Func, idx_expr: usize, nums: &[u64]) -> (r: Result<u64, ExprError>)
    requires
        nums@.len() >= 2,
    ensures
        nums@[1] > u32::MAX ==> is_eval_failure(
            r,
            idx_expr,
            pow_exponent_message(func.name@, nums@[0], nums@[1]),
        ),
        nums@[1] <= u32::MAX && vstd::arithmetic::power::pow(nums@[0] as int, nums@[1] as nat)
            <= u64::MAX ==> r == Ok::<u64, ExprError>(
            vstd::arithmetic::power::pow(nums@[0] as int, nums@[1] as nat) as u64,
        ),
        nums@[1] <= u32::MAX && vstd::arithmetic::power::pow(nums@[0] as int, nums@[1] as nat)
            > u64::MAX ==> is_eval_failure(
            r,
            idx_expr,
            pow_overflow_message(func.name@, nums@[0], nums@[1]),
        ),
{
    let base = nums[0];
    let exp = nums[1];
    if exp <= u32::MAX as u64 {
        match base.checked_pow(exp as u32) {
            Some(integer) => Ok(integer),
            None => {
                let mut message = String::new();
                push_str(&mut message, "for function '");
                push_str(&mut message, func.name);
                push_str(&mut message, "', ");
                push_decimal(&mut message, base);
                push_str(&mut message, " power ");
                push_decimal(&mut message, exp);
                push_str(&mut message, " overflowed");
                Err(ExprError::new(idx_expr, ExprErrorKind::FailedEvaluation, message))
            },
        }
    } else {
        let mut message = String::new();
        push_str(&mut message, "for function '");
        push_str(&mut message, func.name);
        push_str(&mut message, "', ");
        push_decimal(&mut message, base);
        push_str(&mut message, " power ");
        push_decimal(&mut message, exp);
        push_str(&mut message, ", exponent overflowed (must be <= ");
        push_decimal(&mut message, u32::MAX as u64);
        push_str(&mut message, ")");
        Err(ExprError::new(idx_expr, ExprErrorKind::FailedEvaluation, message))
    }
}

/// Sets bit `n`; a bit position outside `0..63` fails.
pub fn func_bit(func: &Func, idx_expr: usize, nums: &[u64]) -> (r: Result<u64, ExprError>)
    requires
        nums@.len() >= 1,
    ensures
        nums@[0] < 64 ==> r == Ok::<u64, ExprError>(1u64 << nums@[0]),
        nums@[0] >= 64 ==> is_eval_failure(
            r,
            idx_expr,
            bit_shift_message(func.name@, idx_expr, nums@[0]),
        ),
{
    let shift = nums[0];
    if shift < 64 {
        Ok(1u64 << shift)
    } else {
        let mut message = String::new();
        push_str(&mut message, "for function '");
        push_str(&mut message, func.name);
        push_str(&mut message, "' at ");
        push_decimal(&mut message, idx_expr as u64);
        push_str(&mut message, " due to invalid shift ");
        push_signed_decimal(&mut message, nums[0] as i64);
        push_str(&mut message, " (must be 0..63)");
        Err(ExprError::new(idx_expr, ExprErrorKind::FailedEvaluation, message))
    }
}

proof fn lemma_or_bit(x: u64, n: u64, i: u64)
    requires
        n < 64,
        i < 64,
    ensures
        bit_set(x | (1u64 << n), i) == (bit_set(x, i) || i == n),
{
    assert(((x | (1u64 << n)) >> i) & 1u64 == 1u64 <==> ((x >> i) & 1u64 == 1u64 || i == n))
        by (bit_vector)
        requires
            n < 64,
            i < 64,
    ;
}

proof fn lemma_zero_bits()
    ensures
        forall|i: u64| i < 64 ==> !#[trigger] bit_set(0u64, i),
{
    assert forall|i: u64| i < 64 implies !#[trigger] bit_set(0u64, i) by {
        assert((0u64 >> i) & 1u64 == 0u64) by (bit_vector);
    }
}

/// Sets the bits from the smaller to the larger of the two numbers; a
/// position outside `0..63` fails.
pub fn func_bits(func: &Func, idx_expr: usize, nums: &[u64]) -> (r: Result<u64, ExprError>)
    requires
        nums@.len() >= 2,
    ensures
        ({
            let lo = if nums@[0] <= nums@[1] { nums@[0] } else { nums@[1] };
            let hi = if nums@[0] <= nums@[1] { nums@[1] } else { nums@[0] };
            &&& lo < 64 && hi < 64 ==> (r matches Ok(v) && forall|i: u64|
                i < 64 ==> (#[trigger] bit_set(v, i) <==> lo <= i <= hi))
            &&& !(lo < 64 && hi < 64) ==> is_eval_failure(
                r,
                idx_expr,
                bit_range_message(func.name@, idx_expr, nums@[0], nums@[1]),
            )
        }),
{
    let a = nums[0];
    let b = nums[1];
    let min = if a <= b { a } else { b };
    let max = if a <= b { b } else { a };
    if min < 64 && max < 64 {
        let mut integer: u64 = 0;
        let mut n: u64 = min;
        proof {
            lemma_zero_bits();
        }
        while n <= max
            invariant
                min <= n,
                n <= max + 1 || n == min,
                max < 64,
                forall|i: u64| i < 64 ==> (#[trigger] bit_set(integer, i) <==> min <= i < n),
            decreases max + 1 - n,
        {
            let ghost old_integer = integer;
            integer = integer | (1u64 << n);
            proof {
                assert forall|i: u64| i < 64 implies (#[trigger] bit_set(integer, i) <==> min <= i
                    < n + 1) by {
                    lemma_or_bit(old_integer, n, i);
                }
            }
            n = n + 1;
        }
        Ok(integer)
    } else {
        let mut message = String::new();
        push_str(&mut message, "for function '");
        push_str(&mut message, func.name);
        push_str(&mut message, "' at ");
        push_decimal(&mut message, idx_expr as u64);
        push_str(&mut message, " due to invalid bit range (");
        push_signed_decimal(&mut message, a as i64);
        push_str(&mut message, ", ");
        push_signed_decimal(&mut message, b as i64);
        push_str(&mut message, ") (must be 0..63)");
        Err(ExprError::new(idx_expr, ExprErrorKind::FailedEvaluation, message))
    }
}

proof fn lemma_single_bit(v: u64)
    requires
        v > 0,
        v & ((v - 1) as u64) == 0,
    ensures
        is_power_of_two(v),
{
    let t = vstd::std_specs::bits::u64_trailing_zeros(v);
    vstd::std_specs::bits::axiom_u64_trailing_zeros(v);
    let k = t as u64;
    assert(v == 1u64 << k) by (bit_vector)
        requires
            v > 0,
            v & ((v - 1) as u64) == 0,
            k < 64,
            (v >> k) & 1u64 == 1u64,
    ;
}

proof fn lemma_power_of_two_bits(k: u64)
    requires
        k < 64,
    ensures
        (1u64 << k) > 0,
        (1u64 << k) & (((1u64 << k) - 1) as u64) == 0,
{
    assert((1u64 << k) > 0 && (1u64 << k) & (((1u64 << k) - 1) as u64) == 0) by (bit_vector)
        requires
            k < 64,
    ;
}

/// What `bit(n)` gives is a power of two, and it is what `bits(n, n)` gives:
/// the value with bit `n` alone set.
pub proof fn lemma_bit_is_single_bit(n: u64)
    requires
        n < 64,
    ensures
        is_power_of_two(1u64 << n),
        forall|i: u64| i < 64 ==> (#[trigger] bit_set(1u64 << n, i) <==> n <= i && i <= n),
{
    assert(is_power_of_two(1u64 << n)) by {
        assert(n < 64 && (1u64 << n) == (1u64 << n));
    }
    assert forall|i: u64| i < 64 implies (#[trigger] bit_set(1u64 << n, i) <==> n <= i && i <= n) by {
        assert(((1u64 << n) >> i) & 1u64 == 1u64 <==> i == n) by (bit_vector)
            requires
                n < 64,
                i < 64,
        ;
    }
}

/// `1` when the number is a power of two, `0` otherwise.
pub fn func_is_pow_of_two(_func: &Func, _idx_expr: usize, nums: &[u64]) -> (r: Result<
    u64,
    ExprError,
>)
    requires
        nums@.len() >= 1,
    ensures
        r == Ok::<u64, ExprError>(if is_power_of_two(nums@[0]) { 1u64 } else { 0u64 }),
{
    let val = nums[0];
    let integer: u64 = if val > 0 {
        if val & (val - 1) == 0 {
            1
        } else {
            0
        }
    } else {
        0
    };
    proof {
        if val > 0 && val & ((val - 1) as u64) == 0 {
            lemma_single_bit(val);
        }
        if is_power_of_two(val) {
            let k = choose|k: u64| k < 64 && val == #[trigger] (1u64 << k);
            lemma_power_of_two_bits(k);
        }
    }
    Ok(integer)
}

/// The function table, entry by entry: name, range of the number of
/// parameters and evaluation.
pub open spec fn func_entry(i: int) -> (Seq<char>, u8, u8, FuncEval) {
    if i == 0 {
        ("avg"@, 2, MAX_FN_PARAMS, FuncEval::Avg)
    } else if i == 1 {
        ("b2gb"@, 1, 2, FuncEval::B2gb)
    } else if i == 2 {
        ("b2kb"@, 1, 2, FuncEval::B2kb)
    } else if i == 3 {
        ("b2mb"@, 1, 2, FuncEval::B2mb)
    } else if i == 4 {
        ("b2pb"@, 1, 2, FuncEval::B2pb)
    } else if i == 5 {
        ("b2tb"@, 1, 2, FuncEval::B2tb)
    } else if i == 6 {
        ("bit"@, 1, 2, FuncEval::Bit)
    } else if i == 7 {
        ("bits"@, 2, 3, FuncEval::Bits)
    } else if i == 8 {
        ("gb2b"@, 1, 2, FuncEval::Gb2b)
    } else if i == 9 {
        ("is_pow_of_two"@, 1, 2, FuncEval::IsPowOfTwo)
    } else if i == 10 {
        ("kb2b"@, 1, 2, FuncEval::Kb2b)
    } else if i == 11 {
        ("mb2b"@, 1, 2, FuncEval::Mb2b)
    } else if i == 12 {
        ("mb2kb"@, 1, 2, FuncEval::Mb2kb)
    } else if i == 13 {
        ("mb2gb"@, 1, 2, FuncEval::Mb2gb)
    } else if i == 14 {
        ("mb2tb"@, 1, 2, FuncEval::Mb2tb)
    } else if i == 15 {
        ("mb2pb"@, 1, 2, FuncEval::Mb2pb)
    } else if i == 16 {
        ("pb2b"@, 1, 2, FuncEval::Pb2b)
    } else if i == 17 {
        ("pow"@, 2, 3, FuncEval::Pow)
    } else if i == 18 {
        ("sum"@, 2, MAX_FN_PARAMS, FuncEval::Sum)
    } else {
        ("tb2b"@, 1, 2, FuncEval::Tb2b)
    }
}

/// The functions of the expression language, sorted by name.
pub fn funcs() -> (r: Vec<Func<'static>>)
    ensures
        r@.len() == 20,
        forall|i: int|
            0 <= i < 20 ==> func_entry(i) == ((#[trigger] r@[i]).name@, r@[i].params.start,
                r@[i].params.end, r@[i].evalfn),
{
    let mut v: Vec<Func<'static>> = Vec::new();
    v.push(Func { name: "avg", params: Range { start: 2, end: MAX_FN_PARAMS }, syntax: "<n1>,<n2>[,<n3>...<nX>]", help: "Average", evalfn: FuncEval::Avg });
    v.push(Func { name: "b2gb", params: Range { start: 1, end: 2 }, syntax: "<n>", help: "Bytes to gigabytes", evalfn: FuncEval::B2gb });
    v.push(Func { name: "b2kb", params: Range { start: 1, end: 2 }, syntax: "<n>", help: "Bytes to kilobytes", evalfn: FuncEval::B2kb });
    v.push(Func { name: "b2mb", params: Range { start: 1, end: 2 }, syntax: "<n>", help: "Bytes to megabytes", evalfn: FuncEval::B2mb });
    v.push(Func { name: "b2pb", params: Range { start: 1, end: 2 }, syntax: "<n>", help: "Bytes to petabytes", evalfn: FuncEval::B2pb });
    v.push(Func { name: "b2tb", params: Range { start: 1, end: 2 }, syntax: "<n>", help: "Bytes to terabytes", evalfn: FuncEval::B2tb });
    v.push(Func { name: "bit", params: Range { start: 1, end: 2 }, syntax: "<n>", help: "Set nth bit (n is [0..63])", evalfn: FuncEval::Bit });
    v.push(Func { name: "bits", params: Range { start: 2, end: 3 }, syntax: "<n1>,<n2>", help: "Set bits from [n1..n2]", evalfn: FuncEval::Bits });
    v.push(Func { name: "gb2b", params: Range { start: 1, end: 2 }, syntax: "<n>", help: "Gigabytes to bytes", evalfn: FuncEval::Gb2b });
    v.push(Func { name: "is_pow_of_two", params: Range { start: 1, end: 2 }, syntax: "<n>", help: "Is power of 2", evalfn: FuncEval::IsPowOfTwo });
    v.push(Func { name: "kb2b", params: Range { start: 1, end: 2 }, syntax: "<n>", help: "Kilobytes to bytes", evalfn: FuncEval::Kb2b });
    v.push(Func { name: "mb2b", params: Range { start: 1, end: 2 }, syntax: "<n>", help: "Megabytes to bytes", evalfn: FuncEval::Mb2b });
    v.push(Func { name: "mb2kb", params: Range { start: 1, end: 2 }, syntax: "<n>", help: "Megabytes to kilobytes", evalfn: FuncEval::Mb2kb });
    v.push(Func { name: "mb2gb", params: Range { start: 1, end: 2 }, syntax: "<n>", help: "Megabytes to gigabytes", evalfn: FuncEval::Mb2gb });
    v.push(Func { name: "mb2tb", params: Range { start: 1, end: 2 }, syntax: "<n>", help: "Megabytes to terabytes", evalfn: FuncEval::Mb2tb });
    v.push(Func { name: "mb2pb", params: Range { start: 1, end: 2 }, syntax: "<n>", help: "Megabytes to petabytes", evalfn: FuncEval::Mb2pb });
    v.push(Func { name: "pb2b", params: Range { start: 1, end: 2 }, syntax: "<n>", help: "Petabytes to bytes", evalfn: FuncEval::Pb2b });
    v.push(Func { name: "pow", params: Range { start: 2, end: 3 }, syntax: "<n1>,<n2>", help: "Raise <n1> to power of <n2>", evalfn: FuncEval::Pow });
    v.push(Func { name: "sum", params: Range { start: 2, end: MAX_FN_PARAMS }, syntax: "<n1>,<n2>[,<n3>..<nX>]", help: "Sum", evalfn: FuncEval::Sum });
    v.push(Func { name: "tb2b", params: Range { start: 1, end: 2 }, syntax: "<n>", help: "Terabytes to bytes", evalfn: FuncEval::Tb2b });
    assert forall|i: int| 0 <= i < 20 implies func_entry(i) == ((#[trigger] v@[i]).name@, v@[i].params.start, v@[i].params.end, v@[i].evalfn) by {}
    v
}

/// The function table is well formed: every function takes at least one
/// parameter, at least as many as it reads, and fewer than
/// `MAX_FN_PARAMS`; every name is non-empty and starts with neither a digit
/// nor `_`; and no two functions share a name.
pub proof fn lemma_func_table_valid()
    ensures
        forall|i: int|
            0 <= i < 20 ==> {
                let e = #[trigger] func_entry(i);
                &&& e.1 < e.2
                &&& e.2 <= MAX_FN_PARAMS
                &&& e.1 >= func_min_operands(e.3)
                &&& e.0.len() > 0
                &&& !('0' <= e.0[0] && e.0[0] <= '9')
                &&& e.0[0] != '_'
            },
        forall|i: int, j: int|
            0 <= i < 20 && 0 <= j < 20 && i != j ==> #[trigger] func_entry(i).0 != #[trigger] func_entry(j).0,
{
    reveal_strlit("avg");
    reveal_strlit("b2gb");
    reveal_strlit("b2kb");
    reveal_strlit("b2mb");
    reveal_strlit("b2pb");
    reveal_strlit("b2tb");
    reveal_strlit("bit");
    reveal_strlit("bits");
    reveal_strlit("gb2b");
    reveal_strlit("is_pow_of_two");
    reveal_strlit("kb2b");
    reveal_strlit("mb2b");
    reveal_strlit("mb2gb");
    reveal_strlit("mb2kb");
    reveal_strlit("mb2pb");
    reveal_strlit("mb2tb");
    reveal_strlit("pb2b");
    reveal_strlit("pow");
    reveal_strlit("sum");
    reveal_strlit("tb2b");
    assert forall|i: int, j: int|
        0 <= i < 20 && 0 <= j < 20 && i != j implies #[trigger] func_entry(i).0 != #[trigger] func_entry(j).0 by {
        let a = func_entry(i).0;
        let b = func_entry(j).0;
        if a == b {
            assert(a.len() == b.len());
            assert(a[0] == b[0]);
            assert(a[1] == b[1]);
            assert(a[2] == b[2]);
            if a.len() > 3 {
                assert(a[3] == b[3]);
            }
            if a.len() > 4 {
                assert(a[4] == b[4]);
            }
        }
    }
}

/// The number of operands a function reads.
pub open spec fn func_min_operands(e: FuncEval) -> nat {
    match e {
        FuncEval::Sum => 0,
        FuncEval::Bits | FuncEval::Pow => 2,
        _ => 1,
    }
}

/// What a function needs of its operands: at least as many as it reads, and
/// for the conversions that multiply, a product that fits in 64 bits.
pub open spec fn func_requires(e: FuncEval, nums: Seq<u64>) -> bool {
    &&& nums.len() >= func_min_operands(e)
    &&& match e {
        FuncEval::Kb2b | FuncEval::Mb2kb => nums[0] * KB <= u64::MAX,
        FuncEval::Mb2b => nums[0] * MB <= u64::MAX,
        FuncEval::Gb2b => nums[0] * GB <= u64::MAX,
        FuncEval::Tb2b => nums[0] * TB <= u64::MAX,
        FuncEval::Pb2b => nums[0] * PB <= u64::MAX,
        _ => true,
    }
}

/// The integer result of a function that always succeeds.
pub open spec fn func_value(e: FuncEval, nums: Seq<u64>) -> u64 {
    let a = nums[0];
    match e {
        FuncEval::Sum => wrap_u64(seq_sum(nums)),
        FuncEval::Avg => (seq_sum(nums) / (nums.len() as int)) as u64,
        FuncEval::B2kb | FuncEval::Mb2gb => a / KB,
        FuncEval::B2mb | FuncEval::Mb2tb => a / MB,
        FuncEval::B2gb | FuncEval::Mb2pb => a / GB,
        FuncEval::B2tb => a / TB,
        FuncEval::B2pb => a / PB,
        FuncEval::Kb2b | FuncEval::Mb2kb => (a * KB) as u64,
        FuncEval::Mb2b => (a * MB) as u64,
        FuncEval::Gb2b => (a * GB) as u64,
        FuncEval::Tb2b => (a * TB) as u64,
        FuncEval::Pb2b => (a * PB) as u64,
        _ => if is_power_of_two(a) {
            1
        } else {
            0
        },
    }
}

/// What evaluating function `e` (named `name`) at `idx_expr` on `nums` gives.
pub open spec fn func_result_ok(
    e: FuncEval,
    name: Seq<char>,
    idx_expr: usize,
    nums: Seq<u64>,
    r: Result<u64, ExprError>,
) -> bool {
    match e {
        FuncEval::Pow => {
            let p = vstd::arithmetic::power::pow(nums[0] as int, nums[1] as nat);
            if nums[1] > u32::MAX {
                is_eval_failure(r, idx_expr, pow_exponent_message(name, nums[0], nums[1]))
            } else if p <= u64::MAX {
                r == Ok::<u64, ExprError>(p as u64)
            } else {
                is_eval_failure(r, idx_expr, pow_overflow_message(name, nums[0], nums[1]))
            }
        },
        FuncEval::Bit => {
            if nums[0] < 64 {
                r == Ok::<u64, ExprError>(1u64 << nums[0])
            } else {
                is_eval_failure(r, idx_expr, bit_shift_message(name, idx_expr, nums[0]))
            }
        },
        FuncEval::Bits => {
            let lo = if nums[0] <= nums[1] { nums[0] } else { nums[1] };
            let hi = if nums[0] <= nums[1] { nums[1] } else { nums[0] };
            if lo < 64 && hi < 64 {
                r matches Ok(v) && forall|i: u64|
                    i < 64 ==> (#[trigger] bit_set(v, i) <==> lo <= i <= hi)
            } else {
                is_eval_failure(r, idx_expr, bit_range_message(name, idx_expr, nums[0], nums[1]))
            }
        },
        _ => r == Ok::<u64, ExprError>(func_value(e, nums)),
    }
}

/// The powers of two among the `u64` values are `2^k` for `k` below 64.
proof fn lemma_power_of_two_is_pow2(v: u64)
    ensures
        is_power_of_two(v) <==> exists|k: u64| k < 64 && v == vstd::arithmetic::power2::pow2(k as nat),
{
    assert forall|k: u64| k < 64 implies (1u64 << k) == vstd::arithmetic::power2::pow2(k as nat) by {
        vstd::bits::lemma_u64_pow2_no_overflow(k as nat);
        vstd::bits::lemma_u64_shl_is_mul(1, k);
    }
    if is_power_of_two(v) {
        let k = choose|k: u64| k < 64 && v == #[trigger] (1u64 << k);
        assert(v == vstd::arithmetic::power2::pow2(k as nat));
    }
    if exists|k: u64| k < 64 && v == vstd::arithmetic::power2::pow2(k as nat) {
        let k = choose|k: u64| k < 64 && v == vstd::arithmetic::power2::pow2(k as nat);
        assert(v == (1u64 << k));
    }
}

/// The wrapped sum is the exact sum modulo `2^64`.
proof fn lemma_wrap_sum(nums: Seq<u64>)
    ensures
        wrap_u64(seq_sum(nums)) == (seq_sum(nums) % 0x1_0000_0000_0000_0000int) as u64,
{
    crate::spceval::operators::lemma_wrap_is_mod(seq_sum(nums));
}

/// What each function of the table computes, by its name: for every entry
/// `i` of the table and every operands `nums` (with `a = nums[0]`,
/// `b = nums[1]`) on which it evaluated to `r` (what `Func::eval` gives for
/// that entry), `sum` gives the sum wrapped at `2^64`; `avg` the exact sum
/// divided by the count; the byte-unit conversions divide or multiply by the
/// powers of 1024 that their names say (`b2mb` divides by `2^20`, `pb2b`
/// multiplies by `2^50`, and so on); `bit` sets exactly bit `a` and fails
/// from 64 on; `bits` sets exactly the bits between its operands and fails
/// unless both are below 64; `is_pow_of_two` gives 1 exactly for the powers
/// of two; and `pow` gives `a` to the power `b`, failing when the exponent
/// exceeds `u32::MAX` or the power does not fit in 64 bits.
pub proof fn lemma_func_table_semantics(i: int, nums: Seq<u64>, r: Result<u64, ExprError>, idx: usize)
    requires
        0 <= i < 20,
        func_result_ok(func_entry(i).3, func_entry(i).0, idx, nums, r),
    ensures
        ({
            let name = func_entry(i).0;
            let a = nums[0];
            let b = nums[1];
            let lo = if a <= b { a } else { b };
            let hi = if a <= b { b } else { a };
            let p = vstd::arithmetic::power::pow(a as int, b as nat);
            &&& name == "sum"@ ==> r == Ok::<u64, ExprError>((seq_sum(nums) % 0x1_0000_0000_0000_0000int) as u64)
            &&& name == "avg"@ ==> r == Ok::<u64, ExprError>((seq_sum(nums) / (nums.len() as int)) as u64)
            &&& name == "b2kb"@ ==> r == Ok::<u64, ExprError>(a / 1024)
            &&& name == "b2mb"@ ==> r == Ok::<u64, ExprError>(a / 1048576)
            &&& name == "b2gb"@ ==> r == Ok::<u64, ExprError>(a / 1073741824)
            &&& name == "b2tb"@ ==> r == Ok::<u64, ExprError>(a / 1099511627776)
            &&& name == "b2pb"@ ==> r == Ok::<u64, ExprError>(a / 1125899906842624)
            &&& name == "kb2b"@ ==> r == Ok::<u64, ExprError>((a * 1024) as u64)
            &&& name == "mb2b"@ ==> r == Ok::<u64, ExprError>((a * 1048576) as u64)
            &&& name == "gb2b"@ ==> r == Ok::<u64, ExprError>((a * 1073741824) as u64)
            &&& name == "tb2b"@ ==> r == Ok::<u64, ExprError>((a * 1099511627776) as u64)
            &&& name == "pb2b"@ ==> r == Ok::<u64, ExprError>((a * 1125899906842624) as u64)
            &&& name == "mb2kb"@ ==> r == Ok::<u64, ExprError>((a * 1024) as u64)
            &&& name == "mb2gb"@ ==> r == Ok::<u64, ExprError>(a / 1024)
            &&& name == "mb2tb"@ ==> r == Ok::<u64, ExprError>(a / 1048576)
            &&& name == "mb2pb"@ ==> r == Ok::<u64, ExprError>(a / 1073741824)
            &&& name == "bit"@ && a < 64 ==> (r matches Ok(v) && forall|j: u64|
                j < 64 ==> (#[trigger] bit_set(v, j) <==> j == a))
            &&& name == "bit"@ && a >= 64 ==> (r matches Err(e) && e.kind
                == ExprErrorKind::FailedEvaluation && e.idx_expr == idx)
            &&& name == "bits"@ && hi < 64 ==> (r matches Ok(v) && forall|j: u64|
                j < 64 ==> (#[trigger] bit_set(v, j) <==> lo <= j <= hi))
            &&& name == "bits"@ && hi >= 64 ==> (r matches Err(e) && e.kind
                == ExprErrorKind::FailedEvaluation && e.idx_expr == idx)
            &&& name == "is_pow_of_two"@ ==> r == Ok::<u64, ExprError>(
                if exists|k: u64| k < 64 && a == vstd::arithmetic::power2::pow2(k as nat) {
                    1u64
                } else {
                    0u64
                },
            )
            &&& name == "pow"@ && b <= u32::MAX && p <= u64::MAX ==> r == Ok::<u64, ExprError>(p as u64)
            &&& name == "pow"@ && !(b <= u32::MAX && p <= u64::MAX) ==> (r matches Err(e) && e.kind
                == ExprErrorKind::FailedEvaluation && e.idx_expr == idx)
        }),
{
    reveal_strlit("avg");
    reveal_strlit("b2gb");
    reveal_strlit("b2kb");
    reveal_strlit("b2mb");
    reveal_strlit("b2pb");
    reveal_strlit("b2tb");
    reveal_strlit("bit");
    reveal_strlit("bits");
    reveal_strlit("gb2b");
    reveal_strlit("is_pow_of_two");
    reveal_strlit("kb2b");
    reveal_strlit("mb2b");
    reveal_strlit("mb2kb");
    reveal_strlit("mb2gb");
    reveal_strlit("mb2tb");
    reveal_strlit("mb2pb");
    reveal_strlit("pb2b");
    reveal_strlit("pow");
    reveal_strlit("sum");
    reveal_strlit("tb2b");
    let a = nums[0];
    lemma_wrap_sum(nums);
    lemma_power_of_two_is_pow2(a);
    if a < 64 {
        lemma_bit_is_single_bit(a);
    }
    // The characters of the names tell the names apart.
    assert("avg"@.len() == 3 && "avg"@[0] == 'a' && "avg"@[1] == 'v' && "avg"@[2] == 'g');
    assert("b2gb"@.len() == 4 && "b2gb"@[0] == 'b' && "b2gb"@[1] == '2' && "b2gb"@[2] == 'g' && "b2gb"@[3] == 'b');
    assert("b2kb"@.len() == 4 && "b2kb"@[0] == 'b' && "b2kb"@[1] == '2' && "b2kb"@[2] == 'k' && "b2kb"@[3] == 'b');
    assert("b2mb"@.len() == 4 && "b2mb"@[0] == 'b' && "b2mb"@[1] == '2' && "b2mb"@[2] == 'm' && "b2mb"@[3] == 'b');
    assert("b2pb"@.len() == 4 && "b2pb"@[0] == 'b' && "b2pb"@[1] == '2' && "b2pb"@[2] == 'p' && "b2pb"@[3] == 'b');
    assert("b2tb"@.len() == 4 && "b2tb"@[0] == 'b' && "b2tb"@[1] == '2' && "b2tb"@[2] == 't' && "b2tb"@[3] == 'b');
    assert("bit"@.len() == 3 && "bit"@[0] == 'b' && "bit"@[1] == 'i' && "bit"@[2] == 't');
    assert("bits"@.len() == 4 && "bits"@[0] == 'b' && "bits"@[1] == 'i' && "bits"@[2] == 't' && "bits"@[3] == 's');
    assert("gb2b"@.len() == 4 && "gb2b"@[0] == 'g' && "gb2b"@[1] == 'b' && "gb2b"@[2] == '2' && "gb2b"@[3] == 'b');
    assert("is_pow_of_two"@.len() == 13 && "is_pow_of_two"@[0] == 'i' && "is_pow_of_two"@[1] == 's' && "is_pow_of_two"@[2] == '_' && "is_pow_of_two"@[3] == 'p' && "is_pow_of_two"@[4] == 'o' && "is_pow_of_two"@[5] == 'w' && "is_pow_of_two"@[6] == '_' && "is_pow_of_two"@[7] == 'o' && "is_pow_of_two"@[8] == 'f' && "is_pow_of_two"@[9] == '_' && "is_pow_of_two"@[10] == 't' && "is_pow_of_two"@[11] == 'w' && "is_pow_of_two"@[12] == 'o');
    assert("kb2b"@.len() == 4 && "kb2b"@[0] == 'k' && "kb2b"@[1] == 'b' && "kb2b"@[2] == '2' && "kb2b"@[3] == 'b');
    assert("mb2b"@.len() == 4 && "mb2b"@[0] == 'm' && "mb2b"@[1] == 'b' && "mb2b"@[2] == '2' && "mb2b"@[3] == 'b');
    assert("mb2kb"@.len() == 5 && "mb2kb"@[0] == 'm' && "mb2kb"@[1] == 'b' && "mb2kb"@[2] == '2' && "mb2kb"@[3] == 'k' && "mb2kb"@[4] == 'b');
    assert("mb2gb"@.len() == 5 && "mb2gb"@[0] == 'm' && "mb2gb"@[1] == 'b' && "mb2gb"@[2] == '2' && "mb2gb"@[3] == 'g' && "mb2gb"@[4] == 'b');
    assert("mb2tb"@.len() == 5 && "mb2tb"@[0] == 'm' && "mb2tb"@[1] == 'b' && "mb2tb"@[2] == '2' && "mb2tb"@[3] == 't' && "mb2tb"@[4] == 'b');
    assert("mb2pb"@.len() == 5 && "mb2pb"@[0] == 'm' && "mb2pb"@[1] == 'b' && "mb2pb"@[2] == '2' && "mb2pb"@[3] == 'p' && "mb2pb"@[4] == 'b');
    assert("pb2b"@.len() == 4 && "pb2b"@[0] == 'p' && "pb2b"@[1] == 'b' && "pb2b"@[2] == '2' && "pb2b"@[3] == 'b');
    assert("pow"@.len() == 3 && "pow"@[0] == 'p' && "pow"@[1] == 'o' && "pow"@[2] == 'w');
    assert("sum"@.len() == 3 && "sum"@[0] == 's' && "sum"@[1] == 'u' && "sum"@[2] == 'm');
    assert("tb2b"@.len() == 4 && "tb2b"@[0] == 't' && "tb2b"@[1] == 'b' && "tb2b"@[2] == '2' && "tb2b"@[3] == 'b');
    // One case per entry of the table.
    if i == 0 {
    } else if i == 1 {
    } else if i == 2 {
    } else if i == 3 {
    } else if i == 4 {
    } else if i == 5 {
    } else if i == 6 {
    } else if i == 7 {
    } else if i == 8 {
    } else if i == 9 {
    } else if i == 10 {
    } else if i == 11 {
    } else if i == 12 {
    } else if i == 13 {
    } else if i == 14 {
    } else if i == 15 {
    } else if i == 16 {
    } else if i == 17 {
    } else if i == 18 {
    } else {
    }
}

impl<'a> Func<'a> {
    /// Evaluates the function on its operands.
    pub fn eval(&self, idx_expr: usize, nums: &[u64]) -> (r: Result<u64, ExprError>)
        requires
            func_requires(self.evalfn, nums@),
        ensures
            func_result_ok(self.evalfn, self.name@, idx_expr, nums@, r),
    {
        match self.evalfn {
            FuncEval::Avg => func_avg(self, idx_expr, nums),
            FuncEval::B2gb => func_b2gb(self, idx_expr, nums),
            FuncEval::B2kb => func_b2kb(self, idx_expr, nums),
            FuncEval::B2mb => func_b2mb(self, idx_expr, nums),
            FuncEval::B2pb => func_b2pb(self, idx_expr, nums),
            FuncEval::B2tb => func_b2tb(self, idx_expr, nums),
            FuncEval::Bit => func_bit(self, idx_expr, nums),
            FuncEval::Bits => func_bits(self, idx_expr, nums),
            FuncEval::Gb2b => func_gb2b(self, idx_expr, nums),
            FuncEval::IsPowOfTwo => func_is_pow_of_two(self, idx_expr, nums),
            FuncEval::Kb2b => func_kb2b(self, idx_expr, nums),
            FuncEval::Mb2b => func_mb2b(self, idx_expr, nums),
            FuncEval::Mb2kb => func_mb2kb(self, idx_expr, nums),
            FuncEval::Mb2gb => func_mb2gb(self, idx_expr, nums),
            FuncEval::Mb2tb => func_mb2tb(self, idx_expr, nums),
            FuncEval::Mb2pb => func_mb2pb(self, idx_expr, nums),
            FuncEval::Pb2b => func_pb2b(self, idx_expr, nums),
            FuncEval::Pow => func_pow(self, idx_expr, nums),
            FuncEval::Sum => func_sum(self, idx_expr, nums),
            FuncEval::Tb2b => func_tb2b(self, idx_expr, nums),
        }
    }
}

} // verus!
