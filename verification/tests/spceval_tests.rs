use std::cmp::Ordering;
use sysprocalc::spceval::functions::{
    func_avg, func_b2kb, func_bit, func_bits, func_is_pow_of_two, func_kb2b, func_mb2kb, func_pow, func_sum,
    funcs, Func, MAX_FN_PARAMS,
};
use sysprocalc::spceval::operators::{
    oper_add, oper_bit_and, oper_bit_lshift, oper_bit_not, oper_bit_or, oper_bit_rshift, oper_bit_xor, oper_div,
    oper_eq, oper_gt, oper_gte, oper_logical_not, oper_lt, oper_lte, oper_mul, oper_ne, oper_rem, oper_sub,
    oper_unary_minus, opers, OperAssoc, OperKind,
};
use sysprocalc::spceval::{ExprError, ExprErrorKind};

#[test]
fn is_oper_table_valid() {
    let opers = opers();
    let mut open_paren_count = 0;
    let mut close_paren_count = 0;
    let mut param_sep_count = 0;
    for (idx, oper) in opers.iter().enumerate() {
        assert!(oper.params < 3, "Oper '{}' at {} has {} parameters. \
                Opers can have at most 2 parameters.", oper.name, idx, oper.params);
        assert!(oper.kind != OperKind::Regular || oper.params > 0,
                "Regular operator '{}' at {} cannot have 0 parameters.", oper.name, idx);
        assert!(oper.assoc != OperAssoc::Right || oper.params == 1,
                "operator '{}' at {} must have only 1 parameter.", oper.name, idx);

        assert_eq!(oper.name.chars().all(|x| x.is_digit(10)), false,
                   "Oper '{}' invalid. Name cannot contain digits.", oper.name);
        assert_eq!(oper.name.chars().all(|x| x == '_'), false,
                   "Oper '{}' invalid. Name cannot contain '_' character.", oper.name);
        assert_eq!(oper.name.chars().all(|x| x == 'x'), false,
                   "Oper '{}' invalid. Name cannot contain 'x' hexadecimal prefix character.", oper.name);
        assert_eq!(oper.name.chars().all(|x| x == 'n'), false,
                   "Oper '{}' invalid. Name cannot contain 'n' binary prefix character.", oper.name);
        assert_eq!(oper.name.chars().all(|x| x == 'o'), false,
                   "Oper '{}' invalid. Name cannot contain 'o' octal prefix character.", oper.name);

        match oper.kind {
            OperKind::OpenParen => {
                assert_eq!(oper.assoc, OperAssoc::Nil,
                        "Open parenthesis operator '{}' at {} must have no associativity.", oper.name, idx);
                open_paren_count += 1;
            }
            OperKind::CloseParen => {
                assert_eq!(oper.assoc, OperAssoc::Nil,
                        "Close parenthesis operator '{}' at {} must have no associativity.", oper.name, idx);
                close_paren_count += 1;
            }
            OperKind::ParamSep => param_sep_count += 1,
            _ => (),
        }

        for (idxcmp, opercmp) in opers.iter().enumerate() {
            if idxcmp != idx {
                assert!(oper.assoc != opercmp.assoc || oper.name != opercmp.name,
                        "Duplicate operator '{}' at {} and {}", oper.name, idx, idxcmp);
                if oper.name == opercmp.name && oper.params != opercmp.params {
                    if oper.params > opercmp.params {
                        assert!(idx < idxcmp,
                                "Invalid ordering of '{}' at {} and {}.\
                                The one with more parameters must be sorted higher.",
                                oper.name, idx, idxcmp)
                    } else {
                        assert!(idx > idxcmp,
                                "Invalid ordering of '{}' at {} and {}.\
                                The one with more parameters must be sorted higher.",
                                oper.name, idx, idxcmp)
                    }
                }
            }
        }
    }

    assert_eq!(open_paren_count, 1);
    assert_eq!(close_paren_count, 1);
    assert_eq!(param_sep_count, 1);
}

#[test]
fn is_func_table_valid() {
    let funcs = funcs();
    for (idx, func) in funcs.iter().enumerate() {
        assert!(!func.params.contains(&MAX_FN_PARAMS),
                "Function '{}' at {} exceeds maximum parameters of {}. Use/alter the maximum.",
                func.name, idx, MAX_FN_PARAMS);
        assert!(!func.params.is_empty(),
                "Function '{}' at {} must have at least 1 parameter. Use/alter the maximum.",
                func.name, idx);

        assert_eq!(func.name.is_empty(), false,
                "Function at {} invalid. Name cannot be 0 length.", idx);
        assert_eq!(func.name.chars().nth(0).unwrap().is_digit(10), false,
                   "Function '{}' invalid. Name cannot start with digits.", func.name);
        assert_ne!(func.name.chars().nth(0).unwrap(), '_',
                   "Function '{}' invalid. Name cannot start with an '_' character.", func.name);

        for (idxcmp, funccmp) in funcs.iter().enumerate() {
            if idxcmp != idx {
                assert!(func.name != funccmp.name,
                        "Duplicate function '{}' at {} and {}", func.name, idx, idxcmp);
            }
        }
    }
}

fn func(name: &str) -> Func<'static> {
    funcs().into_iter().find(|f| f.name == name).unwrap()
}

fn kind(res: Result<u64, ExprError>) -> ExprErrorKind {
    res.err().unwrap().kind()
}

/// Expressions that are valid syntax but fail to evaluate, applied directly
/// to the operators and functions they call (with `-1` and `~0` already
/// evaluated to `u64::MAX`).
#[test]
fn valid_exprs_eval_fail() {
    let minus_one = 0u64.wrapping_sub(1);
    let not_zero = !0u64;
    let expr_results: Vec<(&str, Result<u64, ExprError>, ExprErrorKind)> = vec![
        ("0/0", oper_div(1, &[0, 0]), ExprErrorKind::FailedEvaluation),
        ("1/0", oper_div(1, &[1, 0]), ExprErrorKind::FailedEvaluation),
        ("2/0", oper_div(1, &[2, 0]), ExprErrorKind::FailedEvaluation),
        ("0xffffffffffffffff/0", oper_div(18, &[0xffffffffffffffff, 0]), ExprErrorKind::FailedEvaluation),
        ("bit(-1)", func_bit(&func("bit"), 0, &[minus_one]), ExprErrorKind::FailedEvaluation),
        ("bit(64)", func_bit(&func("bit"), 0, &[64]), ExprErrorKind::FailedEvaluation),
        ("bit(~0)", func_bit(&func("bit"), 0, &[not_zero]), ExprErrorKind::FailedEvaluation),
        ("bit(0xffffffffffffffff)", func_bit(&func("bit"), 0, &[0xffffffffffffffff]), ExprErrorKind::FailedEvaluation),
        ("bit(0x7fffffffffffffff)", func_bit(&func("bit"), 0, &[0x7fffffffffffffff]), ExprErrorKind::FailedEvaluation),
        ("bits(0,-1)", func_bits(&func("bits"), 0, &[0, minus_one]), ExprErrorKind::FailedEvaluation),
        ("bits(-1,-1)", func_bits(&func("bits"), 0, &[minus_one, minus_one]), ExprErrorKind::FailedEvaluation),
        ("bits(64,0)", func_bits(&func("bits"), 0, &[64, 0]), ExprErrorKind::FailedEvaluation),
        ("bits(0,64)", func_bits(&func("bits"), 0, &[0, 64]), ExprErrorKind::FailedEvaluation),
        ("bits(~0,0)", func_bits(&func("bits"), 0, &[not_zero, 0]), ExprErrorKind::FailedEvaluation),
    ];
    for (expr, res, expected) in expr_results {
        assert!(res.is_err(), "{}", expr);
        assert_eq!(expected, kind(res), "{}", expr);
    }
}

#[test]
fn error_messages() {
    assert_eq!(oper_div(7, &[1, 0]).err().unwrap().message, "due to division by 0 for operator at 7");
    let e = func_bit(&func("bit"), 4, &[0u64.wrapping_sub(1)]).err().unwrap();
    assert_eq!(e.message, "for function 'bit' at 4 due to invalid shift -1 (must be 0..63)");
    assert_eq!(e.index(), 4);
    let e = func_bits(&func("bits"), 9, &[64, 0]).err().unwrap();
    assert_eq!(e.message, "for function 'bits' at 9 due to invalid bit range (64, 0) (must be 0..63)");
    let e = func_pow(&func("pow"), 0, &[2, 64]).err().unwrap();
    assert_eq!(e.message, "for function 'pow', 2 power 64 overflowed");
    let e = func_pow(&func("pow"), 0, &[2, 0x1_0000_0000]).err().unwrap();
    assert_eq!(e.message, "for function 'pow', 2 power 4294967296, exponent overflowed (must be <= 4294967295)");
    let e = func_bit(&func("bit"), 0, &[0x8000_0000_0000_0040]).err().unwrap();
    assert_eq!(e.message, "for function 'bit' at 0 due to invalid shift -9223372036854775744 (must be 0..63)");
}

#[test]
fn unary_operators() {
    assert_eq!(oper_unary_minus(0, &[0]).unwrap(), 0);
    assert_eq!(oper_unary_minus(0, &[1]).unwrap(), -1i64 as u64);
    assert_eq!(oper_unary_minus(0, &[120]).unwrap(), -120i64 as u64);
    assert_eq!(oper_logical_not(0, &[0]).unwrap(), 1);
    assert_eq!(oper_logical_not(0, &[123]).unwrap(), 0);
    assert_eq!(oper_logical_not(0, &[-1i64 as u64]).unwrap(), 0);
    assert_eq!(oper_bit_not(0, &[145]).unwrap(), !145u64);
    assert_eq!(oper_bit_not(0, &[-2i64 as u64]).unwrap(), !-2i64 as u64);
}

#[test]
fn binary_operators() {
    assert_eq!(oper_add(0, &[132, 132]).unwrap(), 264);
    assert_eq!(oper_add(0, &[0xffffffffffffffff, 1]).unwrap(), 0);
    assert_eq!(oper_add(0, &[0xf0f0f0f0f0f0f0f0, 0xf0f0f0f0f0f0f0f0]).unwrap(), 0xf0f0f0f0f0f0f0f0u64.wrapping_add(0xf0f0f0f0f0f0f0f0));
    assert_eq!(oper_sub(0, &[0, 1]).unwrap(), u64::MAX);
    assert_eq!(oper_sub(0, &[132, 100]).unwrap(), 32);
    assert_eq!(oper_mul(0, &[12, 12]).unwrap(), 144);
    assert_eq!(oper_mul(0, &[0xffffffffffffffff, 2]).unwrap(), 0xfffffffffffffffe);
    assert_eq!(oper_div(0, &[100, 10]).unwrap(), 10);
    assert_eq!(oper_rem(0, &[100, 7]).unwrap(), 2);
    assert_eq!(oper_bit_lshift(0, &[0xf, 1]).unwrap(), 0x1e);
    assert_eq!(oper_bit_lshift(0, &[1, 65]).unwrap(), 2);
    assert_eq!(oper_bit_rshift(0, &[0xf0, 4]).unwrap(), 0xf);
    assert_eq!(oper_bit_rshift(0, &[0xf0, 0x1_0000_0004]).unwrap(), 0xf);
    assert_eq!(oper_lt(0, &[1, 2]).unwrap(), 1);
    assert_eq!(oper_lte(0, &[2, 2]).unwrap(), 1);
    assert_eq!(oper_gt(0, &[1, 2]).unwrap(), 0);
    assert_eq!(oper_gte(0, &[1, 2]).unwrap(), 0);
    assert_eq!(oper_eq(0, &[5, 5]).unwrap(), 1);
    assert_eq!(oper_ne(0, &[5, 5]).unwrap(), 0);
    assert_eq!(oper_bit_and(0, &[0xff, 0x0f]).unwrap(), 0x0f);
    assert_eq!(oper_bit_xor(0, &[0xff, 0x0f]).unwrap(), 0xf0);
    assert_eq!(oper_bit_or(0, &[0xf0, 0x0f]).unwrap(), 0xff);
}

#[test]
fn operator_table_evaluates() {
    let opers = opers();
    let minus = opers.iter().find(|o| o.name == "-" && o.params == 1).unwrap();
    assert_eq!(minus.eval(0, &[1]).unwrap(), u64::MAX);
    let minus = opers.iter().find(|o| o.name == "-" && o.params == 2).unwrap();
    assert_eq!(minus.eval(0, &[5, 3]).unwrap(), 2);
    let div = opers.iter().find(|o| o.name == "/").unwrap();
    assert_eq!(div.eval(3, &[5, 0]).err().unwrap().kind(), ExprErrorKind::FailedEvaluation);
    assert!(opers[2] == opers[2]);
    assert!(opers[2] != opers[4]);
}

#[test]
fn functions() {
    let sum = func("sum");
    assert_eq!(func_sum(&sum, 0, &[1, 3]).unwrap(), 4);
    assert_eq!(func_sum(&sum, 0, &[0xffff, 0xffffffff]).unwrap(), 0x1_0000_fffe);
    assert_eq!(func_sum(&sum, 0, &[-1i64 as u64, 4]).unwrap(), 3);
    assert_eq!(func_sum(&sum, 0, &[-5i64 as u64, -5i64 as u64, 10]).unwrap(), 0);
    let avg = func("avg");
    assert_eq!(func_avg(&avg, 0, &[0, 0]).unwrap(), 0);
    assert_eq!(func_avg(&avg, 0, &[1, 3]).unwrap(), 2);
    assert_eq!(func_avg(&avg, 0, &[0xf, 0x1e, 0x2d]).unwrap(), 30);
    assert_eq!(func_avg(&avg, 0, &[1, 2, 3, 4, 5, 6, 7, 8, 9, 10]).unwrap(), 5);
    assert_eq!(func_avg(&avg, 0, &[u64::MAX, u64::MAX]).unwrap(), u64::MAX);
    assert_eq!(func_avg(&avg, 0, &[u64::MAX, 1]).unwrap(), 1u64 << 63);
    let bit = func("bit");
    assert_eq!(func_bit(&bit, 0, &[0]).unwrap(), 1);
    assert_eq!(func_bit(&bit, 0, &[63]).unwrap(), 1 << 63);
    assert_eq!(kind(func_bit(&bit, 0, &[0x1_0000_0000])), ExprErrorKind::FailedEvaluation);
    assert_eq!(kind(func_bit(&bit, 0, &[0x1_0000_0003])), ExprErrorKind::FailedEvaluation);
    assert_eq!(kind(func_bit(&bit, 0, &[64])), ExprErrorKind::FailedEvaluation);
    let bits = func("bits");
    assert_eq!(func_bits(&bits, 0, &[0, 0]).unwrap(), 1);
    assert_eq!(func_bits(&bits, 0, &[1, 0]).unwrap(), 3);
    assert_eq!(func_bits(&bits, 0, &[0, 63]).unwrap(), u64::MAX);
    assert_eq!(func_bits(&bits, 0, &[63, 32]).unwrap(), 0xffffffff00000000);
    assert_eq!(kind(func_bits(&bits, 0, &[3, 0x1_0000_0000])), ExprErrorKind::FailedEvaluation);
    assert_eq!(kind(func_bits(&bits, 0, &[0x1_0000_0005, 2])), ExprErrorKind::FailedEvaluation);
    assert_eq!(func_bits(&bits, 0, &[5, 2]).unwrap(), 0b111100);
    let pow = func("pow");
    assert_eq!(func_pow(&pow, 0, &[2, 10]).unwrap(), 1024);
    assert_eq!(func_pow(&pow, 0, &[3, 0]).unwrap(), 1);
    assert_eq!(func_pow(&pow, 0, &[1, 4_000_000_000]).unwrap(), 1);
    let p2 = func("is_pow_of_two");
    assert_eq!(func_is_pow_of_two(&p2, 0, &[0]).unwrap(), 0);
    assert_eq!(func_is_pow_of_two(&p2, 0, &[1]).unwrap(), 1);
    assert_eq!(func_is_pow_of_two(&p2, 0, &[96]).unwrap(), 0);
    assert_eq!(func_is_pow_of_two(&p2, 0, &[1 << 63]).unwrap(), 1);
    let b2kb = func("b2kb");
    assert_eq!(func_b2kb(&b2kb, 0, &[4096]).unwrap(), 4);
    assert_eq!(func_kb2b(&func("kb2b"), 0, &[4]).unwrap(), 4096);
    assert_eq!(func_mb2kb(&func("mb2kb"), 0, &[2]).unwrap(), 2048);
    assert_eq!(func("pb2b").eval(0, &[1]).unwrap(), 1u64 << 50);
    assert_eq!(func("b2pb").eval(0, &[1u64 << 51]).unwrap(), 2);
    assert_eq!(func("b2pb").eval(0, &[(1u64 << 50) - 1]).unwrap(), 0);
    assert_eq!(func("tb2b").eval(0, &[1]).unwrap(), 0x10000000000);
    assert_eq!(func("mb2pb").eval(0, &[0x80000000]).unwrap(), 2);
    assert_eq!(func("sum").eval(0, &[10, 5]).unwrap() * func("sum").eval(0, &[1, 2]).unwrap(), 45);
}

#[test]
fn operators_order_longer_names_first() {
    let table = opers();
    let lt = table.iter().find(|o| o.name == "<").unwrap();
    let lte = table.iter().find(|o| o.name == "<=").unwrap();
    let lshift = table.iter().find(|o| o.name == "<<").unwrap();
    let plus = table.iter().find(|o| o.name == "+").unwrap();
    assert_eq!(lte.cmp(lt), Ordering::Less);
    assert_eq!(lt.cmp(lte), Ordering::Greater);
    assert_eq!(lshift.cmp(lt), Ordering::Less);
    assert_eq!(lt.cmp(lt), Ordering::Equal);
    // '+' sorts before '<' by character, so in reverse it comes after.
    assert_eq!(plus.cmp(lt), Ordering::Greater);
    assert_eq!(lte.partial_cmp(lt), Some(Ordering::Less));
    assert!(lte < lt);
    // The order is transitive: "<=" before "<" before "+".
    assert_eq!(lt.cmp(plus), Ordering::Less);
    assert_eq!(lte.cmp(plus), Ordering::Less);
    let mut sorted: Vec<&str> = Vec::new();
    let mut sorted_table = opers();
    sorted_table.sort_by(|a, b| a.cmp(b));
    for o in sorted_table.iter() {
        sorted.push(o.name);
    }
    let pos = |n: &str| sorted.iter().position(|x| *x == n).unwrap();
    assert!(pos("<=") < pos("<"));
    assert!(pos("<<") < pos("<"));
    assert!(pos(">=") < pos(">"));
    assert!(pos(">>") < pos(">"));
}

#[test]
fn sum_does_not_depend_on_operand_order() {
    let sum = func("sum");
    let a = [u64::MAX, 5, 1 << 63, 12, 0];
    let b = [12, 0, 1 << 63, u64::MAX, 5];
    assert_eq!(func_sum(&sum, 0, &a).unwrap(), func_sum(&sum, 0, &b).unwrap());
    assert_eq!(func_sum(&sum, 0, &[-5i64 as u64, 10, -5i64 as u64]).unwrap(), 0);
}

#[test]
fn pow_table_entry_takes_two_operands() {
    let pow = func("pow");
    assert_eq!(pow.params.start, 2);
    assert_eq!(pow.params.end, 3);
}
