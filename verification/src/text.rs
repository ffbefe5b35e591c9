//! Building text: pushing characters, padding to a width and rendering
//! integers in decimal and in other bases.

use vstd::prelude::*;

verus! {

/// `String::push` appends one character.
pub assume_specification[ String::push ](s: &mut String, ch: char)
    ensures
        final(s)@ == old(s)@.push(ch),
;

/// `n` space characters.
pub open spec fn spaces(n: int) -> Seq<char> {
    Seq::new(if n < 0 { 0nat } else { n as nat }, |i: int| ' ')
}

/// `s` right-aligned in a field of `width` characters (as `{:>width$}`).
pub open spec fn pad_left(s: Seq<char>, width: int) -> Seq<char> {
    spaces(width - s.len()) + s
}

/// `s` left-aligned in a field of `width` characters (as `{:<width$}`).
pub open spec fn pad_right(s: Seq<char>, width: int) -> Seq<char> {
    s + spaces(width - s.len())
}

/// The character of a decimal digit.
pub open spec fn digit_char(d: int) -> char {
    if d == 0 {
        '0'
    } else if d == 1 {
        '1'
    } else if d == 2 {
        '2'
    } else if d == 3 {
        '3'
    } else if d == 4 {
        '4'
    } else if d == 5 {
        '5'
    } else if d == 6 {
        '6'
    } else if d == 7 {
        '7'
    } else if d == 8 {
        '8'
    } else {
        '9'
    }
}

/// The decimal digits of `n`, most significant first, without leading zeros.
pub open spec fn decimal(n: nat) -> Seq<char>
    decreases n,
{
    if n < 10 {
        seq![digit_char(n as int)]
    } else {
        decimal(n / 10).push(digit_char((n % 10) as int))
    }
}

/// The decimal text of a signed integer (a `-` before negative values).
pub open spec fn signed_decimal(v: int) -> Seq<char> {
    if v < 0 {
        seq!['-'] + decimal((-v) as nat)
    } else {
        decimal(v as nat)
    }
}

/// Appends `n` spaces.
pub fn push_spaces(s: &mut String, n: usize)
    ensures
        final(s)@ == old(s)@ + spaces(n as int),
{
    let mut i: usize = 0;
    while i < n
        invariant
            i <= n,
            s@ == old(s)@ + spaces(i as int),
        decreases n - i,
    {
        s.push(' ');
        i = i + 1;
        assert(s@ =~= old(s)@ + spaces(i as int));
    }
}

/// Appends `t`.
pub fn push_str(s: &mut String, t: &str)
    ensures
        final(s)@ == old(s)@ + t@,
{
    s.append(t);
}

fn digit_to_char(d: u64) -> (c: char)
    requires
        d < 10,
    ensures
        c == digit_char(d as int),
{
    match d {
        0 => '0',
        1 => '1',
        2 => '2',
        3 => '3',
        4 => '4',
        5 => '5',
        6 => '6',
        7 => '7',
        8 => '8',
        _ => '9',
    }
}

/// Appends `t` right-aligned in a field of `width` characters.
pub fn push_padded_left(s: &mut String, t: &str, width: usize)
    ensures
        final(s)@ == old(s)@ + pad_left(t@, width as int),
{
    let n = t.unicode_len();
    if n < width {
        push_spaces(s, width - n);
    } else {
        assert(spaces(width - t@.len()) =~= Seq::<char>::empty());
    }
    push_str(s, t);
    assert(s@ =~= old(s)@ + pad_left(t@, width as int));
}

/// Appends `t` left-aligned in a field of `width` characters.
pub fn push_padded_right(s: &mut String, t: &str, width: usize)
    ensures
        final(s)@ == old(s)@ + pad_right(t@, width as int),
{
    let n = t.unicode_len();
    push_str(s, t);
    if n < width {
        push_spaces(s, width - n);
    } else {
        assert(spaces(width - t@.len()) =~= Seq::<char>::empty());
    }
    assert(s@ =~= old(s)@ + pad_right(t@, width as int));
}

/// Appends the decimal digits of `n`.
pub fn push_decimal(s: &mut String, n: u64)
    ensures
        final(s)@ == old(s)@ + decimal(n as nat),
    decreases n,
{
    if n >= 10 {
        push_decimal(s, n / 10);
    }
    let c = digit_to_char(n % 10);
    s.push(c);
    assert(s@ =~= old(s)@ + decimal(n as nat));
}

/// Appends the decimal text of a signed integer.
pub fn push_signed_decimal(s: &mut String, v: i64)
    ensures
        final(s)@ == old(s)@ + signed_decimal(v as int),
{
    if v < 0 {
        s.push('-');
        let magnitude: u64 = (-(v + 1)) as u64 + 1;
        push_decimal(s, magnitude);
        assert(s@ =~= old(s)@ + signed_decimal(v as int));
    } else {
        push_decimal(s, v as u64);
    }
}

/// The character of a digit below sixteen, with lower-case letters for ten
/// to fifteen.
pub open spec fn radix_digit_char(d: int) -> char {
    if d < 10 {
        digit_char(d)
    } else if d == 10 {
        'a'
    } else if d == 11 {
        'b'
    } else if d == 12 {
        'c'
    } else if d == 13 {
        'd'
    } else if d == 14 {
        'e'
    } else {
        'f'
    }
}

/// The digits of `n` in base `radix` (two to sixteen), most significant
/// first, without leading zeros.
pub open spec fn radix_digits(n: nat, radix: nat) -> Seq<char>
    decreases n,
{
    if radix < 2 || n < radix {
        seq![radix_digit_char(n as int)]
    } else {
        proof {
            vstd::arithmetic::div_mod::lemma_div_decreases(n as int, radix as int);
        }
        radix_digits(n / radix, radix).push(radix_digit_char((n % radix) as int))
    }
}

/// `s` preceded by as many `0` characters as make it `width` long (none when
/// it is already that long).
pub open spec fn zero_filled(s: Seq<char>, width: int) -> Seq<char> {
    Seq::new(if width > s.len() { (width - s.len()) as nat } else { 0nat }, |i: int| '0') + s
}

/// The text that `{:#0w$x}` and `{:#0w$o}` make of a value: a prefix, then
/// the digits in base `radix` zero-filled to `min_digits` digits.
pub open spec fn prefixed_radix(prefix: Seq<char>, n: nat, radix: nat, min_digits: int) -> Seq<char> {
    prefix + zero_filled(radix_digits(n, radix), min_digits)
}

fn radix_digit_to_char(d: u64) -> (c: char)
    requires
        d < 16,
    ensures
        c == radix_digit_char(d as int),
{
    if d < 10 {
        digit_to_char(d)
    } else if d == 10 {
        'a'
    } else if d == 11 {
        'b'
    } else if d == 12 {
        'c'
    } else if d == 13 {
        'd'
    } else if d == 14 {
        'e'
    } else {
        'f'
    }
}

/// Appends the digits of `n` in base `radix`.
pub fn push_radix(s: &mut String, n: u64, radix: u64)
    requires
        2 <= radix <= 16,
    ensures
        final(s)@ == old(s)@ + radix_digits(n as nat, radix as nat),
    decreases n,
{
    if n >= radix {
        proof {
            vstd::arithmetic::div_mod::lemma_div_decreases(n as int, radix as int);
        }
        push_radix(s, n / radix, radix);
    }
    let c = radix_digit_to_char(n % radix);
    proof {
        if n >= radix {
            assert(radix_digits(n as nat, radix as nat) == radix_digits(
                (n / radix) as nat,
                radix as nat,
            ).push(radix_digit_char((n % radix) as int)));
        } else {
            vstd::arithmetic::div_mod::lemma_small_mod(n as nat, radix as nat);
        }
    }
    s.push(c);
    assert(s@ =~= old(s)@ + radix_digits(n as nat, radix as nat));
}

/// Appends `n` characters `0`.
fn push_zeros(s: &mut String, n: usize)
    ensures
        final(s)@ == old(s)@ + Seq::new(n as nat, |i: int| '0'),
{
    let mut i: usize = 0;
    while i < n
        invariant
            i <= n,
            s@ == old(s)@ + Seq::new(i as nat, |k: int| '0'),
        decreases n - i,
    {
        s.push('0');
        i = i + 1;
        assert(s@ =~= old(s)@ + Seq::new(i as nat, |k: int| '0'));
    }
}

/// A value in base `radix` after `prefix`, its digits zero-filled to
/// `min_digits` digits: `radix_text(v, 16, "0x", 16)` is `format!("{:#018x}", v)`
/// and `radix_text(v, 8, "0o", 0)` is `format!("{:#o}", v)`.
pub fn radix_text(value: u64, radix: u64, prefix: &str, min_digits: usize) -> (r: String)
    requires
        2 <= radix <= 16,
    ensures
        r@ == prefixed_radix(prefix@, value as nat, radix as nat, min_digits as int),
{
    let mut digits = String::new();
    push_radix(&mut digits, value, radix);
    let mut out = String::new();
    push_str(&mut out, prefix);
    let n = digits.as_str().unicode_len();
    if n < min_digits {
        push_zeros(&mut out, min_digits - n);
    } else {
        push_zeros(&mut out, 0);
    }
    push_str(&mut out, digits.as_str());
    assert(out@ =~= prefixed_radix(prefix@, value as nat, radix as nat, min_digits as int));
    out
}

/// The number of leading characters that `a` and `b` have in common.
pub open spec fn common_prefix_len(a: Seq<char>, b: Seq<char>) -> int
    decreases a.len(),
{
    if a.len() == 0 || b.len() == 0 || a[0] != b[0] {
        0
    } else {
        1 + common_prefix_len(a.drop_first(), b.drop_first())
    }
}

/// The length of the common prefix of two strings.
pub fn common_prefix(a: &str, b: &str) -> (r: usize)
    ensures
        r == common_prefix_len(a@, b@),
        r <= a@.len(),
        r <= b@.len(),
{
    let n = a.unicode_len();
    let m = b.unicode_len();
    let mut i: usize = 0;
    assert(a@.skip(0) =~= a@);
    assert(b@.skip(0) =~= b@);
    while i < n && i < m && a.get_char(i) == b.get_char(i)
        invariant
            n == a@.len(),
            m == b@.len(),
            i <= n,
            i <= m,
            common_prefix_len(a@, b@) == i + common_prefix_len(a@.skip(i as int), b@.skip(i as int)),
        decreases n - i,
    {
        assert(a@.skip(i as int).drop_first() =~= a@.skip(i + 1));
        assert(b@.skip(i as int).drop_first() =~= b@.skip(i + 1));
        i = i + 1;
    }
    proof {
        if i < n && i < m {
            assert(a@.skip(i as int)[0] != b@.skip(i as int)[0]);
        }
    }
    i
}

/// Whether two strings hold the same characters.
pub fn str_eq(a: &str, b: &str) -> (r: bool)
    ensures
        r == (a@ == b@),
{
    let n = a.unicode_len();
    if n != b.unicode_len() {
        return false;
    }
    let mut i: usize = 0;
    while i < n
        invariant
            n == a@.len(),
            n == b@.len(),
            i <= n,
            forall|j: int| 0 <= j < i ==> a@[j] == b@[j],
        decreases n - i,
    {
        if a.get_char(i) != b.get_char(i) {
            return false;
        }
        i = i + 1;
    }
    assert(a@ =~= b@);
    true
}

} // verus!
