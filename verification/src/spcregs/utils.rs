//! Binary renderings of register values: the digits grouped by four and a
//! ruler that labels each byte.

use vstd::prelude::*;

use crate::text::push_str;

verus! {

/// The character of bit `i` of `val`.
pub open spec fn bit_char(val: u64, i: nat) -> char {
    if (val >> (i as u64)) & 1u64 == 1u64 {
        '1'
    } else {
        '0'
    }
}

/// The `n` lowest bits of `val`, most significant first, with a space
/// after every bit whose position is a non-zero multiple of four.
pub open spec fn spaced_binary(val: u64, n: nat) -> Seq<char>
    decreases n,
{
    if n == 0 {
        seq![]
    } else if n == 1 {
        seq![bit_char(val, 0)]
    } else {
        seq![bit_char(val, (n - 1) as nat)] + (if (n - 1) % 4 == 0 {
            seq![' ']
        } else {
            seq![]
        }) + spaced_binary(val, (n - 1) as nat)
    }
}

/// The number of bits needed to write `v` (zero for zero).
pub open spec fn bit_length(v: u64) -> nat
    decreases v,
{
    if v == 0 {
        0
    } else {
        1 + bit_length(v / 2)
    }
}

/// The number of bits that `get_binary_string` writes: the fixed width when
/// one of at most 64 is given, the bit length of `val` otherwise, and at
/// least one in every case.
pub open spec fn binary_width(val: u64, fixed_bit_width: Option<u32>) -> nat {
    let w = match fixed_bit_width {
        Some(f) => if f <= 64 {
            f as nat
        } else {
            bit_length(val)
        },
        None => bit_length(val),
    };
    if w == 0 {
        1
    } else {
        w
    }
}

/// The label of the `k`-th byte in a binary ruler.
pub open spec fn ruler_label(k: int) -> Seq<char> {
    if k == 0 {
        seq!['|', ' ', ' ', '7', ':', '0', ' ', ' ', '|']
    } else if k == 1 {
        seq!['|', ' ', '1', '5', ':', '8', ' ', ' ', '|', ' ']
    } else if k == 2 {
        seq!['|', ' ', '2', '3', ':', '1', '6', ' ', '|', ' ']
    } else if k == 3 {
        seq!['|', ' ', '3', '1', ':', '2', '4', ' ', '|', ' ']
    } else if k == 4 {
        seq!['|', ' ', '3', '9', ':', '3', '2', ' ', '|', ' ']
    } else if k == 5 {
        seq!['|', ' ', '4', '7', ':', '4', '0', ' ', '|', ' ']
    } else if k == 6 {
        seq!['|', ' ', '5', '5', ':', '4', '8', ' ', '|', ' ']
    } else {
        seq!['|', ' ', '6', '3', ':', '5', '6', ' ', '|', ' ']
    }
}

/// The padding before the ruler for `p` bits that do not fill a byte: one
/// space per bit and one more before every group of four.
pub open spec fn ruler_padding(p: nat) -> Seq<char>
    decreases p,
{
    if p == 0 {
        seq![]
    } else {
        ruler_padding((p - 1) as nat) + seq![' '] + (if (p - 1) % 4 == 0 {
            seq![' ']
        } else {
            seq![]
        })
    }
}

/// The labels of the `m` lowest bytes, the highest first.
pub open spec fn ruler_labels(m: nat) -> Seq<char>
    decreases m,
{
    if m == 0 {
        seq![]
    } else {
        ruler_label(m - 1) + ruler_labels((m - 1) as nat)
    }
}

/// The ruler under `bit_count` binary digits: empty below one byte.
pub open spec fn binary_ruler(bit_count: nat) -> Seq<char> {
    if bit_count >= 8 {
        ruler_padding(bit_count % 8) + ruler_labels(bit_count / 8)
    } else {
        seq![]
    }
}

/// The bit length of a value is what `leading_zeros` leaves of 64 bits.
pub proof fn lemma_bit_length_leading_zeros(v: u64)
    ensures
        bit_length(v) == 64 - vstd::std_specs::bits::u64_leading_zeros(v),
        bit_length(v) <= 64,
    decreases v,
{
    reveal(vstd::std_specs::bits::u64_leading_zeros);
    if v != 0 {
        lemma_bit_length_leading_zeros(v / 2);
        assert(v / 2 < 0x8000_0000_0000_0000u64);
        if v / 2 != 0 {
            lemma_bit_length_bound(v / 2);
        }
    }
}

/// A value below `2^63` needs at most 63 bits.
proof fn lemma_bit_length_bound(v: u64)
    requires
        v < 0x8000_0000_0000_0000u64,
    ensures
        bit_length(v) <= 63,
{
    vstd::arithmetic::power2::lemma2_to64_rest();
    lemma_bit_length_pow(v, 63);
}

/// A value below `2^k` needs at most `k` bits.
proof fn lemma_bit_length_pow(v: u64, k: nat)
    requires
        v < vstd::arithmetic::power2::pow2(k),
    ensures
        bit_length(v) <= k,
    decreases v,
{
    if v != 0 {
        if k == 0 {
            vstd::arithmetic::power2::lemma2_to64();
            assert(false);
        } else {
            vstd::arithmetic::power2::lemma_pow2_unfold(k);
            lemma_bit_length_pow(v / 2, (k - 1) as nat);
        }
    }
}

proof fn lemma_spaced_binary_len(val: u64, n: nat)
    requires
        n >= 1,
    ensures
        spaced_binary(val, n).len() == n + (n - 1) / 4,
    decreases n,
{
    if n > 1 {
        lemma_spaced_binary_len(val, (n - 1) as nat);
    }
}

proof fn lemma_ruler_padding_len(p: nat)
    ensures
        ruler_padding(p).len() == p + (p + 3) / 4,
    decreases p,
{
    if p > 0 {
        lemma_ruler_padding_len((p - 1) as nat);
    }
}

proof fn lemma_ruler_labels_len(m: nat)
    requires
        1 <= m <= 8,
    ensures
        ruler_labels(m).len() == 10 * m - 1,
    decreases m,
{
    let k = m - 1;
    assert(ruler_label(k).len() == if k == 0 { 9int } else { 10int }) by {
        if k == 0 {
        } else if k == 1 {
        } else if k == 2 {
        } else if k == 3 {
        } else if k == 4 {
        } else if k == 5 {
        } else if k == 6 {
        } else {
        }
    }
    if m > 1 {
        lemma_ruler_labels_len((m - 1) as nat);
    } else {
        assert(ruler_labels(0).len() == 0);
    }
}

/// The number of times `c` occurs in `s`.
pub open spec fn char_count(s: Seq<char>, c: char) -> nat
    decreases s.len(),
{
    if s.len() == 0 {
        0
    } else {
        char_count(s.drop_last(), c) + if s.last() == c {
            1nat
        } else {
            0nat
        }
    }
}

proof fn lemma_char_count_concat(a: Seq<char>, b: Seq<char>, c: char)
    ensures
        char_count(a + b, c) == char_count(a, c) + char_count(b, c),
    decreases b.len(),
{
    if b.len() == 0 {
        assert(a + b =~= a);
    } else {
        lemma_char_count_concat(a, b.drop_last(), c);
        assert((a + b).drop_last() =~= a + b.drop_last());
    }
}

/// The padding holds spaces only, and starts with one when it is not empty.
proof fn lemma_ruler_padding_spaces(p: nat)
    ensures
        char_count(ruler_padding(p), ':') == 0,
        p > 0 ==> ruler_padding(p)[0] == ' ',
    decreases p,
{
    if p > 0 {
        lemma_ruler_padding_spaces((p - 1) as nat);
        let tail = seq![' '] + (if (p - 1) % 4 == 0 {
            seq![' ']
        } else {
            seq![]
        });
        lemma_char_count_concat(ruler_padding((p - 1) as nat), tail, ':');
        lemma_char_count_concat(seq![' '], tail.skip(1), ':');
        assert(seq![' '] + tail.skip(1) =~= tail);
        reveal_with_fuel(char_count, 3);
        assert(ruler_padding((p - 1) as nat) + tail =~= ruler_padding(p));
        if p == 1 {
            assert(ruler_padding(0) =~= Seq::<char>::empty());
        }
    }
}

/// One byte label holds one `:`.
proof fn lemma_label_colon_at(k: int)
    requires
        0 <= k < 8,
    ensures
        char_count(ruler_label(k), ':') == 1,
{
    let l = ruler_label(k);
    reveal_with_fuel(char_count, 11);
    assert(l.len() <= 10);
}

/// Every byte label holds one `:` and starts with `|`.
proof fn lemma_ruler_label_colon(k: int)
    ensures
        char_count(ruler_label(k), ':') == 1,
        ruler_label(k)[0] == '|',
{
    if k == 0 {
        lemma_label_colon_at(0);
    } else if k == 1 {
        lemma_label_colon_at(1);
    } else if k == 2 {
        lemma_label_colon_at(2);
    } else if k == 3 {
        lemma_label_colon_at(3);
    } else if k == 4 {
        lemma_label_colon_at(4);
    } else if k == 5 {
        lemma_label_colon_at(5);
    } else if k == 6 {
        lemma_label_colon_at(6);
    } else {
        lemma_label_colon_at(7);
        assert(ruler_label(k) == ruler_label(7));
    }
}

/// The labels of `m` bytes hold `m` colons, start with `|` and end with the
/// label of the lowest byte.
proof fn lemma_ruler_labels_shape(m: nat)
    requires
        1 <= m <= 8,
    ensures
        char_count(ruler_labels(m), ':') == m,
        ruler_labels(m)[0] == '|',
        ruler_labels(m).len() >= 9,
        ruler_labels(m).subrange(ruler_labels(m).len() - 9, ruler_labels(m).len() as int)
            == ruler_label(0),
    decreases m,
{
    lemma_ruler_labels_len(m);
    lemma_ruler_label_colon(m - 1);
    lemma_char_count_concat(ruler_label(m - 1), ruler_labels((m - 1) as nat), ':');
    if m == 1 {
        assert(ruler_labels(0) =~= Seq::<char>::empty());
        assert(ruler_labels(1) =~= ruler_label(0));
        reveal_with_fuel(char_count, 1);
    } else {
        lemma_ruler_labels_shape((m - 1) as nat);
        let t = ruler_labels((m - 1) as nat);
        let l = ruler_labels(m);
        assert(l.subrange(l.len() - 9, l.len() as int) =~= t.subrange(t.len() - 9, t.len() as int));
    }
}

/// The ruler lines up with the binary digits above it. Below 8 bits it is
/// empty. For 8 to 64 bits it is exactly as long as the digits of any value
/// written with that many bits; it holds one label (one `:`) per whole
/// byte; it ends with the label `|  7:0  |` of the lowest byte; and it
/// starts with padding (a space) exactly when the bits do not fill whole
/// bytes.
pub proof fn lemma_ruler_matches_binary(val: u64, n: nat)
    requires
        n <= 64,
    ensures
        n < 8 ==> binary_ruler(n).len() == 0,
        8 <= n ==> {
            let r = binary_ruler(n);
            &&& r.len() == spaced_binary(val, n).len()
            &&& char_count(r, ':') == n / 8
            &&& r.len() >= 9
            &&& r.subrange(r.len() - 9, r.len() as int) == ruler_label(0)
            &&& (r[0] == ' ' <==> n % 8 != 0)
        },
{
    if n >= 8 {
        let m = n / 8;
        let p = n % 8;
        lemma_spaced_binary_len(val, n);
        lemma_ruler_padding_len(p);
        lemma_ruler_labels_len(m);
        lemma_ruler_padding_spaces(p);
        lemma_ruler_labels_shape(m);
        let pad = ruler_padding(p);
        let labels = ruler_labels(m);
        let r = binary_ruler(n);
        assert(r == pad + labels);
        lemma_char_count_concat(pad, labels, ':');
        assert(r.subrange(r.len() - 9, r.len() as int) =~= labels.subrange(
            labels.len() - 9,
            labels.len() as int,
        ));
        if p == 0 {
            assert(pad =~= Seq::<char>::empty());
            assert(r =~= labels);
        } else {
            assert(r[0] == pad[0]);
        }
    }
}

/// Appends the `n` lowest bits of `val` as `spaced_binary` writes them.
pub fn push_spaced_binary(s: &mut String, val: u64, n: u32)
    requires
        n <= 64,
    ensures
        final(s)@ == old(s)@ + spaced_binary(val, n as nat),
{
    let mut k: u32 = n;
    while k > 0
        invariant
            k <= n <= 64,
            s@ + spaced_binary(val, k as nat) == old(s)@ + spaced_binary(val, n as nat),
        decreases k,
    {
        let i: u32 = k - 1;
        let bit = (val >> (i as u64)) & 1u64;
        let ghost before = s@;
        if bit == 1 {
            s.push('1');
        } else {
            s.push('0');
        }
        if i > 0 && i % 4 == 0 {
            s.push(' ');
        }
        proof {
            assert(s@ + spaced_binary(val, i as nat) =~= before + spaced_binary(val, k as nat));
        }
        k = i;
    }
    assert(s@ =~= s@ + spaced_binary(val, 0));
}

/// The number of significant bits of `val`.
pub fn significant_bits(val: u64) -> (r: u32)
    ensures
        r == bit_length(val),
        r <= 64,
{
    proof {
        lemma_bit_length_leading_zeros(val);
    }
    64 - val.leading_zeros()
}

/// Formats `val` as binary digits with a space (from the right) after every
/// four digits. With a fixed width of at most 64 that many digits are
/// written; otherwise as many as the value needs, and always at least one.
pub fn get_binary_string(val: u64, fixed_bit_width: Option<u32>) -> (r: String)
    ensures
        r@ == spaced_binary(val, binary_width(val, fixed_bit_width)),
{
    let bit_width = match fixed_bit_width {
        Some(f) => if f <= 64 {
            f
        } else {
            significant_bits(val)
        },
        None => significant_bits(val),
    };
    let n = if bit_width == 0 {
        1
    } else {
        bit_width
    };
    let mut out = String::new();
    push_spaced_binary(&mut out, val, n);
    assert(out@ =~= spaced_binary(val, binary_width(val, fixed_bit_width)));
    out
}

fn push_ruler_label(s: &mut String, k: usize)
    requires
        k < 8,
    ensures
        final(s)@ == old(s)@ + ruler_label(k as int),
{
    let label = if k == 0 {
        "|  7:0  |"
    } else if k == 1 {
        "| 15:8  | "
    } else if k == 2 {
        "| 23:16 | "
    } else if k == 3 {
        "| 31:24 | "
    } else if k == 4 {
        "| 39:32 | "
    } else if k == 5 {
        "| 47:40 | "
    } else if k == 6 {
        "| 55:48 | "
    } else {
        "| 63:56 | "
    };
    proof {
        reveal_strlit("|  7:0  |");
        reveal_strlit("| 15:8  | ");
        reveal_strlit("| 23:16 | ");
        reveal_strlit("| 31:24 | ");
        reveal_strlit("| 39:32 | ");
        reveal_strlit("| 47:40 | ");
        reveal_strlit("| 55:48 | ");
        reveal_strlit("| 63:56 | ");
        assert(label@ =~= ruler_label(k as int));
    }
    push_str(s, label);
}

/// Appends the ruler for `bit_count` binary digits.
pub fn push_binary_ruler(s: &mut String, bit_count: usize)
    requires
        bit_count <= 64,
    ensures
        final(s)@ == old(s)@ + binary_ruler(bit_count as nat),
{
    if bit_count >= 8 {
        let num_pad_bits = bit_count % 8;
        let mut idx: usize = 0;
        while idx < num_pad_bits
            invariant
                idx <= num_pad_bits < 8,
                s@ == old(s)@ + ruler_padding(idx as nat),
            decreases num_pad_bits - idx,
        {
            s.push(' ');
            if idx % 4 == 0 {
                s.push(' ');
            }
            idx = idx + 1;
            assert(s@ =~= old(s)@ + ruler_padding(idx as nat));
        }
        let ghost padded = s@;
        let mut m: usize = bit_count / 8;
        while m > 0
            invariant
                m <= 8,
                s@ + ruler_labels(m as nat) == padded + ruler_labels((bit_count / 8) as nat),
            decreases m,
        {
            let ghost before = s@;
            push_ruler_label(s, m - 1);
            assert(s@ + ruler_labels((m - 1) as nat) =~= before + ruler_labels(m as nat));
            m = m - 1;
        }
        assert(s@ =~= old(s)@ + binary_ruler(bit_count as nat));
    } else {
        assert(s@ =~= old(s)@ + binary_ruler(bit_count as nat));
    }
}

/// Makes a ruler labelling every 8 bits, to ease counting the digits that
/// `get_binary_string` writes for `bit_count` bits. It is empty for fewer
/// than 8 bits.
pub fn get_binary_ruler_string(bit_count: u8) -> (r: String)
    requires
        bit_count <= 64,
    ensures
        r@ == binary_ruler(bit_count as nat),
{
    let mut out = String::new();
    push_binary_ruler(&mut out, bit_count as usize);
    assert(out@ =~= binary_ruler(bit_count as nat));
    out
}

} // verus!
