//! Decimal rendering of unsigned integers, fixed-width zero-padded rendering,
//! and the lexicographic-order facts that make fixed-width decimal strings
//! usable as time-ordered storage keys.

use vstd::prelude::*;

verus! {

/// The character for one decimal digit.
pub open spec fn digit_char(d: nat) -> char {
    if d == 0 {
        '0'
    } else if d == 1 {
        '1'
    } else if d == 2 {
        '2'
    } else if d == 3 {
        '3'
    } else if d == 4 {
        '4'
    } else if d == 5 {
        '5'
    } else if d == 6 {
        '6'
    } else if d == 7 {
        '7'
    } else if d == 8 {
        '8'
    } else {
        '9'
    }
}

/// Decimal rendering of `n`, most significant digit first, no leading zeros
/// (a single `'0'` for zero).
pub open spec fn spec_decimal(n: nat) -> Seq<char>
    decreases n,
{
    if n < 10 {
        seq![digit_char(n)]
    } else {
        spec_decimal(n / 10) + seq![digit_char(n % 10)]
    }
}

/// The low `w` decimal digits of `n`, zero-padded to exactly width `w`.
pub open spec fn spec_padded(n: nat, w: nat) -> Seq<char>
    decreases w,
{
    if w == 0 {
        Seq::empty()
    } else {
        spec_padded(n / 10, (w - 1) as nat) + seq![digit_char(n % 10)]
    }
}

/// 10 to the power `w`.
pub open spec fn pow10(w: nat) -> nat
    decreases w,
{
    if w == 0 {
        1
    } else {
        10 * pow10((w - 1) as nat)
    }
}

/// Strict lexicographic order on character sequences, by code point, a proper
/// prefix ordering below any extension.
pub open spec fn lex_lt(a: Seq<char>, b: Seq<char>) -> bool
    decreases a.len(),
{
    if b.len() == 0 {
        false
    } else if a.len() == 0 {
        true
    } else if a[0] != b[0] {
        (a[0] as u32) < (b[0] as u32)
    } else {
        lex_lt(a.skip(1), b.skip(1))
    }
}

pub proof fn lemma_padded_len(n: nat, w: nat)
    ensures
        spec_padded(n, w).len() == w,
    decreases w,
{
    if w > 0 {
        lemma_padded_len(n / 10, (w - 1) as nat);
    }
}

/// Appending anything to both sides preserves strict lexicographic order of
/// equal-length sequences.
proof fn lemma_lex_append(a: Seq<char>, b: Seq<char>, s: Seq<char>, t: Seq<char>)
    requires
        a.len() == b.len(),
        lex_lt(a, b),
    ensures
        lex_lt(a + s, b + t),
    decreases a.len(),
{
    assert(a.len() > 0);
    assert((a + s).len() > 0);
    assert((a + s)[0] == a[0]);
    assert((b + t)[0] == b[0]);
    if a[0] != b[0] {
        assert(lex_lt(a + s, b + t));
    } else {
        lemma_lex_append(a.skip(1), b.skip(1), s, t);
        assert((a + s).skip(1) =~= a.skip(1) + s);
        assert((b + t).skip(1) =~= b.skip(1) + t);
    }
}

/// A strictly smaller final character decides the order of two sequences that
/// share a common prefix.
proof fn lemma_lex_last(x: Seq<char>, c1: char, c2: char)
    requires
        (c1 as u32) < (c2 as u32),
    ensures
        lex_lt(x + seq![c1], x + seq![c2]),
    decreases x.len(),
{
    if x.len() == 0 {
        assert((x + seq![c1])[0] == c1);
        assert((x + seq![c2])[0] == c2);
        assert(c1 != c2);
    } else {
        lemma_lex_last(x.skip(1), c1, c2);
        assert((x + seq![c1])[0] == x[0]);
        assert((x + seq![c2])[0] == x[0]);
        assert((x + seq![c1]).skip(1) =~= x.skip(1) + seq![c1]);
        assert((x + seq![c2]).skip(1) =~= x.skip(1) + seq![c2]);
    }
}

/// Strict lexicographic order is strict: the two sequences differ.
pub proof fn lemma_lex_ne(a: Seq<char>, b: Seq<char>)
    requires
        lex_lt(a, b),
    ensures
        a != b,
    decreases a.len(),
{
    if b.len() == 0 {
    } else if a.len() == 0 {
        assert(a.len() != b.len());
    } else if a[0] != b[0] {
        assert(a != b);
    } else {
        lemma_lex_ne(a.skip(1), b.skip(1));
        if a == b {
            assert(a.skip(1) =~= b.skip(1));
        }
    }
}

/// Fixed-width zero-padded decimal strings order exactly as the numbers they
/// render, for numbers that fit the width.
pub proof fn lemma_padded_lt(n1: nat, n2: nat, w: nat)
    requires
        n1 < n2,
        n2 < pow10(w),
    ensures
        lex_lt(spec_padded(n1, w), spec_padded(n2, w)),
    decreases w,
{
    if w == 0 {
        assert(false);
    } else {
        let a1 = n1 / 10;
        let a2 = n2 / 10;
        let d1 = n1 % 10;
        let d2 = n2 % 10;
        assert(n1 == 10 * a1 + d1 && d1 < 10) by {
            vstd::arithmetic::div_mod::lemma_fundamental_div_mod(n1 as int, 10);
        }
        assert(n2 == 10 * a2 + d2 && d2 < 10) by {
            vstd::arithmetic::div_mod::lemma_fundamental_div_mod(n2 as int, 10);
        }
        assert(pow10(w) == 10 * pow10((w - 1) as nat));
        assert(a2 < pow10((w - 1) as nat)) by (nonlinear_arith)
            requires
                n2 < 10 * pow10((w - 1) as nat),
                a2 == n2 / 10,
                n2 == 10 * a2 + d2,
                d2 < 10,
        ;
        if a1 == a2 {
            assert(d1 < d2);
            assert((digit_char(d1) as u32) < (digit_char(d2) as u32));
            lemma_lex_last(spec_padded(a1, (w - 1) as nat), digit_char(d1), digit_char(d2));
        } else {
            assert(a1 < a2) by (nonlinear_arith)
                requires
                    n1 < n2,
                    n1 == 10 * a1 + d1,
                    n2 == 10 * a2 + d2,
                    d1 < 10,
                    d2 < 10,
                    a1 != a2,
            ;
            lemma_padded_lt(a1, a2, (w - 1) as nat);
            lemma_padded_len(a1, (w - 1) as nat);
            lemma_padded_len(a2, (w - 1) as nat);
            lemma_lex_append(
                spec_padded(a1, (w - 1) as nat),
                spec_padded(a2, (w - 1) as nat),
                seq![digit_char(d1)],
                seq![digit_char(d2)],
            );
        }
    }
}

/// Fixed-width zero-padded rendering is injective on numbers that fit the
/// width.
pub proof fn lemma_padded_injective(n1: nat, n2: nat, w: nat)
    requires
        n1 != n2,
        n1 < pow10(w),
        n2 < pow10(w),
    ensures
        spec_padded(n1, w) != spec_padded(n2, w),
{
    if n1 < n2 {
        lemma_padded_lt(n1, n2, w);
        lemma_lex_ne(spec_padded(n1, w), spec_padded(n2, w));
    } else {
        lemma_padded_lt(n2, n1, w);
        lemma_lex_ne(spec_padded(n2, w), spec_padded(n1, w));
    }
}

/// The one-character string for a decimal digit.
fn digit_str(d: u64) -> (r: &'static str)
    requires
        d < 10,
    ensures
        r@ =~= seq![digit_char(d as nat)],
{
    proof {
        reveal_strlit("0");
        reveal_strlit("1");
        reveal_strlit("2");
        reveal_strlit("3");
        reveal_strlit("4");
        reveal_strlit("5");
        reveal_strlit("6");
        reveal_strlit("7");
        reveal_strlit("8");
        reveal_strlit("9");
    }
    match d {
        0 => "0",
        1 => "1",
        2 => "2",
        3 => "3",
        4 => "4",
        5 => "5",
        6 => "6",
        7 => "7",
        8 => "8",
        _ => "9",
    }
}

/// Decimal rendering of `n`, without padding.
pub fn u64_to_string(n: u64) -> (r: String)
    ensures
        r@ == spec_decimal(n as nat),
    decreases n,
{
    if n < 10 {
        String::from_str(digit_str(n))
    } else {
        let mut s = u64_to_string(n / 10);
        s.append(digit_str(n % 10));
        assert(s@ =~= spec_decimal(n as nat));
        s
    }
}

/// The low `w` decimal digits of `n`, zero-padded to exactly width `w`.
pub fn u64_padded(n: u64, w: usize) -> (r: String)
    ensures
        r@ == spec_padded(n as nat, w as nat),
    decreases w,
{
    if w == 0 {
        String::new()
    } else {
        let mut s = u64_padded(n / 10, w - 1);
        s.append(digit_str(n % 10));
        assert(s@ =~= spec_padded(n as nat, w as nat));
        s
    }
}

} // verus!

