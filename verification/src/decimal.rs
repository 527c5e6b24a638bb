//! Rendering of unsigned numbers as decimal text, with optional zero
//! padding.  The conflict resolver prints collision counters and the
//! metadata recorder prints zero-padded timestamp fields.

use vstd::prelude::*;

verus! {

/// The digit character for a value below ten.
pub open spec fn digit_char(d: nat) -> char {
    if d == 0 {
        '0'
    } else if d == 1 {
        '1'
    } else if d == 2 {
        '2'
    } else if d == 3 {
        '3'
    } else if d == 4 {
        '4'
    } else if d == 5 {
        '5'
    } else if d == 6 {
        '6'
    } else if d == 7 {
        '7'
    } else if d == 8 {
        '8'
    } else {
        '9'
    }
}

/// Decimal digits of `n`, left-padded with zeros to at least `w` characters.
/// With `w <= 1` this is the plain decimal form.
pub open spec fn decimal_chars(n: nat, w: nat) -> Seq<char>
    decreases n + w,
{
    if n < 10 && w <= 1 {
        seq![digit_char(n)]
    } else {
        decimal_chars(n / 10, if w <= 1 {
            0
        } else {
            (w - 1) as nat
        }) + seq![digit_char(n % 10)]
    }
}

/// Plain (unpadded) decimal digits of `n`.
pub open spec fn dec_chars(n: nat) -> Seq<char> {
    decimal_chars(n, 1)
}

/// A decimal rendering is never empty and never shorter than its padding
/// width.
pub proof fn lemma_decimal_chars_len(n: nat, w: nat)
    ensures
        decimal_chars(n, w).len() >= 1,
        decimal_chars(n, w).len() >= w,
    decreases n + w,
{
    if n < 10 && w <= 1 {
    } else {
        lemma_decimal_chars_len(n / 10, if w <= 1 {
            0
        } else {
            (w - 1) as nat
        });
    }
}

/// The one-character string for a digit.
fn digit_str(d: u64) -> (r: &'static str)
    requires
        d < 10,
    ensures
        r@ == seq![digit_char(d as nat)],
{
    proof {
        reveal_strlit("0");
        reveal_strlit("1");
        reveal_strlit("2");
        reveal_strlit("3");
        reveal_strlit("4");
        reveal_strlit("5");
        reveal_strlit("6");
        reveal_strlit("7");
        reveal_strlit("8");
        reveal_strlit("9");
    }
    let r: &'static str = if d == 0 {
        "0"
    } else if d == 1 {
        "1"
    } else if d == 2 {
        "2"
    } else if d == 3 {
        "3"
    } else if d == 4 {
        "4"
    } else if d == 5 {
        "5"
    } else if d == 6 {
        "6"
    } else if d == 7 {
        "7"
    } else if d == 8 {
        "8"
    } else {
        "9"
    };
    proof {
        assert(r@ =~= seq![digit_char(d as nat)]);
    }
    r
}

/// Appends the decimal form of `n`, zero-padded to at least `w` characters,
/// to `s`.
pub fn append_decimal(s: &mut String, n: u64, w: usize)
    ensures
        final(s)@ == old(s)@ + decimal_chars(n as nat, w as nat),
    decreases n as nat + w as nat,
{
    if n < 10 && w <= 1 {
        s.append(digit_str(n));
        assert(s@ =~= old(s)@ + decimal_chars(n as nat, w as nat));
    } else {
        let w2: usize = if w <= 1 {
            0
        } else {
            w - 1
        };
        append_decimal(s, n / 10, w2);
        s.append(digit_str(n % 10));
        assert(s@ =~= old(s)@ + decimal_chars(n as nat, w as nat));
    }
}

/// The decimal form of `n`, zero-padded to at least `w` characters.
pub fn decimal_string(n: u64, w: usize) -> (r: String)
    ensures
        r@ == decimal_chars(n as nat, w as nat),
{
    let mut s = String::new();
    append_decimal(&mut s, n, w);
    assert(s@ =~= decimal_chars(n as nat, w as nat));
    s
}


/// The digit characters of distinct digits differ.
pub proof fn lemma_digit_char_injective(a: nat, b: nat)
    requires
        a < 10,
        b < 10,
        digit_char(a) == digit_char(b),
    ensures
        a == b,
{
}

/// Distinct values have distinct decimal renderings (for padding widths
/// that add no zeros).
pub proof fn lemma_decimal_chars_injective(m: nat, n: nat, w1: nat, w2: nat)
    requires
        w1 <= 1,
        w2 <= 1,
        decimal_chars(m, w1) == decimal_chars(n, w2),
    ensures
        m == n,
    decreases m + n,
{
    if m < 10 && n < 10 {
        assert(decimal_chars(m, w1)[0] == digit_char(m));
        assert(decimal_chars(n, w2)[0] == digit_char(n));
        lemma_digit_char_injective(m, n);
    } else if m < 10 {
        lemma_decimal_chars_len(n / 10, 0);
        assert(decimal_chars(n, w2).len() >= 2);
        assert(decimal_chars(m, w1).len() == 1);
    } else if n < 10 {
        lemma_decimal_chars_len(m / 10, 0);
        assert(decimal_chars(m, w1).len() >= 2);
        assert(decimal_chars(n, w2).len() == 1);
    } else {
        let a = decimal_chars(m / 10, 0);
        let b = decimal_chars(n / 10, 0);
        assert(decimal_chars(m, w1) == a + seq![digit_char(m % 10)]);
        assert(decimal_chars(n, w2) == b + seq![digit_char(n % 10)]);
        assert((a + seq![digit_char(m % 10)]).drop_last() =~= a);
        assert((b + seq![digit_char(n % 10)]).drop_last() =~= b);
        assert(a == b);
        assert((a + seq![digit_char(m % 10)]).last() == digit_char(m % 10));
        assert((b + seq![digit_char(n % 10)]).last() == digit_char(n % 10));
        lemma_digit_char_injective(m % 10, n % 10);
        lemma_decimal_chars_injective(m / 10, n / 10, 0, 0);
        assert(m == (m / 10) * 10 + (m % 10)) by (nonlinear_arith);
        assert(n == (n / 10) * 10 + (n % 10)) by (nonlinear_arith);
    }
}

} // verus!
