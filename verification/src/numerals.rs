//! Decimal numerals: turning an unsigned integer into its base-ten text.
//!
//! Temporary file names embed a process id and a timestamp, and the download
//! invocation embeds a timeout, so the core needs a verified integer-to-text
//! conversion with an exact specification.

use vstd::prelude::*;

verus! {

/// The character for a single decimal digit.
pub open spec fn spec_digit_char(d: nat) -> char {
    if d == 0 {
        '0'
    } else if d == 1 {
        '1'
    } else if d == 2 {
        '2'
    } else if d == 3 {
        '3'
    } else if d == 4 {
        '4'
    } else if d == 5 {
        '5'
    } else if d == 6 {
        '6'
    } else if d == 7 {
        '7'
    } else if d == 8 {
        '8'
    } else {
        '9'
    }
}

/// The base-ten numeral of `n`, without leading zeroes (a single `'0'` for 0).
pub open spec fn spec_decimal(n: nat) -> Seq<char>
    decreases n,
{
    if n < 10 {
        seq![spec_digit_char(n)]
    } else {
        spec_decimal(n / 10).push(spec_digit_char(n % 10))
    }
}

/// Distinct digits have distinct characters.
proof fn lemma_digit_char_injective(a: nat, b: nat)
    requires
        a < 10,
        b < 10,
        a != b,
    ensures
        spec_digit_char(a) != spec_digit_char(b),
{
}

/// Distinct numbers have distinct numerals.
pub proof fn lemma_decimal_injective(a: nat, b: nat)
    requires
        a != b,
    ensures
        spec_decimal(a) != spec_decimal(b),
    decreases a + b,
{
    if a < 10 && b < 10 {
        lemma_digit_char_injective(a, b);
        assert(spec_decimal(a)[0] != spec_decimal(b)[0]);
    } else if a < 10 {
        assert(spec_decimal(a).len() == 1);
        assert(spec_decimal(b).len() == spec_decimal(b / 10).len() + 1);
        assert(spec_decimal(b / 10).len() >= 1) by {
            lemma_decimal_len_at_least_one(b / 10);
        }
    } else if b < 10 {
        assert(spec_decimal(b).len() == 1);
        assert(spec_decimal(a).len() == spec_decimal(a / 10).len() + 1);
        assert(spec_decimal(a / 10).len() >= 1) by {
            lemma_decimal_len_at_least_one(a / 10);
        }
    } else {
        if a % 10 != b % 10 {
            lemma_digit_char_injective(a % 10, b % 10);
            if spec_decimal(a) == spec_decimal(b) {
                assert(spec_decimal(a).last() == spec_digit_char(a % 10));
                assert(spec_decimal(b).last() == spec_digit_char(b % 10));
            }
        } else {
            assert(a / 10 != b / 10) by {
                assert(a == (a / 10) * 10 + a % 10) by (nonlinear_arith);
                assert(b == (b / 10) * 10 + b % 10) by (nonlinear_arith);
            }
            lemma_decimal_injective(a / 10, b / 10);
            if spec_decimal(a) == spec_decimal(b) {
                assert(spec_decimal(a).len() == spec_decimal(b).len());
                assert(spec_decimal(a / 10).len() == spec_decimal(b / 10).len());
                assert forall|i: int|
                    0 <= i < spec_decimal(a / 10).len() implies #[trigger] spec_decimal(a / 10)[i]
                    == spec_decimal(b / 10)[i] by {
                    assert(spec_decimal(a) == spec_decimal(a / 10).push(spec_digit_char(a % 10)));
                    assert(spec_decimal(b) == spec_decimal(b / 10).push(spec_digit_char(b % 10)));
                    assert(spec_decimal(a / 10)[i] == spec_decimal(a)[i]);
                    assert(spec_decimal(b / 10)[i] == spec_decimal(b)[i]);
                }
                assert(spec_decimal(a / 10) =~= spec_decimal(b / 10));
            }
        }
    }
}

/// A numeral is never empty.
pub proof fn lemma_decimal_len_at_least_one(n: nat)
    ensures
        spec_decimal(n).len() >= 1,
    decreases n,
{
    if n >= 10 {
        lemma_decimal_len_at_least_one(n / 10);
    }
}

/// The one-character string for a decimal digit.
fn digit_str(d: u64) -> (r: &'static str)
    requires
        d < 10,
    ensures
        r@ == seq![spec_digit_char(d as nat)],
{
    proof {
        reveal_strlit("0");
        reveal_strlit("1");
        reveal_strlit("2");
        reveal_strlit("3");
        reveal_strlit("4");
        reveal_strlit("5");
        reveal_strlit("6");
        reveal_strlit("7");
        reveal_strlit("8");
        reveal_strlit("9");
    }
    let r = if d == 0 {
        "0"
    } else if d == 1 {
        "1"
    } else if d == 2 {
        "2"
    } else if d == 3 {
        "3"
    } else if d == 4 {
        "4"
    } else if d == 5 {
        "5"
    } else if d == 6 {
        "6"
    } else if d == 7 {
        "7"
    } else if d == 8 {
        "8"
    } else {
        "9"
    };
    proof {
        assert(r@ =~= seq![spec_digit_char(d as nat)]);
    }
    r
}

/// Appends the numeral of `n` to `out`.
fn push_decimal(n: u64, out: &mut String)
    ensures
        final(out)@ == old(out)@ + spec_decimal(n as nat),
    decreases n,
{
    if n >= 10 {
        push_decimal(n / 10, out);
        out.append(digit_str(n % 10));
        proof {
            assert(out@ =~= old(out)@ + spec_decimal(n as nat));
        }
    } else {
        out.append(digit_str(n));
        proof {
            assert(out@ =~= old(out)@ + spec_decimal(n as nat));
        }
    }
}

/// The base-ten text of `n`.
pub fn decimal_string(n: u64) -> (r: String)
    ensures
        r@ == spec_decimal(n as nat),
{
    let mut out = String::new();
    push_decimal(n, &mut out);
    proof {
        assert(out@ =~= spec_decimal(n as nat));
    }
    out
}

} // verus!
