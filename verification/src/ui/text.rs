use vstd::prelude::*;
use vstd::string::StringExecFns;

verus! {

/// The character of a decimal digit.
pub open spec fn digit_char(d: nat) -> char {
    if d == 0 {
        '0'
    } else if d == 1 {
        '1'
    } else if d == 2 {
        '2'
    } else if d == 3 {
        '3'
    } else if d == 4 {
        '4'
    } else if d == 5 {
        '5'
    } else if d == 6 {
        '6'
    } else if d == 7 {
        '7'
    } else if d == 8 {
        '8'
    } else {
        '9'
    }
}

/// The value of a decimal digit character (`'0'..='9'`).
pub open spec fn digit_value(c: char) -> nat {
    if c == '0' {
        0
    } else if c == '1' {
        1
    } else if c == '2' {
        2
    } else if c == '3' {
        3
    } else if c == '4' {
        4
    } else if c == '5' {
        5
    } else if c == '6' {
        6
    } else if c == '7' {
        7
    } else if c == '8' {
        8
    } else {
        9
    }
}

/// `n` written in decimal, without leading zeros (`0` is written `"0"`).
pub open spec fn decimal_text(n: nat) -> Seq<char>
    decreases n,
{
    if n < 10 {
        seq![digit_char(n)]
    } else {
        decimal_text(n / 10).push(digit_char(n % 10))
    }
}

/// The number that a run of decimal digits stands for.
pub open spec fn decimal_value(s: Seq<char>) -> nat
    decreases s.len(),
{
    if s.len() == 0 {
        0
    } else {
        decimal_value(s.drop_last()) * 10 + digit_value(s.last())
    }
}

/// Right-aligns a text in two columns, filling with `'0'`.
pub open spec fn pad_two(s: Seq<char>) -> Seq<char> {
    if s.len() < 2 {
        seq!['0'] + s
    } else {
        s
    }
}

/// The clock shown at the top of the screen: minutes and seconds, each at least two digits.
pub open spec fn spec_timer_text(total_seconds: nat) -> Seq<char> {
    pad_two(decimal_text(total_seconds / 60)) + seq![':'] + pad_two(decimal_text(total_seconds % 60))
}

/// The level label of the player UI.
pub open spec fn spec_level_text(level: nat) -> Seq<char> {
    "Level:"@ + decimal_text(level)
}

fn digit_str(d: u64) -> (s: &'static str)
    requires
        d < 10,
    ensures
        s@ == seq![digit_char(d as nat)],
{
    if d == 0 {
        proof {
            reveal_strlit("0");
        }
        "0"
    } else if d == 1 {
        proof {
            reveal_strlit("1");
        }
        "1"
    } else if d == 2 {
        proof {
            reveal_strlit("2");
        }
        "2"
    } else if d == 3 {
        proof {
            reveal_strlit("3");
        }
        "3"
    } else if d == 4 {
        proof {
            reveal_strlit("4");
        }
        "4"
    } else if d == 5 {
        proof {
            reveal_strlit("5");
        }
        "5"
    } else if d == 6 {
        proof {
            reveal_strlit("6");
        }
        "6"
    } else if d == 7 {
        proof {
            reveal_strlit("7");
        }
        "7"
    } else if d == 8 {
        proof {
            reveal_strlit("8");
        }
        "8"
    } else {
        proof {
            reveal_strlit("9");
        }
        "9"
    }
}

/// Appends `n` in decimal to `out`.
pub fn append_decimal(out: &mut String, n: u64)
    ensures
        final(out)@ == old(out)@ + decimal_text(n as nat),
    decreases n,
{
    if n < 10 {
        out.append(digit_str(n));
    } else {
        append_decimal(out, n / 10);
        out.append(digit_str(n % 10));
        assert(decimal_text(n as nat) == decimal_text((n / 10) as nat).push(
            digit_char((n % 10) as nat),
        ));
    }
}

/// Appends `n` in decimal, with a leading `'0'` when it has a single digit.
fn append_two_digits(out: &mut String, n: u64)
    ensures
        final(out)@ == old(out)@ + pad_two(decimal_text(n as nat)),
{
    if n < 10 {
        proof {
            reveal_strlit("0");
        }
        out.append("0");
    }
    let ghost before = out@;
    append_decimal(out, n);
    proof {
        lemma_decimal_text_len(n as nat);
        if n < 10 {
            assert(out@ =~= old(out)@ + pad_two(decimal_text(n as nat)));
        } else {
            assert(out@ =~= old(out)@ + pad_two(decimal_text(n as nat)));
        }
    }
}

/// Formats the elapsed game time as `minutes:seconds`, as in `"03:07"`.
pub fn global_timer_text(total_seconds: u64) -> (r: String)
    ensures
        r@ == spec_timer_text(total_seconds as nat),
{
    let minutes = total_seconds / 60;
    let seconds = total_seconds % 60;
    let mut out = String::new();
    append_two_digits(&mut out, minutes);
    proof {
        reveal_strlit(":");
    }
    out.append(":");
    append_two_digits(&mut out, seconds);
    assert(out@ =~= spec_timer_text(total_seconds as nat));
    out
}

/// The text of the player's level label, as in `"Level:3"`.
pub fn level_text(level: u32) -> (r: String)
    ensures
        r@ == spec_level_text(level as nat),
{
    let mut out = String::from_str("Level:");
    append_decimal(&mut out, level as u64);
    out
}

/// A decimal text has one character below ten, two below a hundred, and at least two from
/// ten on.
pub proof fn lemma_decimal_text_len(n: nat)
    ensures
        decimal_text(n).len() >= 1,
        n < 10 ==> decimal_text(n).len() == 1,
        10 <= n < 100 ==> decimal_text(n).len() == 2,
        n >= 10 ==> decimal_text(n).len() >= 2,
    decreases n,
{
    if n >= 10 {
        lemma_decimal_text_len(n / 10);
    }
}

/// Reading back the decimal text of a number gives the number.
pub proof fn lemma_decimal_roundtrip(n: nat)
    ensures
        decimal_value(decimal_text(n)) == n,
    decreases n,
{
    let s = decimal_text(n);
    if n < 10 {
        assert(s.drop_last() =~= Seq::<char>::empty());
        assert(decimal_value(s) == decimal_value(s.drop_last()) * 10 + digit_value(s.last()));
    } else {
        lemma_decimal_roundtrip(n / 10);
        assert(s.drop_last() =~= decimal_text(n / 10));
        assert(s.last() == digit_char(n % 10));
        assert(decimal_value(s) == decimal_value(s.drop_last()) * 10 + digit_value(s.last()));
        assert(digit_value(digit_char(n % 10)) == n % 10);
        assert((n / 10) * 10 + n % 10 == n) by (nonlinear_arith);
    }
}

/// A leading `'0'` does not change the value of a decimal text.
pub proof fn lemma_leading_zero(s: Seq<char>)
    ensures
        decimal_value(seq!['0'] + s) == decimal_value(s),
    decreases s.len(),
{
    let t = seq!['0'] + s;
    if s.len() > 0 {
        lemma_leading_zero(s.drop_last());
        assert(t.drop_last() =~= seq!['0'] + s.drop_last());
        assert(t.last() == s.last());
        assert(decimal_value(t) == decimal_value(t.drop_last()) * 10 + digit_value(t.last()));
        assert(decimal_value(s) == decimal_value(s.drop_last()) * 10 + digit_value(s.last()));
    } else {
        assert(t.drop_last() =~= Seq::<char>::empty());
        assert(t.last() == '0');
        assert(decimal_value(t) == decimal_value(t.drop_last()) * 10 + digit_value(t.last()));
    }
}

/// Below a hundred minutes the clock reads `mm:ss`, and reading its two fields back gives the
/// elapsed seconds.
pub proof fn lemma_timer_text_roundtrip(total_seconds: nat)
    requires
        total_seconds < 6000,
    ensures
        spec_timer_text(total_seconds).len() == 5,
        spec_timer_text(total_seconds)[2] == ':',
        decimal_value(spec_timer_text(total_seconds).subrange(0, 2)) * 60 + decimal_value(
            spec_timer_text(total_seconds).subrange(3, 5),
        ) == total_seconds,
{
    let m = total_seconds / 60;
    let s = total_seconds % 60;
    lemma_decimal_text_len(m);
    lemma_decimal_text_len(s);
    lemma_decimal_roundtrip(m);
    lemma_decimal_roundtrip(s);
    lemma_leading_zero(decimal_text(m));
    lemma_leading_zero(decimal_text(s));
    let t = spec_timer_text(total_seconds);
    assert(t.subrange(0, 2) =~= pad_two(decimal_text(m)));
    assert(t.subrange(3, 5) =~= pad_two(decimal_text(s)));
}

/// A whole number in decimal, with a leading `'-'` when it is negative.
pub open spec fn signed_decimal_text(n: int) -> Seq<char> {
    if n < 0 {
        seq!['-'] + decimal_text((-n) as nat)
    } else {
        decimal_text(n as nat)
    }
}

/// The text of the damage number shown over an enemy, as in `"50"` or `"-3"`.
pub fn damage_text(damage: i32) -> (r: String)
    ensures
        r@ == signed_decimal_text(damage as int),
{
    let mut out = String::new();
    if damage < 0 {
        proof {
            reveal_strlit("-");
        }
        out.append("-");
        let magnitude: u64 = (0i64 - damage as i64) as u64;
        append_decimal(&mut out, magnitude);
    } else {
        append_decimal(&mut out, damage as u64);
    }
    out
}

} // verus!
