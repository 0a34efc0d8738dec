use vstd::prelude::*;

verus! {

/// The ASCII character of the decimal digit `d`.
pub open spec fn digit_char(d: nat) -> u8 {
    (0x30 + d) as u8
}

/// The decimal digits of `n`, most significant first, without leading zeros.
pub open spec fn digits(n: nat) -> Seq<u8>
    decreases n,
{
    if n < 10 {
        seq![digit_char(n)]
    } else {
        digits(n / 10).push(digit_char(n % 10))
    }
}

/// The decimal text of `n`, with a leading '-' when it is negative.
pub open spec fn decimal(n: int) -> Seq<u8> {
    if n < 0 {
        seq![0x2Du8] + digits((-n) as nat)
    } else {
        digits(n as nat)
    }
}

/// Whether `c` is an ASCII decimal digit.
pub open spec fn is_digit(c: u8) -> bool {
    0x30 <= c <= 0x39
}

/// The number that a run of ASCII digits spells.
pub open spec fn digits_value(s: Seq<u8>) -> int
    decreases s.len(),
{
    if s.len() == 0 {
        0
    } else {
        digits_value(s.drop_last()) * 10 + (s.last() - 0x30)
    }
}

/// Whether `s` is a nonempty run of digits, after at most one leading '-'.
pub open spec fn is_number_text(s: Seq<u8>) -> bool {
    let body = if s.len() > 0 && s[0] == 0x2D {
        s.drop_first()
    } else {
        s
    };
    &&& body.len() > 0
    &&& forall|i: int| 0 <= i < body.len() ==> is_digit(#[trigger] body[i])
}

/// The number that a decimal text spells: its digits, negated after a '-'.
pub open spec fn text_value(s: Seq<u8>) -> int {
    if s.len() > 0 && s[0] == 0x2D {
        -digits_value(s.drop_first())
    } else {
        digits_value(s)
    }
}

proof fn lemma_digits_read_back(n: nat)
    ensures
        digits(n).len() > 0,
        forall|i: int| 0 <= i < digits(n).len() ==> is_digit(#[trigger] digits(n)[i]),
        digits_value(digits(n)) == n,
    decreases n,
{
    if n >= 10 {
        lemma_digits_read_back(n / 10);
        let s = digits(n);
        assert(s.drop_last() =~= digits(n / 10));
        assert(s.last() == digit_char(n % 10));
        assert(digit_char(n % 10) - 0x30 == n % 10);
        assert(n == (n / 10) * 10 + n % 10) by (nonlinear_arith);
        assert(digits_value(s) == digits_value(s.drop_last()) * 10 + (s.last() - 0x30));
    } else {
        let s = digits(n);
        assert(s.drop_last() =~= Seq::<u8>::empty());
        assert(digit_char(n) - 0x30 == n);
        assert(digits_value(s) == digits_value(s.drop_last()) * 10 + (s.last() - 0x30));
    }
}

/// The decimal text of every integer is a number text, starts with '-' exactly
/// when the integer is negative, and reads back as the integer.
pub proof fn lemma_decimal_reads_back(n: int)
    ensures
        is_number_text(decimal(n)),
        (decimal(n)[0] == 0x2D) == (n < 0),
        text_value(decimal(n)) == n,
{
    if n < 0 {
        let m = (-n) as nat;
        lemma_digits_read_back(m);
        assert(decimal(n).drop_first() =~= digits(m));
    } else {
        lemma_digits_read_back(n as nat);
    }
}

/// Appends the decimal digits of `n` to `out`.
pub fn push_digits(out: &mut Vec<u8>, n: u32)
    ensures
        final(out)@ == old(out)@ + digits(n as nat),
    decreases n,
{
    if n >= 10 {
        push_digits(out, n / 10);
    }
    out.push(0x30 + (n % 10) as u8);
    assert(out@ =~= old(out)@ + digits(n as nat));
}

/// Appends the decimal text of `n` to `out`, as `format!("{}", n)` writes it.
pub fn push_decimal(out: &mut Vec<u8>, n: i32)
    ensures
        final(out)@ == old(out)@ + decimal(n as int),
{
    if n < 0 {
        out.push(0x2D);
        let magnitude = (-(n as i64)) as u32;
        push_digits(out, magnitude);
        assert(out@ =~= old(out)@ + decimal(n as int));
    } else {
        push_digits(out, n as u32);
    }
}

} // verus!
