use vstd::prelude::*;

verus! {

/// The character of a decimal digit.
pub open spec fn digit_char(d: nat) -> char {
    (48 + d) as char
}

/// The decimal notation of a natural number, without leading zeros.
pub open spec fn decimal(n: nat) -> Seq<char>
    decreases n,
{
    if n < 10 {
        seq![digit_char(n)]
    } else {
        decimal(n / 10).push(digit_char(n % 10))
    }
}

/// Whether `c` is a decimal digit.
pub open spec fn is_digit(c: char) -> bool {
    '0' <= c <= '9'
}

/// The number that a string of decimal digits denotes, read from the left.
pub open spec fn digits_value(s: Seq<char>) -> int
    decreases s.len(),
{
    if s.len() == 0 {
        0
    } else {
        digits_value(s.drop_last()) * 10 + (s.last() as int - 48)
    }
}

/// The decimal notation of `n` is made of digits only, denotes `n`, and has no leading zero
/// (it begins with `0` only when it is `0`).
pub proof fn decimal_is_standard_notation(n: nat)
    ensures
        decimal(n).len() >= 1,
        forall|i: int| 0 <= i < decimal(n).len() ==> is_digit(#[trigger] decimal(n)[i]),
        digits_value(decimal(n)) == n,
        decimal(n)[0] == '0' ==> n == 0,
    decreases n,
{
    if n < 10 {
        let s = decimal(n);
        assert(s == seq![digit_char(n)]);
        assert(digit_char(n) as int == 48 + n);
        assert(s.drop_last() =~= Seq::<char>::empty());
        assert(digits_value(s.drop_last()) == 0);
        assert(digits_value(s) == digits_value(s.drop_last()) * 10 + (s.last() as int - 48));
    } else {
        decimal_is_standard_notation(n / 10);
        let head = decimal(n / 10);
        let s = decimal(n);
        let d = digit_char(n % 10);
        assert(s == head.push(d));
        assert(d as int == 48 + n % 10);
        assert(s.drop_last() =~= head);
        assert(s[0] == head[0]);
        assert forall|i: int| 0 <= i < s.len() implies is_digit(#[trigger] s[i]) by {
            if i < head.len() {
                assert(s[i] == head[i]);
            }
        }
        assert(digits_value(s) == digits_value(head) * 10 + (d as int - 48));
        assert(n == (n / 10) * 10 + n % 10);
    }
}

/// Calls `String::push`, which appends one character at the end of the string.
#[verifier::external_body]
pub(crate) fn push_char(text: &mut String, c: char)
    ensures
        final(text)@ == old(text)@.push(c),
{
    text.push(c);
}

/// Appends the decimal notation of `n` to `out`.
pub fn push_decimal(out: &mut String, n: u64)
    ensures
        final(out)@ == old(out)@ + decimal(n as nat),
    decreases n,
{
    if n >= 10 {
        push_decimal(out, n / 10);
    }
    let ghost before = out@;
    let d: u8 = (n % 10) as u8;
    let c: char = (48u8 + d) as char;
    push_char(out, c);
    assert(c == digit_char((n % 10) as nat));
    if n >= 10 {
        assert(out@ == old(out)@ + decimal(n as nat)) by {
            assert(before == old(out)@ + decimal((n / 10) as nat));
            assert((old(out)@ + decimal((n / 10) as nat)).push(c) =~= old(out)@ + decimal((n / 10) as nat).push(c));
        }
    } else {
        assert(out@ =~= old(out)@ + decimal(n as nat));
    }
}

} // verus!
