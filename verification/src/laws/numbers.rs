//! How numbers are written and read.
use crate::text;
use vstd::prelude::*;

verus! {

proof fn digits_are_digits(d: nat)
    requires
        d < 10,
    ensures
        text::is_digit(text::digit_char(d)),
        text::digit_value(text::digit_char(d)) == d,
        text::digit_char(d) != '+',
{
}

/// A number that is written in decimal is read back as itself: every character is
/// a digit, there is one at least, and together they stand for the number.
pub proof fn written_numbers_are_read_back(n: nat)
    ensures
        text::decimal(n).len() > 0,
        text::all_digits(text::decimal(n)),
        text::digits_value(text::decimal(n)) == n,
        text::decimal(n)[0] != '+',
        n <= usize::MAX ==> text::parsed_index(text::decimal(n)) == Some(n as usize),
    decreases n,
{
    let s = text::decimal(n);
    if n < 10 {
        digits_are_digits(n);
        assert(s.drop_last() =~= Seq::empty());
        assert(s.last() == text::digit_char(n));
        assert(text::digits_value(s.drop_last()) == 0);
        assert(text::digits_value(s) == text::digits_value(s.drop_last()) * 10
            + text::digit_value(s.last()));
    } else {
        let rest = text::decimal(n / 10);
        written_numbers_are_read_back(n / 10);
        digits_are_digits(n % 10);
        assert(s == rest.push(text::digit_char(n % 10)));
        assert(s.drop_last() =~= rest);
        assert(s[0] == rest[0]);
        assert forall|i: int| 0 <= i < s.len() implies text::is_digit(#[trigger] s[i]) by {
            if i < rest.len() {
                assert(s[i] == rest[i]);
            }
        }
        assert(text::digits_value(s) == text::digits_value(s.drop_last()) * 10
            + text::digit_value(s.last()));
    }
    assert(text::unsigned_part(s) == s);
}

/// Different numbers are written differently.
pub proof fn different_numbers_are_written_differently(m: nat, n: nat)
    requires
        m != n,
    ensures
        text::decimal(m) != text::decimal(n),
{
    written_numbers_are_read_back(m);
    written_numbers_are_read_back(n);
}

} // verus!
