//! Text helpers: decimal rendering of seat numbers and blank detection for
//! the engine's `remaining_input` field.

use vstd::prelude::*;

verus! {

/// Whether `char::is_whitespace` holds of a character: the Unicode
/// `White_Space` property, which this library does not spell out.
pub uninterp spec fn white(c: char) -> bool;

/// Relies on char::is_whitespace: true exactly on characters with the
/// Unicode `White_Space` property, a function of the character alone.
pub assume_specification[ char::is_whitespace ](c: char) -> (r: bool)
    ensures
        r == white(c),
;

/// A string is blank when every character of it is whitespace; the empty
/// string is blank.
pub open spec fn blank(s: Seq<char>) -> bool {
    forall|i: int| 0 <= i < s.len() ==> white(s[i])
}

/// True exactly when `s` holds no non-whitespace character.
pub fn is_blank(s: &str) -> (r: bool)
    ensures
        r == blank(s@),
{
    let len = s.unicode_len();
    let mut i: usize = 0;
    while i < len
        invariant
            i <= len,
            len == s@.len(),
            forall|j: int| 0 <= j < i ==> white(s@[j]),
        decreases len - i,
    {
        let c = s.get_char(i);
        if !c.is_whitespace() {
            return false;
        }
        i += 1;
    }
    true
}

/// The decimal digit character for `d`.
pub open spec fn digit_char(d: int) -> char {
    if d == 0 {
        '0'
    } else if d == 1 {
        '1'
    } else if d == 2 {
        '2'
    } else if d == 3 {
        '3'
    } else if d == 4 {
        '4'
    } else if d == 5 {
        '5'
    } else if d == 6 {
        '6'
    } else if d == 7 {
        '7'
    } else if d == 8 {
        '8'
    } else {
        '9'
    }
}

/// The decimal rendering of `n`, most significant digit first, with no
/// leading zeroes (`0` renders as "0").
pub open spec fn decimal_chars(n: nat) -> Seq<char>
    decreases n,
{
    if n < 10 {
        seq![digit_char(n as int)]
    } else {
        decimal_chars(n / 10).push(digit_char((n % 10) as int))
    }
}

/// The single-character string for one decimal digit.
fn digit_str(d: u8) -> (r: &'static str)
    requires
        d < 10,
    ensures
        r@ =~= seq![digit_char(d as int)],
{
    proof {
        reveal_strlit("0");
        reveal_strlit("1");
        reveal_strlit("2");
        reveal_strlit("3");
        reveal_strlit("4");
        reveal_strlit("5");
        reveal_strlit("6");
        reveal_strlit("7");
        reveal_strlit("8");
        reveal_strlit("9");
    }
    match d {
        0 => "0",
        1 => "1",
        2 => "2",
        3 => "3",
        4 => "4",
        5 => "5",
        6 => "6",
        7 => "7",
        8 => "8",
        _ => "9",
    }
}

/// The characters of the digits in `ds` read from the last to the first:
/// `ds` holds the low-order digit first, the rendering wants it last.
spec fn rev_digit_chars(ds: Seq<u8>) -> Seq<char> {
    Seq::new(ds.len(), |i: int| digit_char(ds[ds.len() - 1 - i] as int))
}

/// Renders `n` in decimal.
pub fn usize_to_decimal(n: usize) -> (s: String)
    ensures
        s@ == decimal_chars(n as nat),
{
    let mut digits: Vec<u8> = Vec::new();
    let mut m: usize = n;
    while m > 0 || digits.len() == 0
        invariant
            forall|j: int| 0 <= j < digits@.len() ==> digits@[j] < 10,
            digits@.len() == 0 ==> m == n,
            digits@.len() > 0 ==> decimal_chars(n as nat) == if m == 0 {
                rev_digit_chars(digits@)
            } else {
                decimal_chars(m as nat) + rev_digit_chars(digits@)
            },
        decreases m + (if digits.len() == 0 { 1int } else { 0int }),
    {
        let ghost prev = digits@;
        let ghost pm = m as nat;
        digits.push((m % 10) as u8);
        m = m / 10;
        proof {
            let ds = digits@;
            assert(ds == prev.push((pm % 10) as u8));
            assert forall|i: int| 0 <= i < ds.len() implies #[trigger] rev_digit_chars(
                ds,
            )[i] == (if i == 0 {
                digit_char((pm % 10) as int)
            } else {
                rev_digit_chars(prev)[i - 1]
            }) by {
                if i == 0 {
                    assert(ds[ds.len() - 1] == (pm % 10) as u8);
                } else {
                    assert(ds[ds.len() - 1 - i] == prev[prev.len() - 1 - (i - 1)]);
                }
            }
            assert(rev_digit_chars(ds) =~= seq![digit_char((pm % 10) as int)] + rev_digit_chars(
                prev,
            ));
            if pm < 10 {
                assert(decimal_chars(pm) == seq![digit_char(pm as int)]);
                assert(decimal_chars(n as nat) =~= rev_digit_chars(ds));
            } else {
                assert(decimal_chars(pm) == decimal_chars(pm / 10).push(
                    digit_char((pm % 10) as int),
                ));
                assert(decimal_chars(pm) =~= decimal_chars(pm / 10) + seq![
                    digit_char((pm % 10) as int),
                ]);
                assert(decimal_chars(n as nat) =~= decimal_chars((m as nat))
                    + rev_digit_chars(ds));
            }
        }
    }
    let mut s = String::new();
    let mut i = digits.len();
    while i > 0
        invariant
            i <= digits@.len(),
            forall|j: int| 0 <= j < digits@.len() ==> digits@[j] < 10,
            decimal_chars(n as nat) == rev_digit_chars(digits@),
            s@ =~= rev_digit_chars(digits@).subrange(0, digits@.len() - i),
        decreases i,
    {
        i -= 1;
        let d = digits[i];
        s.append(digit_str(d));
        proof {
            let full = rev_digit_chars(digits@);
            assert(full[digits@.len() - 1 - i] == digit_char(digits@[i as int] as int));
            assert(s@ =~= full.subrange(0, digits@.len() - i));
        }
    }
    proof {
        assert(s@ =~= rev_digit_chars(digits@));
    }
    s
}

} // verus!
