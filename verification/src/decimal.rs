//! Decimal notation: the digits that replies show for a number, and the number
//! that a run of digits denotes.

use vstd::prelude::*;

verus! {

/// The character that stands for a value below ten.
pub open spec fn digit(d: nat) -> char {
    if d == 0 {
        '0'
    } else if d == 1 {
        '1'
    } else if d == 2 {
        '2'
    } else if d == 3 {
        '3'
    } else if d == 4 {
        '4'
    } else if d == 5 {
        '5'
    } else if d == 6 {
        '6'
    } else if d == 7 {
        '7'
    } else if d == 8 {
        '8'
    } else {
        '9'
    }
}

/// The digits of `n` in base ten, most significant first, with no leading zero
/// but for zero itself.
pub open spec fn decimal(n: nat) -> Seq<char>
    decreases n,
{
    if n < 10 {
        seq![digit(n)]
    } else {
        decimal(n / 10).push(digit(n % 10))
    }
}

/// `count` zeros.
pub open spec fn zeros(count: nat) -> Seq<char> {
    Seq::new(count, |i: int| '0')
}

/// The digits of `n`, filled up with zeros on the left to at least `width` characters.
pub open spec fn padded(n: nat, width: nat) -> Seq<char> {
    if decimal(n).len() >= width {
        decimal(n)
    } else {
        zeros((width - decimal(n).len()) as nat) + decimal(n)
    }
}

/// Whether `c` is one of the ten decimal digits.
pub open spec fn is_digit(c: char) -> bool {
    '0' <= c && c <= '9'
}

/// The value of a decimal digit.
pub open spec fn digit_value(c: char) -> nat {
    (c as int - '0' as int) as nat
}

/// Whether `text` holds decimal digits only.
pub open spec fn all_digits(text: Seq<char>) -> bool {
    forall|i: int| 0 <= i < text.len() ==> is_digit(#[trigger] text[i])
}

/// The number that a run of digits denotes; leading zeros do not count.
pub open spec fn number(digits: Seq<char>) -> nat
    decreases digits.len(),
{
    if digits.len() == 0 {
        0
    } else {
        number(digits.drop_last()) * 10 + digit_value(digits.last())
    }
}

/// Appending a character to a run multiplies its number by ten and adds the
/// value of the character, so the number never shrinks; and the longer run
/// holds digits only where the shorter one does and the character is a digit.
pub proof fn lemma_number_push(digits: Seq<char>, c: char)
    ensures
        number(digits.push(c)) == number(digits) * 10 + digit_value(c),
        number(digits.push(c)) >= number(digits),
        all_digits(digits.push(c)) <==> all_digits(digits) && is_digit(c),
{
    let longer = digits.push(c);
    assert(longer.drop_last() =~= digits);
    assert(longer.last() == c);
    if all_digits(longer) {
        assert forall|i: int| 0 <= i < digits.len() implies is_digit(#[trigger] digits[i]) by {
            assert(longer[i] == digits[i]);
        }
        assert(is_digit(longer[digits.len() as int]));
    }
}

/// Zeros before a run of digits do not change the number that it denotes.
pub proof fn lemma_number_zeros(count: nat, digits: Seq<char>)
    ensures
        number(zeros(count) + digits) == number(digits),
        all_digits(zeros(count) + digits) <==> all_digits(digits),
    decreases digits.len(),
{
    let whole = zeros(count) + digits;
    if digits.len() == 0 {
        assert(whole =~= zeros(count));
        lemma_zeros_denote_zero(count);
    } else {
        lemma_number_zeros(count, digits.drop_last());
        assert(whole.drop_last() =~= zeros(count) + digits.drop_last());
        assert(whole.last() == digits.last());
        assert(whole =~= (zeros(count) + digits.drop_last()).push(digits.last()));
        assert(digits =~= digits.drop_last().push(digits.last()));
        lemma_number_push(zeros(count) + digits.drop_last(), digits.last());
        lemma_number_push(digits.drop_last(), digits.last());
    }
}

/// A run of zeros denotes zero.
proof fn lemma_zeros_denote_zero(count: nat)
    ensures
        number(zeros(count)) == 0,
        all_digits(zeros(count)),
    decreases count,
{
    if count > 0 {
        lemma_zeros_denote_zero((count - 1) as nat);
        assert(zeros(count).drop_last() =~= zeros((count - 1) as nat));
    }
}

/// The digits shown for a number denote that number, with or without zeros
/// to fill up, and the filled form is at least as wide as asked.
pub proof fn lemma_decimal_denotes(n: nat, width: nat)
    ensures
        all_digits(decimal(n)),
        number(decimal(n)) == n,
        all_digits(padded(n, width)),
        number(padded(n, width)) == n,
        padded(n, width).len() >= width,
        padded(n, width).len() >= 1,
    decreases n,
{
    if n < 10 {
        assert(decimal(n).drop_last() =~= Seq::<char>::empty());
        assert(number(decimal(n).drop_last()) == 0);
    } else {
        lemma_decimal_denotes(n / 10, 0);
        lemma_number_push(decimal(n / 10), digit(n % 10));
    }
    if decimal(n).len() < width {
        lemma_number_zeros((width - decimal(n).len()) as nat, decimal(n));
    }
}

/// The text of one digit.
fn digit_text(d: u8) -> (text: &'static str)
    requires
        d < 10,
    ensures
        text@ == seq![digit(d as nat)],
{
    proof {
        reveal_strlit("0");
        reveal_strlit("1");
        reveal_strlit("2");
        reveal_strlit("3");
        reveal_strlit("4");
        reveal_strlit("5");
        reveal_strlit("6");
        reveal_strlit("7");
        reveal_strlit("8");
        reveal_strlit("9");
    }
    let text = match d {
        0 => "0",
        1 => "1",
        2 => "2",
        3 => "3",
        4 => "4",
        5 => "5",
        6 => "6",
        7 => "7",
        8 => "8",
        _ => "9",
    };
    assert(text@ =~= seq![digit(d as nat)]);
    text
}

/// Appends the digits of `n`.
pub(crate) fn push_decimal(out: &mut String, n: u64)
    ensures
        final(out)@ == old(out)@ + decimal(n as nat),
    decreases n,
{
    if n >= 10 {
        push_decimal(out, n / 10);
    }
    let last: u8 = (n % 10) as u8;
    out.append(digit_text(last));
    assert(out@ =~= old(out)@ + decimal(n as nat));
}

/// How many digits `n` has.
fn decimal_len(n: u64) -> (len: usize)
    ensures
        len == decimal(n as nat).len(),
        1 <= len <= 20,
    decreases n,
{
    if n < 10 {
        1
    } else {
        let shorter: usize = decimal_len(n / 10);
        proof {
            lemma_decimal_bound(n as nat);
        }
        shorter + 1
    }
}

/// A number that fits in 64 bits has at most twenty digits.
proof fn lemma_decimal_bound(n: nat)
    requires
        n <= u64::MAX,
    ensures
        decimal(n).len() <= 20,
{
    reveal_with_fuel(decimal, 21);
}

/// Appends the digits of `n`, filled up with zeros on the left to at least
/// `width` characters.
pub(crate) fn push_padded(out: &mut String, n: u64, width: usize)
    ensures
        final(out)@ == old(out)@ + padded(n as nat, width as nat),
{
    let len: usize = decimal_len(n);
    let mut filled: usize = len;
    while filled < width
        invariant
            len <= filled,
            filled <= width || filled == len,
            out@ == old(out)@ + zeros((filled - len) as nat),
        decreases width - filled,
    {
        out.append("0");
        proof {
            reveal_strlit("0");
            assert(zeros((filled - len) as nat) + "0"@ =~= zeros((filled + 1 - len) as nat));
        }
        filled = filled + 1;
    }
    push_decimal(out, n);
    assert(out@ =~= old(out)@ + padded(n as nat, width as nat));
}

} // verus!
