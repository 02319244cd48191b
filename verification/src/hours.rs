//! The hour window of a price, as the remote service writes it: two hours of
//! the day with a dash between them, such as `13-14`. The reading is lenient
//! in what surrounds that: a plus sign before an hour, leading zeros, and
//! further hours behind more dashes are let pass.

use crate::decimal::{all_digits, is_digit, lemma_number_push, number};
use vstd::prelude::*;

verus! {

/// A piece without the plus sign that may stand before its digits.
pub open spec fn unsigned(piece: Seq<char>) -> Seq<char> {
    if piece.len() > 1 && piece[0] == '+' {
        piece.skip(1)
    } else {
        piece
    }
}

/// The hour that a piece denotes: at least one digit, nothing but digits after
/// an optional plus sign, and a value that fits in eight bits.
pub open spec fn parse_hour(piece: Seq<char>) -> Option<u8> {
    let digits = unsigned(piece);
    if digits.len() > 0 && all_digits(digits) && number(digits) <= u8::MAX {
        Some(number(digits) as u8)
    } else {
        None
    }
}

/// The pieces that the dashes of `text` part it into, in order. A text with
/// `n` dashes has `n + 1` pieces, some of which may be empty.
pub open spec fn pieces(text: Seq<char>) -> Seq<Seq<char>>
    decreases text.len(),
{
    if text.len() == 0 {
        seq![Seq::empty()]
    } else {
        let before = pieces(text.drop_last());
        if text.last() == '-' {
            before.push(Seq::empty())
        } else {
            before.update(before.len() - 1, before.last().push(text.last()))
        }
    }
}

/// The hour window that `text` denotes: the first two of its pieces, where
/// there are at least two and every piece denotes an hour.
pub open spec fn hour_range(text: Seq<char>) -> Option<(u8, u8)> {
    let parts = pieces(text);
    if parts.len() >= 2 && (forall|i: int| 0 <= i < parts.len() ==> (#[trigger] parse_hour(
        parts[i],
    )) is Some) {
        Some((parse_hour(parts[0])->0, parse_hour(parts[1])->0))
    } else {
        None
    }
}

/// Whether `text` holds no dash.
pub open spec fn dashless(text: Seq<char>) -> bool {
    forall|i: int| 0 <= i < text.len() ==> #[trigger] text[i] != '-'
}

/// The text that has the given parts with one dash between each two of them.
pub open spec fn joined(parts: Seq<Seq<char>>) -> Seq<char>
    decreases parts.len(),
{
    if parts.len() == 0 {
        Seq::empty()
    } else if parts.len() == 1 {
        parts[0]
    } else {
        joined(parts.drop_last()).push('-') + parts.last()
    }
}

/// The pieces of a text are what stands between its dashes: there is at least
/// one piece, no piece holds a dash, and the pieces with dashes between them
/// are the text again.
pub proof fn lemma_pieces_join(text: Seq<char>)
    ensures
        pieces(text).len() >= 1,
        forall|i: int| 0 <= i < pieces(text).len() ==> dashless(#[trigger] pieces(text)[i]),
        joined(pieces(text)) == text,
    decreases text.len(),
{
    if text.len() == 0 {
        assert(joined(pieces(text)) =~= text);
    } else {
        let shorter = text.drop_last();
        let before = pieces(shorter);
        let parts = pieces(text);
        lemma_pieces_join(shorter);
        assert(text =~= shorter.push(text.last()));
        if text.last() == '-' {
            assert(parts.drop_last() =~= before);
            assert(joined(parts) =~= text);
            assert forall|i: int| 0 <= i < parts.len() implies dashless(#[trigger] parts[i]) by {
                if i < before.len() {
                    assert(parts[i] == before[i]);
                }
            }
        } else {
            let last = before.last().push(text.last());
            assert(parts.last() == last);
            if before.len() == 1 {
                assert(joined(parts) =~= text);
            } else {
                assert(parts.drop_last() =~= before.drop_last());
                assert(joined(before) == joined(before.drop_last()).push('-') + before.last());
                assert(joined(parts) =~= text);
            }
            assert forall|i: int| 0 <= i < parts.len() implies dashless(#[trigger] parts[i]) by {
                if i < before.len() - 1 {
                    assert(parts[i] == before[i]);
                } else {
                    assert(dashless(before.last()));
                    assert forall|j: int| 0 <= j < last.len() implies #[trigger] last[j] != '-' by {
                        if j < before.last().len() {
                            assert(last[j] == before.last()[j]);
                        }
                    }
                }
            }
        }
    }
}

/// Text without a dash, put behind another text, lengthens the last piece of
/// that text and makes no new piece.
proof fn lemma_pieces_append(text: Seq<char>, more: Seq<char>)
    requires
        dashless(more),
    ensures
        pieces(text).len() >= 1,
        pieces(text + more) == pieces(text).update(
            pieces(text).len() - 1,
            pieces(text).last() + more,
        ),
    decreases more.len(),
{
    lemma_pieces_join(text);
    let before = pieces(text);
    if more.len() == 0 {
        assert(text + more =~= text);
        assert(before.last() + more =~= before.last());
        assert(before.update(before.len() - 1, before.last()) =~= before);
    } else {
        let shorter = more.drop_last();
        let c = more.last();
        assert(more[more.len() - 1] != '-');
        assert(dashless(shorter)) by {
            assert forall|i: int| 0 <= i < shorter.len() implies #[trigger] shorter[i] != '-' by {
                assert(shorter[i] == more[i]);
            }
        }
        lemma_pieces_append(text, shorter);
        let whole = text + more;
        assert(whole.drop_last() =~= text + shorter);
        assert(whole.last() == c);
        let middle = pieces(text + shorter);
        assert(middle.last() == before.last() + shorter);
        assert(before.last() + more =~= (before.last() + shorter).push(c));
        assert(pieces(whole) =~= before.update(before.len() - 1, before.last() + more));
    }
}

/// Parts that hold no dash are the pieces of the text that has them with
/// dashes between them: parting undoes joining.
pub proof fn lemma_pieces_of_joined(parts: Seq<Seq<char>>)
    requires
        parts.len() >= 1,
        forall|i: int| 0 <= i < parts.len() ==> dashless(#[trigger] parts[i]),
    ensures
        pieces(joined(parts)) == parts,
    decreases parts.len(),
{
    if parts.len() == 1 {
        lemma_pieces_append(Seq::empty(), parts[0]);
        assert(Seq::<char>::empty() + parts[0] =~= parts[0]);
        assert(pieces(Seq::<char>::empty()) =~= seq![Seq::<char>::empty()]);
        assert(pieces(joined(parts)) =~= parts);
    } else {
        let front = parts.drop_last();
        assert forall|i: int| 0 <= i < front.len() implies dashless(#[trigger] front[i]) by {
            assert(front[i] == parts[i]);
        }
        lemma_pieces_of_joined(front);
        let dashed = joined(front).push('-');
        assert(dashed.drop_last() =~= joined(front));
        assert(pieces(dashed) == front.push(Seq::empty()));
        lemma_pieces_append(dashed, parts.last());
        assert(Seq::<char>::empty() + parts.last() =~= parts.last());
        assert(pieces(joined(parts)) =~= parts);
    }
}

/// Two runs of digits with a dash between them are the window from the number
/// of the first to the number of the second, where both numbers fit in eight bits.
pub proof fn lemma_window_of_two_hours(first: Seq<char>, second: Seq<char>)
    requires
        first.len() > 0 && all_digits(first) && number(first) <= u8::MAX,
        second.len() > 0 && all_digits(second) && number(second) <= u8::MAX,
    ensures
        hour_range(first.push('-') + second) == Some((number(first) as u8, number(second) as u8)),
{
    let parts = seq![first, second];
    assert(dashless(first)) by {
        assert forall|i: int| 0 <= i < first.len() implies #[trigger] first[i] != '-' by {
            assert(is_digit(first[i]));
        }
    }
    assert(dashless(second)) by {
        assert forall|i: int| 0 <= i < second.len() implies #[trigger] second[i] != '-' by {
            assert(is_digit(second[i]));
        }
    }
    assert(parts.drop_last() =~= seq![first]);
    assert(joined(seq![first]) == first);
    assert(joined(parts) == first.push('-') + second);
    lemma_pieces_of_joined(parts);
    assert(is_digit(first[0]) && is_digit(second[0]));
    assert(unsigned(first) == first);
    assert(unsigned(second) == second);
    assert forall|i: int| 0 <= i < parts.len() implies (#[trigger] parse_hour(parts[i])) is Some by {
        if i == 0 {
            assert(parts[i] == first);
        } else {
            assert(parts[i] == second);
        }
    }
}

/// A piece read as a plus sign, where it begins with one, and the rest denotes
/// an hour exactly where the rest is a run of digits that does.
proof fn lemma_signed_piece(plus: bool, rest: Seq<char>)
    requires
        !plus && rest.len() > 0 ==> rest[0] != '+',
    ensures
        parse_hour(
            if plus {
                seq!['+'] + rest
            } else {
                rest
            },
        ) == if rest.len() > 0 && all_digits(rest) && number(rest) <= u8::MAX {
            Some(number(rest) as u8)
        } else {
            None
        },
{
    if plus {
        let piece = seq!['+'] + rest;
        if rest.len() > 0 {
            assert(piece.skip(1) =~= rest);
        } else {
            assert(unsigned(piece) =~= piece);
            assert(!is_digit(piece[0]));
        }
    }
}

/// Reads the hour window out of `text`.
pub fn parse_hour_range(text: &str) -> (range: Option<(u8, u8)>)
    ensures
        range == hour_range(text@),
{
    let len: usize = text.unicode_len();
    // What is known of the pieces that a dash has closed.
    let mut closed: usize = 0;
    let mut closed_ok: bool = true;
    let mut first: u8 = 0;
    let mut second: u8 = 0;
    // What is known of the piece that is still open.
    let mut plus: bool = false;
    let mut empty: bool = true;
    let mut good: bool = true;
    let mut value: u32 = 0;
    let ghost mut digits: Seq<char> = Seq::empty();
    let mut at: usize = 0;
    while at < len
        invariant
            len == text@.len(),
            at <= len,
            closed <= at,
            closed + 1 == pieces(text@.take(at as int)).len(),
            closed_ok <==> forall|i: int|
                0 <= i < closed ==> (#[trigger] parse_hour(
                    pieces(text@.take(at as int))[i],
                )) is Some,
            closed_ok && closed >= 1 ==> parse_hour(pieces(text@.take(at as int))[0]) == Some(
                first,
            ),
            closed_ok && closed >= 2 ==> parse_hour(pieces(text@.take(at as int))[1]) == Some(
                second,
            ),
            pieces(text@.take(at as int)).last() == if plus {
                seq!['+'] + digits
            } else {
                digits
            },
            !plus && digits.len() > 0 ==> digits[0] != '+',
            empty <==> digits.len() == 0,
            good <==> all_digits(digits) && number(digits) <= u8::MAX,
            good ==> value == number(digits),
        decreases len - at,
    {
        let c: char = text.get_char(at);
        let ghost before = pieces(text@.take(at as int));
        let ghost after = pieces(text@.take(at + 1));
        proof {
            assert(text@.take(at + 1).drop_last() =~= text@.take(at as int));
            assert(text@.take(at + 1).last() == c);
        }
        if c == '-' {
            let done: Option<u8> = if good && !empty {
                Some(value as u8)
            } else {
                None
            };
            proof {
                let piece = before.last();
                assert(after =~= before.push(Seq::empty()));
                lemma_signed_piece(plus, digits);
                assert(done == parse_hour(piece));
                assert(forall|i: int| 0 <= i <= closed ==> after[i] == before[i]);
            }
            match done {
                Some(hour) => {
                    if closed == 0 {
                        first = hour;
                    } else if closed == 1 {
                        second = hour;
                    }
                },
                None => {
                    closed_ok = false;
                },
            }
            closed = closed + 1;
            plus = false;
            empty = true;
            good = true;
            value = 0;
            proof {
                digits = Seq::empty();
            }
        } else {
            proof {
                assert(after =~= before.update(before.len() - 1, before.last().push(c)));
                assert(forall|i: int| 0 <= i < closed ==> after[i] == before[i]);
            }
            if c == '+' && empty && !plus {
                plus = true;
                proof {
                    assert(before.last().push(c) =~= seq!['+'] + digits);
                }
            } else {
                proof {
                    lemma_number_push(digits, c);
                    if plus {
                        assert(before.last().push(c) =~= seq!['+'] + digits.push(c));
                    }
                }
                if good && '0' <= c && c <= '9' {
                    let d: u32 = c as u32 - '0' as u32;
                    value = value * 10 + d;
                    if value > 255 {
                        good = false;
                    }
                } else {
                    good = false;
                }
                empty = false;
                proof {
                    digits = digits.push(c);
                }
            }
        }
        at = at + 1;
    }
    proof {
        assert(text@.take(at as int) =~= text@);
        let parts = pieces(text@);
        let piece = parts.last();
        lemma_signed_piece(plus, digits);
        assert(parse_hour(piece) == if good && !empty {
            Some(value as u8)
        } else {
            None
        });
    }
    if closed_ok && good && !empty && closed >= 1 {
        if closed == 1 {
            second = value as u8;
        }
        Some((first, second))
    } else {
        None
    }
}

} // verus!
