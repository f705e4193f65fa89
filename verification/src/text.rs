//! Decimal notation.
use vstd::prelude::*;

verus! {

/// The decimal digit of a value below ten.
pub open spec fn digit(value: nat) -> char {
    (48 + value) as char
}

/// A number in decimal notation, without leading zeros.
pub open spec fn decimal(value: nat) -> Seq<char>
    decreases value,
{
    if value < 10 {
        seq![digit(value)]
    } else {
        decimal(value / 10).push(digit(value % 10))
    }
}

/// The digit of `value` as text.
fn digit_text(value: u128) -> (text: &'static str)
    requires
        value < 10,
    ensures
        text@ == seq![digit(value as nat)],
{
    proof {
        reveal_strlit("0");
        reveal_strlit("1");
        reveal_strlit("2");
        reveal_strlit("3");
        reveal_strlit("4");
        reveal_strlit("5");
        reveal_strlit("6");
        reveal_strlit("7");
        reveal_strlit("8");
        reveal_strlit("9");
    }
    if value == 0 {
        "0"
    } else if value == 1 {
        "1"
    } else if value == 2 {
        "2"
    } else if value == 3 {
        "3"
    } else if value == 4 {
        "4"
    } else if value == 5 {
        "5"
    } else if value == 6 {
        "6"
    } else if value == 7 {
        "7"
    } else if value == 8 {
        "8"
    } else {
        "9"
    }
}

/// Writes `value` in decimal notation.
pub fn decimal_text(value: u128) -> (text: String)
    ensures
        text@ == decimal(value as nat),
    decreases value,
{
    let mut text = if value < 10 {
        String::new()
    } else {
        decimal_text(value / 10)
    };
    text.append(digit_text(value % 10));
    text
}

/// The number that a decimal notation stands for.
pub open spec fn decimal_value(text: Seq<char>) -> int
    decreases text.len(),
{
    if text.len() == 0 {
        0
    } else {
        10 * decimal_value(text.drop_last()) + (text.last() as int - 48)
    }
}

/// Reading a decimal notation back gives the number that was written.
pub proof fn law_decimal_reads_back(value: nat)
    ensures
        decimal_value(decimal(value)) == value,
    decreases value,
{
    reveal_with_fuel(decimal_value, 2);
    if value >= 10 {
        law_decimal_reads_back(value / 10);
        assert(decimal(value).drop_last() == decimal(value / 10));
    }
}

/// The text is a number as it is usually written: digits, at least one, and no zero in front of
/// others.
pub open spec fn is_numeral(text: Seq<char>) -> bool {
    &&& text.len() > 0
    &&& forall|i: int| 0 <= i < text.len() ==> 48 <= (#[trigger] text[i]) as int <= 57
    &&& text.len() > 1 ==> text[0] as int != 48
}

/// A decimal notation is made of digits and has no leading zeros.
pub proof fn law_decimal_is_a_numeral(value: nat)
    ensures
        is_numeral(decimal(value)),
        value > 0 ==> decimal(value)[0] as int != 48,
    decreases value,
{
    if value >= 10 {
        law_decimal_is_a_numeral(value / 10);
        let front = decimal(value / 10);
        assert forall|i: int| 0 <= i < decimal(value).len() implies 48 <= (
        #[trigger] decimal(value)[i]) as int <= 57 by {
            if i < front.len() {
                assert(decimal(value)[i] == front[i]);
            }
        }
        assert(decimal(value)[0] == front[0]);
    }
}

/// No two numerals stand for one number.
pub proof fn law_numerals_are_unique(one: Seq<char>, other: Seq<char>)
    requires
        is_numeral(one),
        is_numeral(other),
        decimal_value(one) == decimal_value(other),
    ensures
        one == other,
    decreases one.len(),
{
    lemma_numeral(one);
    lemma_numeral(other);
    if one.len() > 1 {
        law_numerals_are_unique(one.drop_last(), other.drop_last());
        assert(one =~= one.drop_last().push(one.last()));
        assert(other =~= other.drop_last().push(other.last()));
    } else {
        assert(one =~= other);
    }
}

/// A numeral of one digit stands for a number below ten, and a longer one for ten times what its
/// front stands for and its last digit on top, which is ten at least.
proof fn lemma_numeral(text: Seq<char>)
    requires
        is_numeral(text),
    ensures
        text.len() == 1 ==> decimal_value(text) == text[0] as int - 48 && 0 <= decimal_value(text)
            < 10,
        text.len() > 1 ==> {
            &&& is_numeral(text.drop_last())
            &&& decimal_value(text) == 10 * decimal_value(text.drop_last()) + (text.last() as int
                - 48)
            &&& decimal_value(text.drop_last()) >= 1
        },
        decimal_value(text) >= 0,
        text[0] as int != 48 ==> decimal_value(text) >= 1,
    decreases text.len(),
{
    reveal_with_fuel(decimal_value, 2);
    if text.len() > 1 {
        let front = text.drop_last();
        assert forall|i: int| 0 <= i < front.len() implies 48 <= (#[trigger] front[i]) as int
            <= 57 by {
            assert(front[i] == text[i]);
        }
        assert(front[0] == text[0]);
        lemma_numeral(front);
    }
}

/// The text is `opening`, then `number` as it is usually written, then `closing`.
pub open spec fn frames_number(
    text: Seq<char>,
    opening: Seq<char>,
    number: int,
    closing: Seq<char>,
) -> bool {
    let end = text.len() - closing.len();
    &&& opening.len() <= end
    &&& text.subrange(0, opening.len() as int) == opening
    &&& text.subrange(end, text.len() as int) == closing
    &&& is_numeral(text.subrange(opening.len() as int, end))
    &&& decimal_value(text.subrange(opening.len() as int, end)) == number
}

/// What frames a number can be taken off again.
pub proof fn lemma_frames_number(opening: Seq<char>, number: nat, closing: Seq<char>)
    ensures
        frames_number(opening + decimal(number) + closing, opening, number as int, closing),
{
    let text = opening + decimal(number) + closing;
    let end = text.len() - closing.len();
    law_decimal_is_a_numeral(number);
    law_decimal_reads_back(number);
    assert(text.subrange(0, opening.len() as int) =~= opening);
    assert(text.subrange(end, text.len() as int) =~= closing);
    assert(text.subrange(opening.len() as int, end) =~= decimal(number));
}

/// Of two texts that are framed alike, only the number can differ.
pub proof fn law_framed_number_decides_the_text(
    one: Seq<char>,
    other: Seq<char>,
    opening: Seq<char>,
    number: int,
    closing: Seq<char>,
)
    requires
        frames_number(one, opening, number, closing),
        frames_number(other, opening, number, closing),
    ensures
        one == other,
{
    let a = one.len() - closing.len();
    let b = other.len() - closing.len();
    let digits = one.subrange(opening.len() as int, a);
    law_numerals_are_unique(digits, other.subrange(opening.len() as int, b));
    assert(one =~= opening + digits + closing);
    assert(other =~= opening + digits + closing);
}

/// A number is written without leading zeros, in digits that stand for it.
pub proof fn law_number_as_text(value: u128, text: String)
    requires
        call_ensures(decimal_text, (value,), text),
    ensures
        is_numeral(text@),
        decimal_value(text@) == value,
{
    law_decimal_is_a_numeral(value as nat);
    law_decimal_reads_back(value as nat);
}

} // verus!
