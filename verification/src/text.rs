//! Numbers and limits as they appear in messages.

use vstd::prelude::*;

verus! {

/// The text of one decimal digit.
pub open spec fn digit(value: nat) -> Seq<char> {
    if value == 0 {
        "0"@
    } else if value == 1 {
        "1"@
    } else if value == 2 {
        "2"@
    } else if value == 3 {
        "3"@
    } else if value == 4 {
        "4"@
    } else if value == 5 {
        "5"@
    } else if value == 6 {
        "6"@
    } else if value == 7 {
        "7"@
    } else if value == 8 {
        "8"@
    } else {
        "9"@
    }
}

/// A number in decimal, without leading zeros.
pub open spec fn decimal(value: nat) -> Seq<char>
    decreases value,
{
    if value < 10 {
        digit(value)
    } else {
        decimal(value / 10) + digit(value % 10)
    }
}

/// An optional limit as its debug output shows it.
pub open spec fn limit_text(limit: Option<usize>) -> Seq<char> {
    match limit {
        Some(most) => "Some("@ + decimal(most as nat) + ")"@,
        None => "None"@,
    }
}

fn digit_str(value: usize) -> (text: &'static str)
    requires
        value < 10,
    ensures
        text@ == digit(value as nat),
{
    match value {
        0 => "0",
        1 => "1",
        2 => "2",
        3 => "3",
        4 => "4",
        5 => "5",
        6 => "6",
        7 => "7",
        8 => "8",
        _ => "9",
    }
}

/// Appends a number in decimal.
pub fn append_decimal(out: &mut String, value: usize)
    ensures
        final(out)@ == old(out)@ + decimal(value as nat),
    decreases value,
{
    if value < 10 {
        out.append(digit_str(value));
    } else {
        append_decimal(out, value / 10);
        out.append(digit_str(value % 10));
        assert(out@ =~= old(out)@ + decimal(value as nat));
    }
}

/// Appends an optional limit as its debug output shows it.
pub fn append_limit(out: &mut String, limit: Option<usize>)
    ensures
        final(out)@ == old(out)@ + limit_text(limit),
{
    match limit {
        Some(most) => {
            out.append("Some(");
            append_decimal(out, most);
            out.append(")");
            assert(out@ =~= old(out)@ + limit_text(limit));
        },
        None => {
            out.append("None");
        },
    }
}

/// The number that a text of decimal digits stands for.
pub open spec fn numeral(text: Seq<char>) -> int
    decreases text.len(),
{
    if text.len() == 0 {
        0
    } else {
        numeral(text.drop_last()) * 10 + (text.last() as int - '0' as int)
    }
}

/// A digit is one character, that of its value.
proof fn lemma_digit(value: nat)
    requires
        value < 10,
    ensures
        digit(value).len() == 1,
        digit(value)[0] as int == '0' as int + value,
{
    reveal_strlit("0");
    reveal_strlit("1");
    reveal_strlit("2");
    reveal_strlit("3");
    reveal_strlit("4");
    reveal_strlit("5");
    reveal_strlit("6");
    reveal_strlit("7");
    reveal_strlit("8");
    reveal_strlit("9");
}

/// A number in decimal reads back as the number, is made of digits alone, and
/// has no leading zero.
pub proof fn law_decimal_reads_back(value: nat)
    ensures
        numeral(decimal(value)) == value,
        decimal(value).len() > 0,
        forall|i: int|
            0 <= i < decimal(value).len() ==> '0' as int <= #[trigger] decimal(value)[i] as int
                && decimal(value)[i] as int <= '9' as int,
        value > 0 ==> decimal(value)[0] as int > '0' as int,
    decreases value,
{
    let text = decimal(value);
    if value < 10 {
        lemma_digit(value);
        assert(numeral(text.drop_last()) == 0);
    } else {
        lemma_digit(value % 10);
        law_decimal_reads_back(value / 10);
        assert(text.drop_last() =~= decimal(value / 10));
        assert(text.last() == digit(value % 10)[0]);
    }
}

/// An explicit limit is shown by its number, between the same brackets whatever
/// the number is.
pub proof fn law_limit_shows_its_number(one: usize, other: usize)
    ensures
        limit_text(Some(one)).len() - decimal(one as nat).len() == limit_text(Some(other)).len()
            - decimal(other as nat).len(),
        limit_text(Some(one)).len() == decimal(one as nat).len() + 6,
        limit_text(Some(one)).subrange(5, 5int + decimal(one as nat).len()) == decimal(one as nat),
        limit_text(Some(one)).take(5) == limit_text(Some(other)).take(5),
        limit_text(Some(one)).last() == limit_text(Some(other)).last(),
        limit_text(Some(one)).last() == ')',
{
    reveal_strlit("Some(");
    reveal_strlit(")");
    assert(limit_text(Some(one)).subrange(5, 5int + decimal(one as nat).len()) =~= decimal(
        one as nat,
    ));
    assert(limit_text(Some(one)).take(5) =~= "Some("@);
    assert(limit_text(Some(other)).take(5) =~= "Some("@);
}

} // verus!
