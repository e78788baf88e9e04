//! Text helpers: equality by content, quote trimming of entity tags and
//! decimal rendering of byte offsets.

use vstd::prelude::*;
use vstd::string::StrSliceExecFns;
use vstd::string::StringExecFns;

verus! {

/// What a text is in contracts: its characters.
pub type Text = Seq<char>;

/// What an optional text is in contracts.
pub open spec fn optional_text(value: Option<String>) -> Option<Text> {
    match value {
        Some(text) => Some(text@),
        None => None,
    }
}

/// Whether two texts hold the same characters.
pub fn same_text(left: &str, right: &str) -> (same: bool)
    ensures
        same == (left@ == right@),
{
    let left_owned = String::from_str(left);
    let right_owned = String::from_str(right);
    left_owned == right_owned
}

/// Whether two optional texts are both absent or hold the same characters.
pub fn same_optional_text(left: &Option<String>, right: &Option<String>) -> (same: bool)
    ensures
        same == (optional_text(*left) == optional_text(*right)),
{
    match (left, right) {
        (Some(l), Some(r)) => same_text(l.as_str(), r.as_str()),
        (None, None) => true,
        _ => false,
    }
}

/// A copy of a text.
pub fn copy_text(text: &String) -> (copy: String)
    ensures
        copy@ == text@,
{
    text.clone()
}

/// A copy of an optional text.
pub fn copy_optional_text(value: &Option<String>) -> (copy: Option<String>)
    ensures
        optional_text(copy) == optional_text(*value),
{
    match value {
        Some(text) => Some(text.clone()),
        None => None,
    }
}

/// A text without the double quotes it starts with.
pub open spec fn without_leading_quotes(text: Text) -> Text
    decreases text.len(),
{
    if text.len() > 0 && text[0] == '"' {
        without_leading_quotes(text.drop_first())
    } else {
        text
    }
}

/// A text without the double quotes it ends with.
pub open spec fn without_trailing_quotes(text: Text) -> Text
    decreases text.len(),
{
    if text.len() > 0 && text.last() == '"' {
        without_trailing_quotes(text.drop_last())
    } else {
        text
    }
}

/// A text without the double quotes around it, however many there are.
pub open spec fn unquoted(text: Text) -> Text {
    without_trailing_quotes(without_leading_quotes(text))
}

/// A text without its quotes neither starts nor ends with a quote, so taking
/// the quotes off once more changes nothing.
pub proof fn lemma_unquoted_is_stable(text: Text)
    ensures
        unquoted(text).len() > 0 ==> unquoted(text)[0] != '"' && unquoted(text).last() != '"',
        unquoted(unquoted(text)) == unquoted(text),
{
    lemma_leading_quotes_gone(text);
    lemma_trailing_quotes_gone(without_leading_quotes(text));
    let trimmed = unquoted(text);
    if trimmed.len() > 0 {
        assert(without_leading_quotes(trimmed) == trimmed);
        assert(without_trailing_quotes(trimmed) == trimmed);
    } else {
        assert(without_leading_quotes(trimmed) == trimmed);
    }
}

proof fn lemma_leading_quotes_gone(text: Text)
    ensures
        without_leading_quotes(text).len() > 0 ==> without_leading_quotes(text)[0] != '"',
    decreases text.len(),
{
    if text.len() > 0 && text[0] == '"' {
        lemma_leading_quotes_gone(text.drop_first());
    }
}

proof fn lemma_trailing_quotes_gone(text: Text)
    ensures
        without_trailing_quotes(text).len() > 0 ==> without_trailing_quotes(text).last() != '"',
        without_trailing_quotes(text).len() > 0 ==> without_trailing_quotes(text)[0] == text[0],
        without_trailing_quotes(text).len() <= text.len(),
    decreases text.len(),
{
    if text.len() > 0 && text.last() == '"' {
        lemma_trailing_quotes_gone(text.drop_last());
    }
}

/// Removes every double quote from the start and from the end of a text.
pub fn trim_quotes(text: &str) -> (trimmed: String)
    ensures
        trimmed@ == unquoted(text@),
{
    let n: usize = text.unicode_len();
    let mut start: usize = 0;
    assert(text@.subrange(0, n as int) =~= text@);
    while start < n && text.get_char(start) == '"'
        invariant
            start <= n,
            n == text@.len(),
            without_leading_quotes(text@) == without_leading_quotes(
                text@.subrange(start as int, n as int),
            ),
        decreases n - start,
    {
        proof {
            let rest = text@.subrange(start as int, n as int);
            assert(rest.drop_first() =~= text@.subrange(start + 1, n as int));
        }
        start = start + 1;
    }
    assert(without_leading_quotes(text@) == text@.subrange(start as int, n as int));
    let mut end: usize = n;
    while end > start && text.get_char(end - 1) == '"'
        invariant
            start <= end <= n,
            n == text@.len(),
            without_trailing_quotes(text@.subrange(start as int, n as int))
                == without_trailing_quotes(text@.subrange(start as int, end as int)),
        decreases end - start,
    {
        proof {
            let rest = text@.subrange(start as int, end as int);
            assert(rest.drop_last() =~= text@.subrange(start as int, end - 1));
        }
        end = end - 1;
    }
    assert(unquoted(text@) == text@.subrange(start as int, end as int));
    String::from_str(text.substring_char(start, end))
}

/// The character of one decimal digit.
pub open spec fn digit_char(digit: int) -> char {
    if digit == 0 {
        '0'
    } else if digit == 1 {
        '1'
    } else if digit == 2 {
        '2'
    } else if digit == 3 {
        '3'
    } else if digit == 4 {
        '4'
    } else if digit == 5 {
        '5'
    } else if digit == 6 {
        '6'
    } else if digit == 7 {
        '7'
    } else if digit == 8 {
        '8'
    } else {
        '9'
    }
}

/// A natural number in decimal, without leading zeros.
pub open spec fn decimal_text(n: nat) -> Text
    decreases n,
{
    if n < 10 {
        seq![digit_char(n as int)]
    } else {
        decimal_text(n / 10).push(digit_char((n % 10) as int))
    }
}

fn digit_text(digit: u64) -> (text: &'static str)
    requires
        digit < 10,
    ensures
        text@ == seq![digit_char(digit as int)],
{
    proof {
        reveal_strlit("0");
        reveal_strlit("1");
        reveal_strlit("2");
        reveal_strlit("3");
        reveal_strlit("4");
        reveal_strlit("5");
        reveal_strlit("6");
        reveal_strlit("7");
        reveal_strlit("8");
        reveal_strlit("9");
    }
    let text = if digit == 0 {
        "0"
    } else if digit == 1 {
        "1"
    } else if digit == 2 {
        "2"
    } else if digit == 3 {
        "3"
    } else if digit == 4 {
        "4"
    } else if digit == 5 {
        "5"
    } else if digit == 6 {
        "6"
    } else if digit == 7 {
        "7"
    } else if digit == 8 {
        "8"
    } else {
        "9"
    };
    assert(text@ =~= seq![digit_char(digit as int)]);
    text
}

/// Appends a number in decimal to a text.
pub fn push_decimal(out: &mut String, n: u64)
    ensures
        final(out)@ == old(out)@ + decimal_text(n as nat),
    decreases n,
{
    if n >= 10 {
        push_decimal(out, n / 10);
    }
    out.append(digit_text(n % 10));
    assert(final(out)@ =~= old(out)@ + decimal_text(n as nat));
}

/// An integer in decimal, with a minus sign when it is negative.
pub open spec fn signed_decimal_text(n: int) -> Text {
    if n < 0 {
        seq!['-'] + decimal_text((-n) as nat)
    } else {
        decimal_text(n as nat)
    }
}

/// Appends an integer in decimal to a text.
pub fn push_signed_decimal(out: &mut String, n: i64)
    ensures
        final(out)@ == old(out)@ + signed_decimal_text(n as int),
{
    if n < 0 {
        proof {
            reveal_strlit("-");
        }
        out.append("-");
        let magnitude: i128 = -(n as i128);
        push_decimal(out, magnitude as u64);
        assert(final(out)@ =~= old(out)@ + signed_decimal_text(n as int));
    } else {
        push_decimal(out, n as u64);
    }
}

/// A text that starts with a literal.
pub fn text_from(literal: &str) -> (text: String)
    ensures
        text@ == literal@,
{
    String::from_str(literal)
}

} // verus!
