//! Decimal numbers in text, and text that may be missing.

use vstd::prelude::*;
use vstd::string::*;

verus! {

/// The words of a text that is there.
pub open spec fn words(text: Option<String>) -> Option<Seq<char>> {
    match text {
        Some(text) => Some(text@),
        None => None,
    }
}

/// The character for the digit `d`.
pub open spec fn digit(d: nat) -> char
    recommends
        d < 10,
{
    ('0' as nat + d) as char
}

/// `n` in decimal, without leading zeros.
pub open spec fn decimal(n: nat) -> Seq<char>
    decreases n,
{
    if n < 10 {
        seq![digit(n)]
    } else {
        decimal(n / 10).push(digit(n % 10))
    }
}

/// The one-character text of a digit.
fn digit_text(d: u64) -> (text: &'static str)
    requires
        d < 10,
    ensures
        text@ == seq![digit(d as nat)],
{
    proof {
        reveal_strlit("0");
        reveal_strlit("1");
        reveal_strlit("2");
        reveal_strlit("3");
        reveal_strlit("4");
        reveal_strlit("5");
        reveal_strlit("6");
        reveal_strlit("7");
        reveal_strlit("8");
        reveal_strlit("9");
    }
    match d {
        0 => "0",
        1 => "1",
        2 => "2",
        3 => "3",
        4 => "4",
        5 => "5",
        6 => "6",
        7 => "7",
        8 => "8",
        _ => "9",
    }
}

/// Appends `n` in decimal to `text`.
pub fn append_decimal(text: &mut String, n: u64)
    ensures
        final(text)@ == old(text)@ + decimal(n as nat),
    decreases n,
{
    if n >= 10 {
        append_decimal(text, n / 10);
    }
    text.append(digit_text(n % 10));
    assert(text@ =~= old(text)@ + decimal(n as nat));
}

/// The value that a decimal text stands for.
pub open spec fn decimal_value(text: Seq<char>) -> nat
    decreases text.len(),
{
    if text.len() == 0 {
        0
    } else {
        decimal_value(text.drop_last()) * 10 + (text.last() as nat - '0' as nat) as nat
    }
}

/// Reading a decimal text back gives the number that was written.
pub proof fn decimal_reads_back(n: nat)
    ensures
        decimal_value(decimal(n)) == n,
    decreases n,
{
    if n < 10 {
        let one = seq![digit(n)];
        assert(one.drop_last() =~= Seq::<char>::empty());
        assert(decimal_value(one.drop_last()) == 0);
    } else {
        decimal_reads_back(n / 10);
        assert(decimal(n).drop_last() =~= decimal(n / 10));
    }
}

/// The character is a decimal digit.
pub open spec fn is_digit(c: char) -> bool {
    '0' as nat <= c as nat <= '9' as nat
}

/// The text writes `n` in decimal: it has nothing but digits, no leading zero, and reads
/// as `n`.
pub open spec fn writes(text: Seq<char>, n: nat) -> bool {
    &&& text.len() > 0
    &&& forall|i: int| 0 <= i < text.len() ==> is_digit(#[trigger] text[i])
    &&& text.len() > 1 ==> text[0] != '0'
    &&& decimal_value(text) == n
}

/// Every number is written: [`decimal`] writes it.
pub proof fn numbers_are_written(n: nat)
    ensures
        writes(decimal(n), n),
    decreases n,
{
    decimal_reads_back(n);
    if n >= 10 {
        let text = decimal(n);
        let front = decimal(n / 10);
        numbers_are_written(n / 10);
        assert(text.drop_last() =~= front);
        assert forall|i: int| 0 <= i < text.len() implies is_digit(#[trigger] text[i]) by {
            if i < front.len() {
                assert(text[i] == front[i]);
            }
        }
        assert(text[0] == front[0]);
        if front.len() == 1 {
            assert(front.drop_last() =~= Seq::<char>::empty());
            assert(decimal_value(front.drop_last()) == 0);
            assert(front.last() == front[0]);
        }
    }
}

/// Characters of the same number are the same.
proof fn lemma_same_character(a: char, b: char)
    ensures
        a as nat == b as nat ==> a == b,
{
}

/// A text of digits that does not begin with a zero reads as a positive number.
proof fn lemma_leading_digit_counts(text: Seq<char>)
    requires
        text.len() > 0,
        forall|i: int| 0 <= i < text.len() ==> is_digit(#[trigger] text[i]),
        text[0] != '0',
    ensures
        decimal_value(text) >= 1,
    decreases text.len(),
{
    let front = text.drop_last();
    if text.len() == 1 {
        assert(decimal_value(front) == 0);
        assert(text.last() == text[0]);
        lemma_same_character(text[0], '0');
    } else {
        assert forall|i: int| 0 <= i < front.len() implies is_digit(#[trigger] front[i]) by {
            assert(front[i] == text[i]);
        }
        assert(front[0] == text[0]);
        lemma_leading_digit_counts(front);
    }
}

/// A number is written in one way only.
pub proof fn writings_are_unique(first: Seq<char>, second: Seq<char>, n: nat)
    requires
        writes(first, n),
        writes(second, n),
    ensures
        first == second,
    decreases first.len(),
{
    let a = first.drop_last();
    let b = second.drop_last();
    lemma_writing_ends(first, n);
    lemma_writing_ends(second, n);
    lemma_same_character(first.last(), second.last());
    if n < 10 {
        assert(first[0] == first.last() && second[0] == second.last());
        assert(first =~= second);
    } else {
        writings_are_unique(a, b, n / 10);
        assert(first =~= a.push(first.last()));
        assert(second =~= b.push(second.last()));
    }
}

/// A writing ends with the last digit of the number, behind a writing of the others.
proof fn lemma_writing_ends(text: Seq<char>, n: nat)
    requires
        writes(text, n),
    ensures
        text.last() as nat == '0' as nat + n % 10,
        n < 10 <==> text.len() == 1,
        n >= 10 ==> writes(text.drop_last(), n / 10),
{
    let front = text.drop_last();
    assert(text.last() == text[text.len() - 1]);
    if text.len() == 1 {
        assert(decimal_value(front) == 0);
    } else {
        assert forall|i: int| 0 <= i < front.len() implies is_digit(#[trigger] front[i]) by {
            assert(front[i] == text[i]);
        }
        assert(front[0] == text[0]);
        lemma_leading_digit_counts(front);
    }
}

/// A text that is there keeps its characters.
pub proof fn texts_keep_their_words(text: String)
    ensures
        words(Some(text)) == Some(text@),
        words(None) is None,
{
}

} // verus!
