//! Plain text operations.

use vstd::prelude::*;

verus! {

/// `text` begins with `prefix`.
pub open spec fn has_prefix(text: Seq<char>, prefix: Seq<char>) -> bool {
    prefix.len() <= text.len() && text.take(prefix.len() as int) == prefix
}

/// The characters of a text.
fn chars_of(text: &str) -> (chars: Vec<char>)
    ensures
        chars@ == text@,
{
    let mut chars: Vec<char> = Vec::new();
    for c in iter: text.chars()
        invariant
            chars@ == iter.seq().take(iter.index()),
            iter.seq() == text@,
    {
        chars.push(c);
    }
    chars
}

/// Whether `text` begins with `prefix`.
pub fn starts_with(text: &str, prefix: &str) -> (starts: bool)
    ensures
        starts == has_prefix(text@, prefix@),
{
    let whole = chars_of(text);
    let start = chars_of(prefix);
    if start.len() > whole.len() {
        return false;
    }
    let mut i: usize = 0;
    while i < start.len()
        invariant
            i <= start.len() <= whole.len(),
            whole@ == text@,
            start@ == prefix@,
            forall|k: int| 0 <= k < i ==> whole@[k] == start@[k],
        decreases start.len() - i,
    {
        if whole[i] != start[i] {
            proof {
                assert(text@.take(prefix@.len() as int)[i as int] == whole@[i as int]);
            }
            return false;
        }
        i = i + 1;
    }
    proof {
        assert(text@.take(prefix@.len() as int) =~= prefix@);
    }
    true
}

/// The decimal digits of a number.
pub open spec fn decimal(n: nat) -> Seq<char>
    decreases n,
{
    let digit = ((48 + n % 10) as u8) as char;
    if n < 10 {
        seq![digit]
    } else {
        decimal(n / 10).push(digit)
    }
}

spec fn ten_to(digits: nat) -> nat
    decreases digits,
{
    if digits == 0 {
        1
    } else {
        10 * ten_to((digits - 1) as nat)
    }
}

proof fn lemma_decimal_len(n: nat, digits: nat)
    requires
        n < ten_to(digits),
        digits > 0,
    ensures
        1 <= decimal(n).len() <= digits,
    decreases digits,
{
    if n >= 10 {
        reveal_with_fuel(ten_to, 2);
        lemma_decimal_len(n / 10, (digits - 1) as nat);
    }
}

/// A machine number has at most twenty decimal digits.
pub proof fn lemma_ratio_len(shown: usize, total: usize)
    ensures
        3 <= ratio(shown as nat, total as nat).len() <= 41,
{
    assert(ten_to(20) > u64::MAX) by {
        reveal_with_fuel(ten_to, 21);
    }
    lemma_decimal_len(shown as nat, 20);
    lemma_decimal_len(total as nat, 20);
}

/// Appends one decimal digit.
fn push_digit(text: &mut String, digit: usize)
    requires
        digit < 10,
    ensures
        final(text)@ == old(text)@.push(((48 + digit) as u8) as char),
{
    let digit_text = if digit == 0 {
        "0"
    } else if digit == 1 {
        "1"
    } else if digit == 2 {
        "2"
    } else if digit == 3 {
        "3"
    } else if digit == 4 {
        "4"
    } else if digit == 5 {
        "5"
    } else if digit == 6 {
        "6"
    } else if digit == 7 {
        "7"
    } else if digit == 8 {
        "8"
    } else {
        "9"
    };
    proof {
        reveal_strlit("0");
        reveal_strlit("1");
        reveal_strlit("2");
        reveal_strlit("3");
        reveal_strlit("4");
        reveal_strlit("5");
        reveal_strlit("6");
        reveal_strlit("7");
        reveal_strlit("8");
        reveal_strlit("9");
        assert(text@ + digit_text@ =~= text@.push(((48 + digit) as u8) as char));
    }
    text.append(digit_text);
}

/// Appends a number in decimal.
fn push_decimal(text: &mut String, n: usize)
    ensures
        final(text)@ == old(text)@ + decimal(n as nat),
    decreases n,
{
    if n >= 10 {
        push_decimal(text, n / 10);
    }
    push_digit(text, n % 10);
    proof {
        assert(text@ =~= old(text)@ + decimal(n as nat));
    }
}

/// `shown` of `total`, as the text `shown/total`.
pub open spec fn ratio(shown: nat, total: nat) -> Seq<char> {
    decimal(shown).push('/') + decimal(total)
}

/// Writes `shown` of `total` as the text `shown/total`.
pub fn ratio_text(shown: usize, total: usize) -> (text: String)
    ensures
        text@ == ratio(shown as nat, total as nat),
{
    let mut text = String::new();
    push_decimal(&mut text, shown);
    proof {
        reveal_strlit("/");
    }
    text.append("/");
    proof {
        assert(text@ =~= decimal(shown as nat).push('/'));
    }
    push_decimal(&mut text, total);
    text
}

/// The number that decimal digits stand for.
pub open spec fn number_of(digits: Seq<char>) -> int
    decreases digits.len(),
{
    if digits.len() == 0 {
        0
    } else {
        10 * number_of(digits.drop_last()) + (digits.last() as int - '0' as int)
    }
}

/// A number in decimal consists of digits, begins with no superfluous zero, and stands for that
/// number.
pub proof fn law_decimal_stands_for_the_number(n: nat)
    ensures
        decimal(n).len() > 0,
        forall|i: int| 0 <= i < decimal(n).len() ==> '0' <= #[trigger] decimal(n)[i] <= '9',
        n > 0 ==> decimal(n)[0] != '0',
        number_of(decimal(n)) == n,
    decreases n,
{
    reveal_with_fuel(number_of, 2);
    if n >= 10 {
        law_decimal_stands_for_the_number(n / 10);
        assert(decimal(n).drop_last() =~= decimal(n / 10));
    } else {
        assert(decimal(n).drop_last() =~= seq![]);
    }
}

/// A ratio is the first number, a slash and the second number.
pub proof fn law_ratio_shows_both_numbers(shown: nat, total: nat)
    ensures
        exists|slash: int|
            0 < slash < ratio(shown, total).len() - 1 && #[trigger] ratio(shown, total)[slash]
                == '/' && number_of(ratio(shown, total).take(slash)) == shown && number_of(
                ratio(shown, total).skip(slash + 1),
            ) == total,
{
    law_decimal_stands_for_the_number(shown);
    law_decimal_stands_for_the_number(total);
    let slash = decimal(shown).len() as int;
    assert(ratio(shown, total)[slash] == '/');
    assert(ratio(shown, total).take(slash) =~= decimal(shown));
    assert(ratio(shown, total).skip(slash + 1) =~= decimal(total));
}

/// A text begins with a prefix exactly if the prefix is no longer and they agree in each of its
/// characters.
pub proof fn law_prefix_agrees(text: Seq<char>, prefix: Seq<char>)
    ensures
        has_prefix(text, prefix) <==> prefix.len() <= text.len() && forall|i: int|
            0 <= i < prefix.len() ==> #[trigger] prefix[i] == text[i],
{
    if prefix.len() <= text.len() {
        let start = text.take(prefix.len() as int);
        if has_prefix(text, prefix) {
            assert forall|i: int| 0 <= i < prefix.len() implies #[trigger] prefix[i] == text[i] by {
                assert(start[i] == text[i]);
            }
        }
        if forall|i: int| 0 <= i < prefix.len() ==> #[trigger] prefix[i] == text[i] {
            assert(start =~= prefix);
        }
    }
}

} // verus!
