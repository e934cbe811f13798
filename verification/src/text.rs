//! Text building blocks: decimal numerals and single-character strings.

use vstd::prelude::*;

verus! {

/// The ASCII digit for `d`, where `d` is below ten.
pub open spec fn digit(d: nat) -> char
    recommends
        d < 10,
{
    if d == 0 {
        '0'
    } else if d == 1 {
        '1'
    } else if d == 2 {
        '2'
    } else if d == 3 {
        '3'
    } else if d == 4 {
        '4'
    } else if d == 5 {
        '5'
    } else if d == 6 {
        '6'
    } else if d == 7 {
        '7'
    } else if d == 8 {
        '8'
    } else {
        '9'
    }
}

/// The decimal numeral of `n`, without leading zeros.
pub open spec fn decimal(n: nat) -> Seq<char>
    decreases n,
{
    if n < 10 {
        seq![digit(n)]
    } else {
        decimal(n / 10).push(digit(n % 10))
    }
}

/// The decimal numeral of `n`, with a minus sign in front of a negative number.
pub open spec fn signed_decimal(n: int) -> Seq<char> {
    if n < 0 {
        seq!['-'] + decimal((-n) as nat)
    } else {
        decimal(n as nat)
    }
}

/// Appends the digit for `d`.
fn append_digit(out: &mut String, d: u64)
    requires
        d < 10,
    ensures
        final(out)@ == old(out)@.push(digit(d as nat)),
{
    let text = if d == 0 {
        "0"
    } else if d == 1 {
        "1"
    } else if d == 2 {
        "2"
    } else if d == 3 {
        "3"
    } else if d == 4 {
        "4"
    } else if d == 5 {
        "5"
    } else if d == 6 {
        "6"
    } else if d == 7 {
        "7"
    } else if d == 8 {
        "8"
    } else {
        "9"
    };
    proof {
        reveal_strlit("0");
        reveal_strlit("1");
        reveal_strlit("2");
        reveal_strlit("3");
        reveal_strlit("4");
        reveal_strlit("5");
        reveal_strlit("6");
        reveal_strlit("7");
        reveal_strlit("8");
        reveal_strlit("9");
    }
    out.append(text);
    assert(out@ =~= old(out)@.push(digit(d as nat)));
}

/// Appends the decimal numeral of `n`.
pub fn append_decimal(out: &mut String, n: u64)
    ensures
        final(out)@ == old(out)@ + decimal(n as nat),
    decreases n,
{
    if n >= 10 {
        append_decimal(out, n / 10);
    }
    append_digit(out, n % 10);
    assert(out@ =~= old(out)@ + decimal(n as nat));
}

/// The decimal numeral of a signed number.
pub fn signed_numeral(n: i32) -> (text: String)
    ensures
        text@ == signed_decimal(n as int),
{
    let mut text = String::new();
    if n < 0 {
        proof {
            reveal_strlit("-");
        }
        text.append("-");
        assert(text@ =~= seq!['-']);
        append_decimal(&mut text, (-(n as i64)) as u64);
    } else {
        append_decimal(&mut text, n as u64);
        assert(text@ =~= decimal(n as nat));
    }
    text
}

/// The character that `text` consists of, where it consists of exactly one.
pub open spec fn only_char(text: Seq<char>) -> Option<char> {
    if text.len() == 1 {
        Some(text[0])
    } else {
        None
    }
}

/// Returns the character of a one-character text.
pub fn single_char(text: &str) -> (c: Option<char>)
    ensures
        c == only_char(text@),
{
    if text.unicode_len() == 1 {
        Some(text.get_char(0))
    } else {
        None
    }
}

/// The views of a list of strings.
pub open spec fn texts(list: Seq<String>) -> Seq<Seq<char>> {
    list.map_values(|s: String| s@)
}

/// The view of an optional string.
pub open spec fn optional_text(text: Option<String>) -> Option<Seq<char>> {
    match text {
        Some(s) => Some(s@),
        None => None,
    }
}

/// A numeral is never empty, and only that of zero starts with the digit zero.
pub proof fn numeral_has_no_leading_zero(n: nat)
    ensures
        decimal(n).len() >= 1,
        decimal(n)[0] == '0' ==> n == 0 && decimal(n).len() == 1,
    decreases n,
{
    if n >= 10 {
        numeral_has_no_leading_zero(n / 10);
    }
}

/// The number that a text of digits stands for, read from the left.
pub open spec fn read_back(text: Seq<char>) -> int
    decreases text.len(),
{
    if text.len() == 0 {
        0
    } else {
        10 * read_back(text.drop_last()) + (text.last() as int - '0' as int)
    }
}

/// Whether a text consists of digits.
pub open spec fn all_digits(text: Seq<char>) -> bool {
    forall|i: int| 0 <= i < text.len() ==> '0' as int <= #[trigger] text[i] as int <= '9' as int
}

/// A numeral consists of digits, and reading it gives the number back.
pub proof fn numeral_reads_back(n: nat)
    ensures
        all_digits(decimal(n)),
        read_back(decimal(n)) == n,
    decreases n,
{
    if n >= 10 {
        numeral_reads_back(n / 10);
        assert(decimal(n).drop_last() =~= decimal(n / 10));
    } else {
        assert(decimal(n).drop_last() =~= seq![]);
        assert(read_back(decimal(n).drop_last()) == 0);
    }
}

/// Appending a number keeps the text before it, and what is appended reads as the number.
pub proof fn appended_numeral_reads_back(out: &mut String, n: u64)
    requires
        call_ensures(append_decimal, (out, n), ()),
    ensures
        ({
            let length = old(out)@.len() as int;
            let tail = final(out)@.skip(length);
            &&& final(out)@.len() > length
            &&& final(out)@.take(length) == old(out)@
            &&& all_digits(tail)
            &&& read_back(tail) == n
            &&& tail[0] == '0' ==> n == 0 && tail.len() == 1
        }),
{
    let length = old(out)@.len() as int;
    numeral_reads_back(n as nat);
    numeral_has_no_leading_zero(n as nat);
    assert(final(out)@.skip(length) =~= decimal(n as nat));
    assert(final(out)@.take(length) =~= old(out)@);
}

/// The numeral of a number that is not negative reads as the number. That of a negative one
/// is a minus sign and what reads as its opposite. There are no leading zeros.
pub proof fn signed_numeral_reads_back(n: i32, text: String)
    requires
        call_ensures(signed_numeral, (n,), text),
    ensures
        text@ == signed_decimal(n as int),
        n >= 0 ==> all_digits(text@) && read_back(text@) == n,
        n > 0 ==> text@[0] != '0',
        n == 0 ==> text@.len() == 1,
        n < 0 ==> {
            &&& text@[0] == '-'
            &&& all_digits(text@.skip(1))
            &&& read_back(text@.skip(1)) == -n
            &&& text@[1] != '0'
        },
{
    signed_numbers_read_back(n as int);
}

/// What [`signed_numeral_reads_back`] says, of every number.
pub proof fn signed_numbers_read_back(n: int)
    ensures
        ({
            let text = signed_decimal(n);
            &&& n >= 0 ==> all_digits(text) && read_back(text) == n
            &&& n > 0 ==> text[0] != '0'
            &&& n == 0 ==> text.len() == 1
            &&& n < 0 ==> {
                &&& text[0] == '-'
                &&& all_digits(text.skip(1))
                &&& read_back(text.skip(1)) == -n
                &&& text[1] != '0'
            }
        }),
{
    let amount = if n < 0 {
        (-n) as nat
    } else {
        n as nat
    };
    numeral_reads_back(amount);
    numeral_has_no_leading_zero(amount);
    if n < 0 {
        assert(signed_decimal(n).skip(1) =~= decimal(amount));
    }
}

/// A text of one character is known by it, and no other text is.
pub proof fn one_character_is_told(text: &str, found: Option<char>)
    requires
        call_ensures(single_char, (text,), found),
    ensures
        text@.len() == 1 ==> found == Some(text@[0]),
        text@.len() != 1 ==> found is None,
{
}

/// The view of an optional text is there exactly where the text is, and a list of views has
/// the view of each text in its place.
pub proof fn text_views_are_faithful(text: Option<String>, list: Seq<String>)
    ensures
        text matches Some(t) ==> optional_text(text) == Some(t@),
        text is None ==> optional_text(text) is None,
        texts(list).len() == list.len(),
        forall|i: int| 0 <= i < list.len() ==> #[trigger] texts(list)[i] == list[i]@,
{
}

} // verus!
