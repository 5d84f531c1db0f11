//! Plain text building: decimal numbers, quoted lists and comparisons.

use vstd::prelude::*;
use vstd::string::StringExecFns;

verus! {

/// The character of a decimal digit.
pub open spec fn digit_char(digit: nat) -> char {
    (48 + digit) as char
}

/// The decimal notation of `number`, without leading zeros.
pub open spec fn digits(number: nat) -> Seq<char>
    decreases number,
{
    if number < 10 {
        seq![digit_char(number)]
    } else {
        digits(number / 10).push(digit_char(number % 10))
    }
}

/// The decimal notation of a signed `number`: a leading minus sign where it is negative.
pub open spec fn signed_digits(number: int) -> Seq<char> {
    if number < 0 {
        "-"@ + digits((-number) as nat)
    } else {
        digits(number as nat)
    }
}

/// `text` between double quotes.
pub open spec fn quoted(text: Seq<char>) -> Seq<char> {
    "\""@ + text + "\""@
}

/// Every text of `items` between double quotes, with a comma between neighbours.
pub open spec fn quoted_list(items: Seq<Seq<char>>) -> Seq<char>
    decreases items.len(),
{
    if items.len() == 0 {
        Seq::empty()
    } else if items.len() == 1 {
        quoted(items[0])
    } else {
        quoted_list(items.drop_last()) + ","@ + quoted(items.last())
    }
}

/// The texts that a list of strings holds.
pub open spec fn texts(items: Seq<String>) -> Seq<Seq<char>> {
    items.map_values(|item: String| item@)
}

/// The text that an optional string holds.
pub open spec fn text_of(item: Option<String>) -> Option<Seq<char>> {
    match item {
        Some(text) => Some(text@),
        None => None,
    }
}

fn digit_text(digit: u128) -> (text: &'static str)
    requires
        digit < 10,
    ensures
        text@ == seq![digit_char(digit as nat)],
{
    proof {
        reveal_strlit("0");
        reveal_strlit("1");
        reveal_strlit("2");
        reveal_strlit("3");
        reveal_strlit("4");
        reveal_strlit("5");
        reveal_strlit("6");
        reveal_strlit("7");
        reveal_strlit("8");
        reveal_strlit("9");
    }
    if digit == 0 {
        "0"
    } else if digit == 1 {
        "1"
    } else if digit == 2 {
        "2"
    } else if digit == 3 {
        "3"
    } else if digit == 4 {
        "4"
    } else if digit == 5 {
        "5"
    } else if digit == 6 {
        "6"
    } else if digit == 7 {
        "7"
    } else if digit == 8 {
        "8"
    } else {
        "9"
    }
}

/// Writes an unsigned number in decimal.
pub fn decimal_text(number: u128) -> (text: String)
    ensures
        text@ == digits(number as nat),
    decreases number,
{
    if number < 10 {
        digit_text(number).to_string()
    } else {
        let mut text = decimal_text(number / 10);
        text.append(digit_text(number % 10));
        proof {
            assert(text@ == digits(number as nat));
        }
        text
    }
}

/// Writes a signed number in decimal.
pub fn signed_decimal_text(number: i64) -> (text: String)
    ensures
        text@ == signed_digits(number as int),
{
    if number < 0 {
        let magnitude: u128 = (-(number as i128)) as u128;
        let mut text = "-".to_string();
        text.append(decimal_text(magnitude).as_str());
        text
    } else {
        decimal_text(number as u128)
    }
}

/// Puts every string of `items` between double quotes and joins them with commas.
pub fn quoted_list_text(items: &Vec<String>) -> (text: String)
    ensures
        text@ == quoted_list(texts(items@)),
{
    let mut text = String::new();
    let mut i: usize = 0;
    proof {
        assert(texts(items@).take(0) =~= Seq::empty());
    }
    while i < items.len()
        invariant
            i <= items.len(),
            text@ == quoted_list(texts(items@).take(i as int)),
        decreases items.len() - i,
    {
        if i > 0 {
            text.append(",");
        }
        text.append("\"");
        text.append(items[i].as_str());
        text.append("\"");
        proof {
            let before = texts(items@).take(i as int);
            let after = texts(items@).take(i + 1);
            assert(after.drop_last() =~= before);
            assert(after.last() == items@[i as int]@);
            if i > 0 {
                assert(text@ =~= quoted_list(before) + ","@ + quoted(after.last()));
            } else {
                assert(text@ =~= quoted(after[0]));
            }
        }
        i = i + 1;
    }
    proof {
        assert(texts(items@).take(i as int) =~= texts(items@));
    }
    text
}

/// The uppercase form of a text, as `str::to_uppercase` gives it.
pub uninterp spec fn uppercase(text: Seq<char>) -> Seq<char>;

/// `str::to_uppercase`, which maps a text to its uppercase form by the Unicode tables of the
/// standard library. Believed of it: the form depends on the text alone. Which form that is, is
/// left unsaid.
pub assume_specification[ str::to_uppercase ](text: &str) -> (upper: String)
    ensures
        upper@ == uppercase(text@),
;

/// Whether a character is whitespace: whether it has the property `White_Space` of Unicode.
pub open spec fn white_space(character: char) -> bool {
    let code = character as u32;
    ||| 0x0009 <= code <= 0x000D
    ||| code == 0x0020
    ||| code == 0x0085
    ||| code == 0x00A0
    ||| code == 0x1680
    ||| 0x2000 <= code <= 0x200A
    ||| code == 0x2028
    ||| code == 0x2029
    ||| code == 0x202F
    ||| code == 0x205F
    ||| code == 0x3000
}

/// Whether `rest` is what is left of `text` when the whitespace at both ends is gone.
pub open spec fn trimmed(text: Seq<char>, rest: Seq<char>) -> bool {
    exists|start: int, end: int| #[trigger] trimmed_at(text, rest, start, end)
}

/// Whether `rest` is the part of `text` from `start` to `end`, with nothing but whitespace outside
/// of it and none at its own ends.
pub open spec fn trimmed_at(text: Seq<char>, rest: Seq<char>, start: int, end: int) -> bool {
    &&& 0 <= start <= end <= text.len()
    &&& rest == text.subrange(start, end)
    &&& forall|i: int| 0 <= i < start ==> white_space(#[trigger] text[i])
    &&& forall|i: int| end <= i < text.len() ==> white_space(#[trigger] text[i])
    &&& rest.len() > 0 ==> !white_space(rest[0]) && !white_space(rest.last())
}

/// `str::trim`, which drops the whitespace at both ends of a text. It goes by the property
/// `White_Space` of Unicode, whose characters `white_space` lists.
pub assume_specification[ str::trim ](text: &str) -> (rest: &str)
    ensures
        trimmed(text@, rest@),
;

/// A text between double quotes and with its special characters escaped, as the `Debug` form of
/// `str` gives it.
pub uninterp spec fn debug_form(text: Seq<char>) -> Seq<char>;

/// Formats a text with `Debug`. Believed of it: the form depends on the text alone. How
/// characters are escaped is left unsaid.
#[verifier::external_body]
pub(crate) fn debug_text(text: &str) -> (form: String)
    ensures
        form@ == debug_form(text@),
{
    format!("{:?}", text)
}

/// Copies an optional text.
pub fn copied_text(item: &Option<String>) -> (copy: Option<String>)
    ensures
        copy == *item,
{
    match item {
        Some(text) => Some(text.clone()),
        None => None,
    }
}

/// Tells whether two texts are the same.
pub fn same_text(left: &str, right: &str) -> (same: bool)
    ensures
        same == (left@ == right@),
{
    left.to_string() == right.to_string()
}

} // verus!
