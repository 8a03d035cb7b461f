//! Names of the files a run writes.
//!
//! A cropped image keeps the base name of its source. Where no base name
//! can be derived the name is the image's sequence index in decimal, padded
//! with zeros to four digits, with the extension `.png`.

use vstd::prelude::*;
use vstd::string::StringExecFns;

verus! {

/// Least number of digits in a generated name.
pub const FALLBACK_DIGITS: usize = 4;

/// The decimal digit for a value below ten.
pub open spec fn digit_char(value: nat) -> char {
    if value == 0 {
        '0'
    } else if value == 1 {
        '1'
    } else if value == 2 {
        '2'
    } else if value == 3 {
        '3'
    } else if value == 4 {
        '4'
    } else if value == 5 {
        '5'
    } else if value == 6 {
        '6'
    } else if value == 7 {
        '7'
    } else if value == 8 {
        '8'
    } else {
        '9'
    }
}

/// The decimal digits of a number, most significant first, without leading
/// zeros.
pub open spec fn decimal_digits(value: nat) -> Seq<char>
    decreases value,
{
    if value < 10 {
        seq![digit_char(value)]
    } else {
        decimal_digits(value / 10).push(digit_char(value % 10))
    }
}

/// A sequence of `count` zeros.
pub open spec fn zeros(count: nat) -> Seq<char> {
    Seq::new(count, |position: int| '0')
}

/// The decimal digits of a number, padded with zeros on the left to at
/// least `width` digits.
pub open spec fn zero_padded(value: nat, width: nat) -> Seq<char> {
    let digits = decimal_digits(value);
    if digits.len() >= width {
        digits
    } else {
        zeros((width - digits.len()) as nat) + digits
    }
}

/// The extension of a generated name.
pub open spec fn fallback_extension() -> Seq<char> {
    seq!['.', 'p', 'n', 'g']
}

/// The name generated for the image with the given sequence index.
pub open spec fn fallback_name_of(index: nat) -> Seq<char> {
    zero_padded(index, FALLBACK_DIGITS as nat) + fallback_extension()
}

/// The name under which an image is written: its base name where one was
/// derived and is not empty, the generated name otherwise.
pub open spec fn output_name_of(base_name: Option<Seq<char>>, index: nat) -> Seq<char> {
    match base_name {
        Some(name) if name.len() > 0 => name,
        _ => fallback_name_of(index),
    }
}

/// The text of one decimal digit.
fn digit_text(value: usize) -> (text: &'static str)
    requires
        value < 10,
    ensures
        text@ == seq![digit_char(value as nat)],
{
    proof {
        reveal_strlit("0");
        reveal_strlit("1");
        reveal_strlit("2");
        reveal_strlit("3");
        reveal_strlit("4");
        reveal_strlit("5");
        reveal_strlit("6");
        reveal_strlit("7");
        reveal_strlit("8");
        reveal_strlit("9");
    }
    let text = if value == 0 {
        "0"
    } else if value == 1 {
        "1"
    } else if value == 2 {
        "2"
    } else if value == 3 {
        "3"
    } else if value == 4 {
        "4"
    } else if value == 5 {
        "5"
    } else if value == 6 {
        "6"
    } else if value == 7 {
        "7"
    } else if value == 8 {
        "8"
    } else {
        "9"
    };
    assert(text@ =~= seq![digit_char(value as nat)]);
    text
}

/// Writes a number in decimal.
pub fn decimal(value: usize) -> (text: String)
    ensures
        text@ == decimal_digits(value as nat),
    decreases value,
{
    if value < 10 {
        String::from_str(digit_text(value))
    } else {
        let mut text = decimal(value / 10);
        text.append(digit_text(value % 10));
        assert(text@ =~= decimal_digits(value as nat));
        text
    }
}

/// The name generated for the image with the given sequence index: the
/// index in decimal, padded with zeros to four digits, and `.png`.
pub fn fallback_name(index: usize) -> (name: String)
    ensures
        name@ == fallback_name_of(index as nat),
{
    let digits = decimal(index);
    let count = digits.as_str().unicode_len();
    let mut name = String::from_str("");
    proof {
        reveal_strlit("");
        reveal_strlit("0");
        reveal_strlit(".png");
    }
    let mut written: usize = count;
    assert(name@ =~= zeros(0));
    while written < FALLBACK_DIGITS
        invariant
            count == digits@.len(),
            count <= written,
            written <= FALLBACK_DIGITS || written == count,
            name@ == zeros((written - count) as nat),
            "0"@ == seq!['0'],
        decreases FALLBACK_DIGITS - written,
    {
        name.append("0");
        written = written + 1;
        assert(name@ =~= zeros((written - count) as nat));
    }
    name.append(digits.as_str());
    name.append(".png");
    assert(".png"@ =~= fallback_extension());
    assert(name@ =~= fallback_name_of(index as nat));
    name
}

/// The name under which an image is written: `base_name` where one was
/// derived from the source path and is not empty, the generated name for
/// `index` otherwise.
pub fn output_name(base_name: Option<String>, index: usize) -> (name: String)
    ensures
        name@ == output_name_of(
            match base_name {
                Some(given) => Some(given@),
                None => None,
            },
            index as nat,
        ),
{
    match base_name {
        Some(given) => {
            if given.as_str().unicode_len() > 0 {
                given
            } else {
                fallback_name(index)
            }
        },
        None => fallback_name(index),
    }
}

} // verus!
