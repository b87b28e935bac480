//! Texts for statements: amounts with thousands separators, and padding.

use crate::text::{decimal_text, digit, digit_char};
use thousands::Separable;
use vstd::prelude::*;
use vstd::string::StringExecFns;
use vstd::string::StrSliceExecFns;

verus! {

/// The decimal digits of a number with a comma before every group of three,
/// counted from the right, such as `12,345` for 12345.
pub open spec fn separated_text(value: nat) -> Seq<char>
    decreases value,
{
    if value < 1000 {
        decimal_text(value)
    } else {
        separated_text(value / 1000) + seq![
            ',',
            digit_char(value % 1000 / 100),
            digit_char(value % 100 / 10),
            digit_char(value % 10),
        ]
    }
}

/// Calls `thousands::Separable::separate_with_commas` on an unsigned number,
/// which writes the number in decimal digits and inserts a comma every three
/// digits from the right. The contract states that text; it is taken on trust.
#[verifier::external_body]
fn separate_with_commas(value: u128) -> (text: String)
    ensures
        text@ == separated_text(value as nat),
{
    value.separate_with_commas()
}

/// A text repeated a number of times.
pub open spec fn repeated_text(text: Seq<char>, count: nat) -> Seq<char>
    decreases count,
{
    if count == 0 {
        Seq::empty()
    } else {
        repeated_text(text, (count - 1) as nat) + text
    }
}

/// A text centred in a width: where the text is shorter than the width, the
/// fill stands before and after it, and the odd one of the fills after it. The
/// fill is meant to be one character.
pub open spec fn centered_text(text: Seq<char>, width: nat, fill: Seq<char>) -> Seq<char> {
    if text.len() >= width {
        text
    } else {
        let padding = (width - text.len()) as nat;
        repeated_text(fill, padding / 2) + text + repeated_text(
            fill,
            (padding - padding / 2) as nat,
        )
    }
}

/// The text of an amount from its parts: a minus sign if it is negative, the
/// text of its whole units, a point, and two digits for its hundredths.
pub open spec fn amount_from_parts_text(negative: bool, whole: Seq<char>, hundredths: nat) -> Seq<char> {
    (if negative {
        seq!['-']
    } else {
        Seq::empty()
    }) + whole + seq!['.', digit_char(hundredths / 10), digit_char(hundredths % 10)]
}

/// The size of an amount, whatever its sign.
pub open spec fn magnitude(amount: int) -> nat {
    if amount < 0 {
        (-amount) as nat
    } else {
        amount as nat
    }
}

/// The text of an amount in hundredths: its whole units separated with commas,
/// a point, and the hundredths, with a minus sign before a negative amount.
pub open spec fn amount_text(amount: int) -> Seq<char> {
    amount_from_parts_text(
        amount < 0,
        separated_text(magnitude(amount) / 100),
        magnitude(amount) % 100,
    )
}

/// A text repeated a number of times.
pub fn repeated(text: &str, count: usize) -> (line: String)
    ensures
        line@ == repeated_text(text@, count as nat),
{
    let mut line = String::new();
    let mut i: usize = 0;
    while i < count
        invariant
            i <= count,
            line@ == repeated_text(text@, i as nat),
        decreases count - i,
    {
        line.append(text);
        i = i + 1;
    }
    line
}

/// Centres a text in a width, as `{:^width}` does with a fill of one character.
pub fn centered(text: &str, width: usize, fill: &str) -> (line: String)
    ensures
        line@ == centered_text(text@, width as nat, fill@),
{
    let length = text.unicode_len();
    if length >= width {
        return String::from_str(text);
    }
    let padding = width - length;
    let before = padding / 2;
    let mut line = repeated(fill, before);
    line.append(text);
    let after = repeated(fill, padding - before);
    line.append(after.as_str());
    line
}

/// The text of an amount from its parts: the sign, the text of the whole
/// units, and the hundredths.
pub fn amount_from_parts(negative: bool, whole: &str, hundredths: u8) -> (text: String)
    requires
        hundredths < 100,
    ensures
        text@ == amount_from_parts_text(negative, whole@, hundredths as nat),
{
    proof {
        reveal_strlit("-");
        reveal_strlit(".");
        reveal_strlit("");
    }
    let mut text = String::from_str(if negative {
        "-"
    } else {
        ""
    });
    text.append(whole);
    text.append(".");
    text.append(digit(hundredths / 10));
    text.append(digit(hundredths % 10));
    assert(text@ =~= amount_from_parts_text(negative, whole@, hundredths as nat));
    text
}

/// The text of an amount in hundredths, such as `1,234.50` for 123450.
pub fn format_amount(amount: i128) -> (text: String)
    ensures
        text@ == amount_text(amount as int),
{
    let size: u128 = if amount < 0 {
        (-(amount + 1)) as u128 + 1
    } else {
        amount as u128
    };
    let whole = separate_with_commas(size / 100);
    amount_from_parts(amount < 0, whole.as_str(), (size % 100) as u8)
}

/// A row of cells: the first cell after an opening text, and before each
/// further cell the text that separates it from the cell before.
pub open spec fn row_more_text(
    row: Seq<char>,
    separator: Seq<char>,
    cell: (Seq<char>, nat),
    fill: Seq<char>,
) -> Seq<char> {
    row + separator + centered_text(cell.0, cell.1, fill)
}

/// Starts a row: an opening text and the first cell, centred in its width.
pub fn row_start(open: &str, cell: &str, width: usize, fill: &str) -> (row: String)
    ensures
        row@ == open@ + centered_text(cell@, width as nat, fill@),
{
    let mut row = String::from_str(open);
    let centred = centered(cell, width, fill);
    row.append(centred.as_str());
    row
}

/// Adds a cell to a row: a separator and the cell, centred in its width.
pub fn row_more(row: String, separator: &str, cell: &str, width: usize, fill: &str) -> (longer: String)
    ensures
        longer@ == row_more_text(row@, separator@, (cell@, width as nat), fill@),
{
    let mut longer = row;
    longer.append(separator);
    let centred = centered(cell, width, fill);
    longer.append(centred.as_str());
    longer
}

/// Ends a row with a closing text.
pub fn row_end(row: String, close: &str) -> (whole: String)
    ensures
        whole@ == row@ + close@,
{
    row.concat(close)
}

} // verus!
