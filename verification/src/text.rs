//! Comparing texts and writing numbers.

use vstd::prelude::*;
use vstd::string::StringExecFns;
use vstd::string::StringSliceAdditionalSpecFns;
use vstd::utf8::encode_utf8_decode_utf8;

verus! {

/// Whether two texts hold the same characters.
pub fn same_text(a: &str, b: &str) -> (same: bool)
    ensures
        same == (a@ == b@),
{
    let left = a.as_bytes();
    let right = b.as_bytes();
    proof {
        encode_utf8_decode_utf8(a@);
        encode_utf8_decode_utf8(b@);
    }
    if left.len() != right.len() {
        return false;
    }
    let mut i: usize = 0;
    while i < left.len()
        invariant
            left@ == a.spec_bytes(),
            right@ == b.spec_bytes(),
            left@.len() == right@.len(),
            i <= left@.len(),
            forall|j: int| 0 <= j < i ==> left@[j] == right@[j],
        decreases left@.len() - i,
    {
        if left[i] != right[i] {
            return false;
        }
        i = i + 1;
    }
    assert(left@ =~= right@);
    true
}

/// The character of a decimal digit.
pub open spec fn digit_char(digit: nat) -> char {
    if digit == 0 {
        '0'
    } else if digit == 1 {
        '1'
    } else if digit == 2 {
        '2'
    } else if digit == 3 {
        '3'
    } else if digit == 4 {
        '4'
    } else if digit == 5 {
        '5'
    } else if digit == 6 {
        '6'
    } else if digit == 7 {
        '7'
    } else if digit == 8 {
        '8'
    } else {
        '9'
    }
}

/// The decimal digits of a number, the highest first, without leading zeros.
pub open spec fn decimal_text(value: nat) -> Seq<char>
    decreases value,
{
    if value < 10 {
        seq![digit_char(value)]
    } else {
        decimal_text(value / 10) + seq![digit_char(value % 10)]
    }
}

/// The characters of a run of digits that stands lowest digit first, read
/// highest digit first.
pub open spec fn digits_text(digits: Seq<u8>) -> Seq<char> {
    Seq::new(digits.len(), |k: int| digit_char(digits[digits.len() - 1 - k] as nat))
}

/// The text of one decimal digit.
pub fn digit(value: u8) -> (text: &'static str)
    requires
        value < 10,
    ensures
        text@ == seq![digit_char(value as nat)],
{
    proof {
        reveal_strlit("0");
        reveal_strlit("1");
        reveal_strlit("2");
        reveal_strlit("3");
        reveal_strlit("4");
        reveal_strlit("5");
        reveal_strlit("6");
        reveal_strlit("7");
        reveal_strlit("8");
        reveal_strlit("9");
    }
    let text = match value {
        0 => "0",
        1 => "1",
        2 => "2",
        3 => "3",
        4 => "4",
        5 => "5",
        6 => "6",
        7 => "7",
        8 => "8",
        _ => "9",
    };
    assert(text@ =~= seq![digit_char(value as nat)]);
    text
}

/// Writes a number in decimal digits.
pub fn decimal(value: u128) -> (text: String)
    ensures
        text@ == decimal_text(value as nat),
{
    let mut digits: Vec<u8> = Vec::new();
    let mut rest = value;
    proof {
        assert(decimal_text(rest as nat) + digits_text(digits@) =~= decimal_text(value as nat));
    }
    while rest >= 10
        invariant
            forall|k: int| 0 <= k < digits@.len() ==> (#[trigger] digits@[k]) < 10,
            decimal_text(value as nat) == decimal_text(rest as nat) + digits_text(digits@),
        decreases rest,
    {
        let ghost written = digits@;
        digits.push((rest % 10) as u8);
        proof {
            assert(digits_text(digits@) =~= seq![digit_char((rest % 10) as nat)] + digits_text(
                written,
            ));
            assert(decimal_text(rest as nat) == decimal_text((rest / 10) as nat) + seq![
                digit_char((rest % 10) as nat),
            ]);
            assert(decimal_text((rest / 10) as nat) + digits_text(digits@) =~= decimal_text(
                rest as nat,
            ) + digits_text(written));
        }
        rest = rest / 10;
    }
    let mut text = String::from_str(digit(rest as u8));
    let mut i: usize = digits.len();
    proof {
        assert(digits_text(digits@).take(0) =~= Seq::empty());
        assert(text@ =~= decimal_text(rest as nat) + digits_text(digits@).take(0));
    }
    while i > 0
        invariant
            i <= digits@.len(),
            forall|k: int| 0 <= k < digits@.len() ==> (#[trigger] digits@[k]) < 10,
            text@ == decimal_text(rest as nat) + digits_text(digits@).take(digits@.len() - i),
        decreases i,
    {
        i = i - 1;
        let ghost written = text@;
        text.append(digit(digits[i]));
        proof {
            let all = digits_text(digits@);
            let count = digits@.len() - i - 1;
            assert(all.take(count + 1) =~= all.take(count) + seq![all[count]]);
            assert(text@ =~= decimal_text(rest as nat) + all.take(count + 1));
        }
    }
    proof {
        assert(digits_text(digits@).take(digits@.len() as int) =~= digits_text(digits@));
    }
    text
}

} // verus!
