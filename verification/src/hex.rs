//! Values written out in hexadecimal, as wide as the node they belong to.

use vstd::prelude::*;
use vstd::string::*;

verus! {

/// The character for one hexadecimal digit, lower case.
pub open spec fn hex_digit(d: int) -> char {
    "0123456789abcdef"@[d]
}

/// The hexadecimal digits of a number, most significant first, without
/// leading zeros; the number 0 has the one digit `0`.
pub open spec fn hex_digits(value: nat) -> Seq<char>
    decreases value,
{
    if value < 16 {
        seq![hex_digit(value as int)]
    } else {
        hex_digits(value / 16).push(hex_digit((value % 16) as int))
    }
}

/// The text filled up on the left with the character `0` to `width`
/// characters; a text that is as long or longer is left as it is.
pub open spec fn zero_padded(text: Seq<char>, width: nat) -> Seq<char> {
    if text.len() >= width {
        text
    } else {
        Seq::new((width - text.len()) as nat, |i: int| '0') + text
    }
}

/// The text of a value of `bitsize` bits: `0x` and then the hexadecimal
/// digits, filled up with zeros to one digit for every four bits.
pub open spec fn hex_text(value: u64, bitsize: u32) -> Seq<char> {
    "0x"@ + zero_padded(hex_digits(value as nat), (bitsize / 4) as nat)
}

/// The digits of a number from the values of its digits, which are given
/// least significant first.
pub open spec fn digits_text(digits: Seq<u8>) -> Seq<char> {
    Seq::new(digits.len(), |i: int| hex_digit(digits[digits.len() - 1 - i] as int))
}

/// The one-character text for a hexadecimal digit.
fn hex_digit_str(d: u8) -> (r: &'static str)
    requires
        d < 16,
    ensures
        r@ == seq![hex_digit(d as int)],
{
    proof {
        reveal_strlit("0123456789abcdef");
    }
    if d == 0 {
        proof {
            reveal_strlit("0");
        }
        "0"
    } else if d == 1 {
        proof {
            reveal_strlit("1");
        }
        "1"
    } else if d == 2 {
        proof {
            reveal_strlit("2");
        }
        "2"
    } else if d == 3 {
        proof {
            reveal_strlit("3");
        }
        "3"
    } else if d == 4 {
        proof {
            reveal_strlit("4");
        }
        "4"
    } else if d == 5 {
        proof {
            reveal_strlit("5");
        }
        "5"
    } else if d == 6 {
        proof {
            reveal_strlit("6");
        }
        "6"
    } else if d == 7 {
        proof {
            reveal_strlit("7");
        }
        "7"
    } else if d == 8 {
        proof {
            reveal_strlit("8");
        }
        "8"
    } else if d == 9 {
        proof {
            reveal_strlit("9");
        }
        "9"
    } else if d == 10 {
        proof {
            reveal_strlit("a");
        }
        "a"
    } else if d == 11 {
        proof {
            reveal_strlit("b");
        }
        "b"
    } else if d == 12 {
        proof {
            reveal_strlit("c");
        }
        "c"
    } else if d == 13 {
        proof {
            reveal_strlit("d");
        }
        "d"
    } else if d == 14 {
        proof {
            reveal_strlit("e");
        }
        "e"
    } else {
        proof {
            reveal_strlit("f");
        }
        "f"
    }
}

/// Writes a value of `bitsize` bits in hexadecimal: `0x`, then the digits in
/// lower case, filled up with zeros to one digit for every four bits. A
/// value with more digits than that keeps them all.
pub fn hexstr(value: u64, bitsize: u32) -> (r: String)
    ensures
        r@ == hex_text(value, bitsize),
{
    let mut digits: Vec<u8> = Vec::new();
    digits.push((value % 16) as u8);
    let mut rest: u64 = value / 16;
    assert(hex_digits(value as nat) =~= (if rest == 0 {
        Seq::<char>::empty()
    } else {
        hex_digits(rest as nat)
    }) + digits_text(digits@));
    while rest > 0
        invariant
            forall|i: int| 0 <= i < digits@.len() ==> digits@[i] < 16,
            hex_digits(value as nat) == (if rest == 0 {
                Seq::<char>::empty()
            } else {
                hex_digits(rest as nat)
            }) + digits_text(digits@),
        decreases rest,
    {
        let ghost before = digits@;
        digits.push((rest % 16) as u8);
        proof {
            let next = rest / 16;
            assert(digits_text(digits@) =~= seq![hex_digit((rest % 16) as int)] + digits_text(
                before,
            ));
            assert(hex_digits(rest as nat) =~= (if next == 0 {
                Seq::<char>::empty()
            } else {
                hex_digits(next as nat)
            }) + seq![hex_digit((rest % 16) as int)]);
        }
        rest = rest / 16;
    }
    let required_chars: usize = (bitsize / 4) as usize;
    let mut out = String::from_str("0x");
    let mut written: usize = digits.len();
    proof {
        reveal_strlit("0");
    }
    while written < required_chars
        invariant
            digits@.len() <= written,
            digits@.len() < required_chars ==> written <= required_chars,
            digits@.len() >= required_chars ==> written == digits@.len(),
            "0"@ == seq!['0'],
            out@ == "0x"@ + Seq::new((written - digits@.len()) as nat, |i: int| '0'),
        decreases required_chars - written,
    {
        out.append("0");
        written = written + 1;
    }
    let ghost padding = Seq::new((written - digits@.len()) as nat, |i: int| '0');
    let mut remaining: usize = digits.len();
    while remaining > 0
        invariant
            remaining <= digits@.len(),
            forall|i: int| 0 <= i < digits@.len() ==> digits@[i] < 16,
            out@ == "0x"@ + padding + digits_text(digits@).take(digits@.len() - remaining),
        decreases remaining,
    {
        remaining = remaining - 1;
        out.append(hex_digit_str(digits[remaining]));
    }
    assert(padding + digits_text(digits@) =~= zero_padded(
        hex_digits(value as nat),
        (bitsize / 4) as nat,
    ));
    out
}

} // verus!
