//! Text that the service writes itself: decimal numbers and lower-case hex.

use vstd::prelude::*;
use vstd::string::*;

verus! {

/// The character of a decimal digit.
pub open spec fn digit_char(d: nat) -> char
    recommends
        d < 10,
{
    if d == 0 {
        '0'
    } else if d == 1 {
        '1'
    } else if d == 2 {
        '2'
    } else if d == 3 {
        '3'
    } else if d == 4 {
        '4'
    } else if d == 5 {
        '5'
    } else if d == 6 {
        '6'
    } else if d == 7 {
        '7'
    } else if d == 8 {
        '8'
    } else {
        '9'
    }
}

/// A number in decimal notation, without sign and without leading zeros.
pub open spec fn decimal(n: nat) -> Seq<char>
    decreases n,
{
    if n < 10 {
        seq![digit_char(n)]
    } else {
        decimal(n / 10).push(digit_char(n % 10))
    }
}

/// The character of a hexadecimal digit, in lower case.
pub open spec fn hex_char(d: nat) -> char
    recommends
        d < 16,
{
    if d < 10 {
        digit_char(d)
    } else if d == 10 {
        'a'
    } else if d == 11 {
        'b'
    } else if d == 12 {
        'c'
    } else if d == 13 {
        'd'
    } else if d == 14 {
        'e'
    } else {
        'f'
    }
}

/// Bytes in lower-case hex: two characters for each byte, the high half first.
pub open spec fn hex_lower(bytes: Seq<u8>) -> Seq<char> {
    Seq::new(
        2 * bytes.len(),
        |i: int|
            if i % 2 == 0 {
                hex_char((bytes[i / 2] / 16) as nat)
            } else {
                hex_char((bytes[i / 2] % 16) as nat)
            },
    )
}

/// One decimal digit as text.
fn digit_text(d: u64) -> (r: &'static str)
    requires
        d < 10,
    ensures
        r@ == seq![digit_char(d as nat)],
{
    proof {
        reveal_strlit("0");
        reveal_strlit("1");
        reveal_strlit("2");
        reveal_strlit("3");
        reveal_strlit("4");
        reveal_strlit("5");
        reveal_strlit("6");
        reveal_strlit("7");
        reveal_strlit("8");
        reveal_strlit("9");
    }
    let r = if d == 0 {
        "0"
    } else if d == 1 {
        "1"
    } else if d == 2 {
        "2"
    } else if d == 3 {
        "3"
    } else if d == 4 {
        "4"
    } else if d == 5 {
        "5"
    } else if d == 6 {
        "6"
    } else if d == 7 {
        "7"
    } else if d == 8 {
        "8"
    } else {
        "9"
    };
    assert(r@ =~= seq![digit_char(d as nat)]);
    r
}

/// Writes a number in decimal notation.
pub fn decimal_string(n: u64) -> (r: String)
    ensures
        r@ == decimal(n as nat),
{
    let mut rest: u64 = n / 10;
    let mut text = String::from_str(digit_text(n % 10));
    // `text` holds the digits of `n` below those of `rest`.
    proof {
        lemma_decimal_split(n as nat);
    }
    while rest > 0
        invariant
            rest == 0 ==> text@ == decimal(n as nat),
            rest > 0 ==> decimal(n as nat) == decimal(rest as nat) + text@,
        decreases rest,
    {
        let d: u64 = rest % 10;
        let ghost before = text@;
        let ghost prev = rest;
        text = String::from_str(digit_text(d)).concat(text.as_str());
        rest = rest / 10;
        proof {
            lemma_decimal_split(prev as nat);
            assert(text@ == seq![digit_char(d as nat)] + before);
            if prev < 10 {
                assert(decimal(prev as nat) == seq![digit_char(d as nat)]);
            } else {
                assert(decimal(prev as nat) == decimal(rest as nat).push(digit_char(d as nat)));
                assert(decimal(rest as nat).push(digit_char(d as nat)) + before
                    =~= decimal(rest as nat) + (seq![digit_char(d as nat)] + before));
            }
        }
    }
    text
}

/// A number of ten or more is the number without its last digit, followed by that digit.
proof fn lemma_decimal_split(n: nat)
    ensures
        n < 10 ==> decimal(n) == seq![digit_char(n)],
        n >= 10 ==> decimal(n) == decimal(n / 10) + seq![digit_char(n % 10)],
{
    if n >= 10 {
        assert(decimal(n / 10).push(digit_char(n % 10)) =~= decimal(n / 10) + seq![
            digit_char(n % 10),
        ]);
    }
}

} // verus!
