//! Uppercase hexadecimal rendering of unsigned numbers, with no prefix and
//! no padding: the default name of a compact-form segment is the rendering
//! of its start offset.

use vstd::prelude::*;

verus! {

/// The uppercase hexadecimal digit for one value below sixteen.
pub open spec fn hex_digit_char(d: nat) -> char {
    if d == 0 {
        '0'
    } else if d == 1 {
        '1'
    } else if d == 2 {
        '2'
    } else if d == 3 {
        '3'
    } else if d == 4 {
        '4'
    } else if d == 5 {
        '5'
    } else if d == 6 {
        '6'
    } else if d == 7 {
        '7'
    } else if d == 8 {
        '8'
    } else if d == 9 {
        '9'
    } else if d == 10 {
        'A'
    } else if d == 11 {
        'B'
    } else if d == 12 {
        'C'
    } else if d == 13 {
        'D'
    } else if d == 14 {
        'E'
    } else {
        'F'
    }
}

/// The uppercase hexadecimal rendering of a number: most significant digit
/// first, a single "0" for zero, no leading zeroes otherwise.
pub open spec fn hex_chars(n: nat) -> Seq<char>
    decreases n,
{
    if n < 16 {
        seq![hex_digit_char(n)]
    } else {
        hex_chars(n / 16) + seq![hex_digit_char(n % 16)]
    }
}

/// One uppercase hexadecimal digit as a string slice.
fn hex_digit_str(d: u64) -> (r: &'static str)
    requires
        d < 16,
    ensures
        r@ == seq![hex_digit_char(d as nat)],
{
    proof {
        reveal_strlit("0");
        reveal_strlit("1");
        reveal_strlit("2");
        reveal_strlit("3");
        reveal_strlit("4");
        reveal_strlit("5");
        reveal_strlit("6");
        reveal_strlit("7");
        reveal_strlit("8");
        reveal_strlit("9");
        reveal_strlit("A");
        reveal_strlit("B");
        reveal_strlit("C");
        reveal_strlit("D");
        reveal_strlit("E");
        reveal_strlit("F");
    }
    let r = match d {
        0 => "0",
        1 => "1",
        2 => "2",
        3 => "3",
        4 => "4",
        5 => "5",
        6 => "6",
        7 => "7",
        8 => "8",
        9 => "9",
        10 => "A",
        11 => "B",
        12 => "C",
        13 => "D",
        14 => "E",
        _ => "F",
    };
    proof {
        assert(r@ =~= seq![hex_digit_char(d as nat)]);
    }
    r
}

/// Renders a number in uppercase hexadecimal, most significant digit first,
/// with no prefix and no padding.
pub fn format_hex_upper(n: u64) -> (r: String)
    ensures
        r@ == hex_chars(n as nat),
    decreases n,
{
    if n < 16 {
        hex_digit_str(n).to_owned()
    } else {
        let high = format_hex_upper(n / 16);
        let low = hex_digit_str(n % 16);
        let r = high.concat(low);
        proof {
            assert(r@ =~= hex_chars(n as nat));
        }
        r
    }
}

} // verus!
