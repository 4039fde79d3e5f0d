//! Rendering a finished CRC value as an upper-case hexadecimal string,
//! zero-padded to the number of hex digits the logical width occupies.

use vstd::prelude::*;
use vstd::string::StringExecFns;

verus! {

/// The upper-case hexadecimal digit for a value below 16.
pub open spec fn hex_digit_char(d: u64) -> char {
    if d == 0 {
        '0'
    } else if d == 1 {
        '1'
    } else if d == 2 {
        '2'
    } else if d == 3 {
        '3'
    } else if d == 4 {
        '4'
    } else if d == 5 {
        '5'
    } else if d == 6 {
        '6'
    } else if d == 7 {
        '7'
    } else if d == 8 {
        '8'
    } else if d == 9 {
        '9'
    } else if d == 10 {
        'A'
    } else if d == 11 {
        'B'
    } else if d == 12 {
        'C'
    } else if d == 13 {
        'D'
    } else if d == 14 {
        'E'
    } else {
        'F'
    }
}

/// The rendering of `v` as `0x` followed by exactly `w` upper-case hex
/// digits, most significant first.
pub open spec fn hex_seq(v: u64, w: nat) -> Seq<char>
    recommends
        1 <= w <= 16,
{
    seq!['0', 'x'] + Seq::new(w, |k: int| hex_digit_char((v >> ((4 * (w - 1 - k)) as u64)) & 0xF))
}

/// The one-character string for a hex digit.
fn hex_digit_str(d: u64) -> (s: &'static str)
    requires
        d < 16,
    ensures
        s@ == seq![hex_digit_char(d)],
{
    proof {
        reveal_strlit("0");
        reveal_strlit("1");
        reveal_strlit("2");
        reveal_strlit("3");
        reveal_strlit("4");
        reveal_strlit("5");
        reveal_strlit("6");
        reveal_strlit("7");
        reveal_strlit("8");
        reveal_strlit("9");
        reveal_strlit("A");
        reveal_strlit("B");
        reveal_strlit("C");
        reveal_strlit("D");
        reveal_strlit("E");
        reveal_strlit("F");
    }
    if d == 0 {
        "0"
    } else if d == 1 {
        "1"
    } else if d == 2 {
        "2"
    } else if d == 3 {
        "3"
    } else if d == 4 {
        "4"
    } else if d == 5 {
        "5"
    } else if d == 6 {
        "6"
    } else if d == 7 {
        "7"
    } else if d == 8 {
        "8"
    } else if d == 9 {
        "9"
    } else if d == 10 {
        "A"
    } else if d == 11 {
        "B"
    } else if d == 12 {
        "C"
    } else if d == 13 {
        "D"
    } else if d == 14 {
        "E"
    } else {
        "F"
    }
}

/// Render `v` as `0x` followed by exactly `w` upper-case hex digits.
pub fn hex_string(v: u64, w: u8) -> (r: String)
    requires
        1 <= w <= 16,
    ensures
        r@ == hex_seq(v, w as nat),
{
    let mut r = String::new();
    r.append("0x");
    proof {
        reveal_strlit("0x");
        assert(r@ =~= seq!['0', 'x'] + Seq::new(0, |k: int| hex_digit_char((v >> ((4 * (0 - 1
            - k)) as u64)) & 0xF)));
    }
    let mut k: u8 = 0;
    while k < w
        invariant
            1 <= w <= 16,
            k <= w,
            r@ == seq!['0', 'x'] + Seq::new(
                k as nat,
                |i: int| hex_digit_char((v >> ((4 * (w - 1 - i)) as u64)) & 0xF),
            ),
        decreases w - k,
    {
        let d = (v >> ((4 * (w - 1 - k)) as u64)) & 0xF;
        proof {
            crate::model::lemma_nibble(v >> ((4 * (w - 1 - k)) as u64));
        }
        let ds = hex_digit_str(d);
        r.append(ds);
        proof {
            assert(r@ =~= seq!['0', 'x'] + Seq::new(
                (k + 1) as nat,
                |i: int| hex_digit_char((v >> ((4 * (w - 1 - i)) as u64)) & 0xF),
            ));
        }
        k = k + 1;
    }
    r
}

} // verus!
