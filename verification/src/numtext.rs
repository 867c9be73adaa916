//! Rendering integers as text.
//!
//! The session identity encodes a backend's start time and process id in
//! lowercase hexadecimal with no leading zeroes — the same form the server
//! uses in its own log prefix — and the supervisor renders port numbers in
//! decimal.  Both encodings are defined here as specification functions and
//! implemented by structurally identical executable functions.

use vstd::prelude::*;
use vstd::string::*;

verus! {

/// The lowercase hexadecimal digit for a value below sixteen.
pub open spec fn hex_digit_char(d: nat) -> char {
    if d == 0 {
        '0'
    } else if d == 1 {
        '1'
    } else if d == 2 {
        '2'
    } else if d == 3 {
        '3'
    } else if d == 4 {
        '4'
    } else if d == 5 {
        '5'
    } else if d == 6 {
        '6'
    } else if d == 7 {
        '7'
    } else if d == 8 {
        '8'
    } else if d == 9 {
        '9'
    } else if d == 10 {
        'a'
    } else if d == 11 {
        'b'
    } else if d == 12 {
        'c'
    } else if d == 13 {
        'd'
    } else if d == 14 {
        'e'
    } else {
        'f'
    }
}

/// The decimal digit for a value below ten.
pub open spec fn dec_digit_char(d: nat) -> char {
    if d == 0 {
        '0'
    } else if d == 1 {
        '1'
    } else if d == 2 {
        '2'
    } else if d == 3 {
        '3'
    } else if d == 4 {
        '4'
    } else if d == 5 {
        '5'
    } else if d == 6 {
        '6'
    } else if d == 7 {
        '7'
    } else if d == 8 {
        '8'
    } else {
        '9'
    }
}

/// Lowercase hexadecimal rendering of `n`, most significant digit first,
/// without leading zeroes (zero itself renders as a single digit).
pub open spec fn hex_chars(n: nat) -> Seq<char>
    decreases n,
{
    if n < 16 {
        seq![hex_digit_char(n)]
    } else {
        hex_chars(n / 16).push(hex_digit_char(n % 16))
    }
}

/// Decimal rendering of `n`, most significant digit first, without leading
/// zeroes (zero itself renders as a single digit).
pub open spec fn dec_chars(n: nat) -> Seq<char>
    decreases n,
{
    if n < 10 {
        seq![dec_digit_char(n)]
    } else {
        dec_chars(n / 10).push(dec_digit_char(n % 10))
    }
}

/// The one-character string for a hexadecimal digit.
pub fn hex_digit_text(d: u64) -> (r: &'static str)
    requires
        d < 16,
    ensures
        r@ == seq![hex_digit_char(d as nat)],
{
    proof {
        reveal_strlit("0");
        reveal_strlit("1");
        reveal_strlit("2");
        reveal_strlit("3");
        reveal_strlit("4");
        reveal_strlit("5");
        reveal_strlit("6");
        reveal_strlit("7");
        reveal_strlit("8");
        reveal_strlit("9");
        reveal_strlit("a");
        reveal_strlit("b");
        reveal_strlit("c");
        reveal_strlit("d");
        reveal_strlit("e");
        reveal_strlit("f");
    }
    let r: &'static str = match d {
        0 => "0",
        1 => "1",
        2 => "2",
        3 => "3",
        4 => "4",
        5 => "5",
        6 => "6",
        7 => "7",
        8 => "8",
        9 => "9",
        10 => "a",
        11 => "b",
        12 => "c",
        13 => "d",
        14 => "e",
        _ => "f",
    };
    proof {
        assert(r@ =~= seq![hex_digit_char(d as nat)]);
    }
    r
}

/// The one-character string for a decimal digit.
pub fn dec_digit_text(d: u64) -> (r: &'static str)
    requires
        d < 10,
    ensures
        r@ == seq![dec_digit_char(d as nat)],
{
    proof {
        reveal_strlit("0");
        reveal_strlit("1");
        reveal_strlit("2");
        reveal_strlit("3");
        reveal_strlit("4");
        reveal_strlit("5");
        reveal_strlit("6");
        reveal_strlit("7");
        reveal_strlit("8");
        reveal_strlit("9");
    }
    let r: &'static str = match d {
        0 => "0",
        1 => "1",
        2 => "2",
        3 => "3",
        4 => "4",
        5 => "5",
        6 => "6",
        7 => "7",
        8 => "8",
        _ => "9",
    };
    proof {
        assert(r@ =~= seq![dec_digit_char(d as nat)]);
    }
    r
}

/// Lowercase hexadecimal rendering of `n`.
pub fn u64_to_hex(n: u64) -> (r: String)
    ensures
        r@ == hex_chars(n as nat),
    decreases n,
{
    if n < 16 {
        let d = hex_digit_text(n);
        d.to_owned()
    } else {
        let mut prefix = u64_to_hex(n / 16);
        let d = hex_digit_text(n % 16);
        prefix.append(d);
        proof {
            assert(prefix@ =~= hex_chars((n / 16) as nat).push(hex_digit_char((n % 16) as nat)));
        }
        prefix
    }
}

/// Decimal rendering of `n`.
pub fn u64_to_dec(n: u64) -> (r: String)
    ensures
        r@ == dec_chars(n as nat),
    decreases n,
{
    if n < 10 {
        let d = dec_digit_text(n);
        d.to_owned()
    } else {
        let mut prefix = u64_to_dec(n / 10);
        let d = dec_digit_text(n % 10);
        prefix.append(d);
        proof {
            assert(prefix@ =~= dec_chars((n / 10) as nat).push(dec_digit_char((n % 10) as nat)));
        }
        prefix
    }
}

/// Hexadecimal renderings never contain a bracket character.
pub proof fn lemma_hex_chars_no_brackets(n: nat)
    ensures
        forall|i: int| 0 <= i < hex_chars(n).len() ==> hex_chars(n)[i] != '[' && hex_chars(n)[i]
            != ']',
    decreases n,
{
    if n >= 16 {
        lemma_hex_chars_no_brackets(n / 16);
        assert forall|i: int| 0 <= i < hex_chars(n).len() implies hex_chars(n)[i] != '['
            && hex_chars(n)[i] != ']' by {
            if i < hex_chars(n / 16).len() {
                assert(hex_chars(n)[i] == hex_chars(n / 16)[i]);
            } else {
                assert(hex_chars(n)[i] == hex_digit_char(n % 16));
            }
        }
    }
}

} // verus!
