//! Trace identifiers: a transaction's externally visible identity is
//! the lowercase hexadecimal rendering of a random 64-bit value.

use vstd::prelude::*;
use vstd::string::StringExecFns;

verus! {

/// Relies on rand::random, which draws a value from the thread-local
/// generator; nothing is assumed of the value drawn.
pub assume_specification<T>[ rand::random::<T> ]() -> (r: T)
    where
        rand::distributions::Standard: rand::distributions::Distribution<T>,
;

/// The character for one digit value up to fifteen, as decimal and
/// hexadecimal renderings share it.
pub open spec fn spec_digit_char(d: u64) -> char {
    if d == 0 {
        '0'
    } else if d == 1 {
        '1'
    } else if d == 2 {
        '2'
    } else if d == 3 {
        '3'
    } else if d == 4 {
        '4'
    } else if d == 5 {
        '5'
    } else if d == 6 {
        '6'
    } else if d == 7 {
        '7'
    } else if d == 8 {
        '8'
    } else if d == 9 {
        '9'
    } else if d == 10 {
        'a'
    } else if d == 11 {
        'b'
    } else if d == 12 {
        'c'
    } else if d == 13 {
        'd'
    } else if d == 14 {
        'e'
    } else {
        'f'
    }
}

/// Lowercase hexadecimal digits of `n`, most significant first, with no
/// leading zeros; zero renders as a single digit.
pub open spec fn spec_hex_u64(n: u64) -> Seq<char>
    decreases n,
{
    if n < 16 {
        seq![spec_digit_char(n)]
    } else {
        spec_hex_u64(n / 16).push(spec_digit_char(n % 16))
    }
}

pub(crate) fn digit_char_str(d: u64) -> (r: &'static str)
    requires
        d < 16,
    ensures
        r@ == seq![spec_digit_char(d)],
{
    proof {
        reveal_strlit("0");
        reveal_strlit("1");
        reveal_strlit("2");
        reveal_strlit("3");
        reveal_strlit("4");
        reveal_strlit("5");
        reveal_strlit("6");
        reveal_strlit("7");
        reveal_strlit("8");
        reveal_strlit("9");
        reveal_strlit("a");
        reveal_strlit("b");
        reveal_strlit("c");
        reveal_strlit("d");
        reveal_strlit("e");
        reveal_strlit("f");
    }
    if d == 0 {
        "0"
    } else if d == 1 {
        "1"
    } else if d == 2 {
        "2"
    } else if d == 3 {
        "3"
    } else if d == 4 {
        "4"
    } else if d == 5 {
        "5"
    } else if d == 6 {
        "6"
    } else if d == 7 {
        "7"
    } else if d == 8 {
        "8"
    } else if d == 9 {
        "9"
    } else if d == 10 {
        "a"
    } else if d == 11 {
        "b"
    } else if d == 12 {
        "c"
    } else if d == 13 {
        "d"
    } else if d == 14 {
        "e"
    } else {
        "f"
    }
}

/// The lowercase hexadecimal rendering of `n`.
pub fn hex_u64_string(n: u64) -> (r: String)
    ensures
        r@ == spec_hex_u64(n),
    decreases n,
{
    if n < 16 {
        digit_char_str(n).to_owned()
    } else {
        let mut s = hex_u64_string(n / 16);
        s.append(digit_char_str(n % 16));
        proof {
            assert(s@ =~= spec_hex_u64(n));
        }
        s
    }
}

/// A fresh trace identifier: the hex digits of a random 64-bit value.
pub fn fresh_guid() -> (r: String)
    ensures
        exists|g: u64| r@ == spec_hex_u64(g),
{
    let g: u64 = rand::random::<u64>();
    let s = hex_u64_string(g);
    proof {
        assert(s@ == spec_hex_u64(g));
    }
    s
}

} // verus!
