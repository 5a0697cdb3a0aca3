//! Verified rendering of numbers and byte dumps into strings.
//!
//! Status reads surface firmware dates and raw fallback bytes as text, so
//! the exact characters matter. Each helper's contract pins the characters
//! produced: decimal with and without two-digit zero padding, two-digit
//! lowercase hex, eight-digit hex, and a bracketed hex dump of a byte
//! string.

use vstd::prelude::*;
use vstd::string::*;

verus! {

/// The character of one digit value below 16, lowercase.
pub open spec fn spec_digit(n: int) -> char {
    if n == 0 {
        '0'
    } else if n == 1 {
        '1'
    } else if n == 2 {
        '2'
    } else if n == 3 {
        '3'
    } else if n == 4 {
        '4'
    } else if n == 5 {
        '5'
    } else if n == 6 {
        '6'
    } else if n == 7 {
        '7'
    } else if n == 8 {
        '8'
    } else if n == 9 {
        '9'
    } else if n == 10 {
        'a'
    } else if n == 11 {
        'b'
    } else if n == 12 {
        'c'
    } else if n == 13 {
        'd'
    } else if n == 14 {
        'e'
    } else {
        'f'
    }
}

/// The two lowercase hex digits of one byte.
pub open spec fn spec_hex2(b: u8) -> Seq<char> {
    seq![spec_digit(b as int / 16), spec_digit(b as int % 16)]
}

/// The eight lowercase hex digits of a 32-bit value, most significant first.
pub open spec fn spec_hex8(x: u32) -> Seq<char> {
    spec_hex2(((x / 16777216) % 256) as u8) + spec_hex2(((x / 65536) % 256) as u8)
        + spec_hex2(((x / 256) % 256) as u8) + spec_hex2((x % 256) as u8)
}

/// The decimal digits of a non-negative number, no padding.
pub open spec fn spec_dec(n: int) -> Seq<char>
    decreases n,
{
    if n < 10 {
        seq![spec_digit(n)]
    } else {
        spec_dec(n / 10).push(spec_digit(n % 10))
    }
}

/// The decimal digits of a non-negative number, zero-padded to two digits.
pub open spec fn spec_dec2(n: int) -> Seq<char> {
    if n < 10 {
        seq!['0', spec_digit(n)]
    } else {
        spec_dec(n)
    }
}

/// The first `n` bytes of `s` as `, `-separated two-digit hex pairs.
pub open spec fn spec_hex_list_to(s: Seq<u8>, n: int) -> Seq<char>
    decreases n,
{
    if n <= 0 {
        Seq::empty()
    } else if n == 1 {
        spec_hex2(s[0])
    } else {
        spec_hex_list_to(s, n - 1) + seq![',', ' '] + spec_hex2(s[n - 1])
    }
}

/// A byte string as a bracketed hex dump, `[aa, bb, ...]`.
pub open spec fn spec_hex_dump(s: Seq<u8>) -> Seq<char> {
    seq!['['] + spec_hex_list_to(s, s.len() as int) + seq![']']
}

/// Append the character of one digit value below 16.
pub fn push_digit(s: &mut String, n: u8)
    requires
        n < 16,
    ensures
        final(s)@ == old(s)@.push(spec_digit(n as int)),
{
    let d: &str = match n {
        0 => "0",
        1 => "1",
        2 => "2",
        3 => "3",
        4 => "4",
        5 => "5",
        6 => "6",
        7 => "7",
        8 => "8",
        9 => "9",
        10 => "a",
        11 => "b",
        12 => "c",
        13 => "d",
        14 => "e",
        _ => "f",
    };
    proof {
        reveal_strlit("0");
        reveal_strlit("1");
        reveal_strlit("2");
        reveal_strlit("3");
        reveal_strlit("4");
        reveal_strlit("5");
        reveal_strlit("6");
        reveal_strlit("7");
        reveal_strlit("8");
        reveal_strlit("9");
        reveal_strlit("a");
        reveal_strlit("b");
        reveal_strlit("c");
        reveal_strlit("d");
        reveal_strlit("e");
        reveal_strlit("f");
        assert(d@ =~= seq![spec_digit(n as int)]);
    }
    s.append(d);
    proof {
        assert(s@ =~= old(s)@.push(spec_digit(n as int)));
    }
}

/// Append the two lowercase hex digits of one byte.
pub fn push_hex2(s: &mut String, b: u8)
    ensures
        final(s)@ == old(s)@ + spec_hex2(b),
{
    push_digit(s, b / 16);
    push_digit(s, b % 16);
    proof {
        assert(s@ =~= old(s)@ + spec_hex2(b));
    }
}

/// Append the eight lowercase hex digits of a 32-bit value.
pub fn push_hex8(s: &mut String, x: u32)
    ensures
        final(s)@ == old(s)@ + spec_hex8(x),
{
    push_hex2(s, ((x / 16777216) % 256) as u8);
    push_hex2(s, ((x / 65536) % 256) as u8);
    push_hex2(s, ((x / 256) % 256) as u8);
    push_hex2(s, (x % 256) as u8);
    proof {
        assert(s@ =~= old(s)@ + spec_hex8(x));
    }
}

/// Append the decimal digits of `n`, no padding.
pub fn push_dec(s: &mut String, n: u64)
    ensures
        final(s)@ == old(s)@ + spec_dec(n as int),
    decreases n,
{
    if n < 10 {
        push_digit(s, n as u8);
        proof {
            assert(s@ =~= old(s)@ + spec_dec(n as int));
        }
    } else {
        push_dec(s, n / 10);
        push_digit(s, (n % 10) as u8);
        proof {
            assert(s@ =~= old(s)@ + spec_dec(n as int));
        }
    }
}

/// Append the decimal digits of `n`, zero-padded to two digits.
pub fn push_dec2(s: &mut String, n: u64)
    ensures
        final(s)@ == old(s)@ + spec_dec2(n as int),
{
    if n < 10 {
        push_digit(s, 0);
        push_digit(s, n as u8);
        proof {
            assert(s@ =~= old(s)@ + spec_dec2(n as int));
        }
    } else {
        push_dec(s, n);
    }
}

/// Append the first `n` bytes of `b` as a bracketed hex dump.
pub fn push_hex_dump(s: &mut String, b: &[u8], n: usize)
    requires
        n <= b@.len(),
    ensures
        final(s)@ == old(s)@ + spec_hex_dump(b@.subrange(0, n as int)),
{
    let ghost pre = s@;
    let ghost window = b@.subrange(0, n as int);
    s.append("[");
    proof {
        reveal_strlit("[");
        reveal_strlit("]");
        reveal_strlit(", ");
        assert("["@ =~= seq!['[']);
        assert("]"@ =~= seq![']']);
        assert(", "@ =~= seq![',', ' ']);
    }
    let mut i: usize = 0;
    while i < n
        invariant
            0 <= i <= n <= b@.len(),
            window == b@.subrange(0, n as int),
            s@ == pre + seq!['['] + spec_hex_list_to(window, i as int),
        decreases n - i,
    {
        if i > 0 {
            s.append(", ");
            proof {
                reveal_strlit(", ");
                assert(", "@ =~= seq![',', ' ']);
            }
        }
        push_hex2(s, b[i]);
        proof {
            assert(window[i as int] == b@[i as int]);
            assert(s@ =~= pre + seq!['['] + spec_hex_list_to(window, i as int + 1));
        }
        i += 1;
    }
    s.append("]");
    proof {
        assert(s@ =~= old(s)@ + spec_hex_dump(window));
    }
}

} // verus!
