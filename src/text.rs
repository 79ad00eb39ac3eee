//! Text forms of numbers: hexadecimal and decimal digits.

use vstd::prelude::*;
use vstd::string::StringExecFns;

verus! {

/// The lowercase hexadecimal digit of a value below 16.
pub open spec fn hex_char(d: nat) -> char {
    if d == 0 {
        '0'
    } else if d == 1 {
        '1'
    } else if d == 2 {
        '2'
    } else if d == 3 {
        '3'
    } else if d == 4 {
        '4'
    } else if d == 5 {
        '5'
    } else if d == 6 {
        '6'
    } else if d == 7 {
        '7'
    } else if d == 8 {
        '8'
    } else if d == 9 {
        '9'
    } else if d == 10 {
        'a'
    } else if d == 11 {
        'b'
    } else if d == 12 {
        'c'
    } else if d == 13 {
        'd'
    } else if d == 14 {
        'e'
    } else if d == 15 {
        'f'
    } else {
        '?'
    }
}

/// The digit of a value below 16, as a one-character string.
pub fn digit_str(d: u8) -> (r: &'static str)
    requires
        d < 16,
    ensures
        r@ == seq![hex_char(d as nat)],
{
    match d {
        0 => {
            proof {
                reveal_strlit("0");
            }
            "0"
        },
        1 => {
            proof {
                reveal_strlit("1");
            }
            "1"
        },
        2 => {
            proof {
                reveal_strlit("2");
            }
            "2"
        },
        3 => {
            proof {
                reveal_strlit("3");
            }
            "3"
        },
        4 => {
            proof {
                reveal_strlit("4");
            }
            "4"
        },
        5 => {
            proof {
                reveal_strlit("5");
            }
            "5"
        },
        6 => {
            proof {
                reveal_strlit("6");
            }
            "6"
        },
        7 => {
            proof {
                reveal_strlit("7");
            }
            "7"
        },
        8 => {
            proof {
                reveal_strlit("8");
            }
            "8"
        },
        9 => {
            proof {
                reveal_strlit("9");
            }
            "9"
        },
        10 => {
            proof {
                reveal_strlit("a");
            }
            "a"
        },
        11 => {
            proof {
                reveal_strlit("b");
            }
            "b"
        },
        12 => {
            proof {
                reveal_strlit("c");
            }
            "c"
        },
        13 => {
            proof {
                reveal_strlit("d");
            }
            "d"
        },
        14 => {
            proof {
                reveal_strlit("e");
            }
            "e"
        },
        _ => {
            proof {
                reveal_strlit("f");
            }
            "f"
        },
    }
}

/// Two lowercase hexadecimal digits of a byte.
pub open spec fn byte_hex(b: u8) -> Seq<char> {
    seq![hex_char(b as nat / 16), hex_char(b as nat % 16)]
}

/// Bytes in hexadecimal, two digits each, separated by colons.
pub open spec fn colon_hex(b: Seq<u8>) -> Seq<char>
    decreases b.len(),
{
    if b.len() == 0 {
        Seq::empty()
    } else if b.len() == 1 {
        byte_hex(b[0])
    } else {
        colon_hex(b.drop_last()) + seq![':'] + byte_hex(b.last())
    }
}

/// Converts a MAC address into its hexadecimal form, such as `aa:bb:cc:00:11:22`.
pub fn mac_from_dec_to_hex(mac_dec: [u8; 6]) -> (r: String)
    ensures
        r@ == colon_hex(mac_dec@),
{
    let mut mac_hex = String::new();
    let mut i: usize = 0;
    while i < 6
        invariant
            i <= 6,
            mac_dec@.len() == 6,
            mac_hex@ == colon_hex(mac_dec@.take(i as int)),
        decreases 6 - i,
    {
        let b = mac_dec[i];
        if i > 0 {
            proof {
                reveal_strlit(":");
            }
            mac_hex.append(":");
        }
        mac_hex.append(digit_str(b / 16));
        mac_hex.append(digit_str(b % 16));
        proof {
            let t = mac_dec@.take(i as int + 1);
            assert(t.drop_last() =~= mac_dec@.take(i as int));
            assert(t.last() == b);
            if i == 0 {
                assert(colon_hex(t) == byte_hex(b));
                assert(mac_hex@ =~= byte_hex(b));
            } else {
                assert(mac_hex@ =~= colon_hex(mac_dec@.take(i as int)) + seq![':'] + byte_hex(b));
            }
        }
        i = i + 1;
    }
    proof {
        assert(mac_dec@.take(6) =~= mac_dec@);
    }
    mac_hex
}

} // verus!

verus! {

/// Decimal digits of a number, without leading zeros.
pub open spec fn dec_text(n: nat) -> Seq<char>
    decreases n,
{
    if n < 10 {
        seq![hex_char(n)]
    } else {
        dec_text(n / 10) + seq![hex_char(n % 10)]
    }
}

/// Appends the decimal digits of `n`.
pub fn append_decimal(s: &mut String, n: u128)
    ensures
        final(s)@ == old(s)@ + dec_text(n as nat),
    decreases n,
{
    if n >= 10 {
        append_decimal(s, n / 10);
    }
    s.append(digit_str((n % 10) as u8));
    proof {
        if n >= 10 {
            assert(s@ =~= old(s)@ + dec_text(n as nat));
        } else {
            assert(s@ =~= old(s)@ + dec_text(n as nat));
        }
    }
}

} // verus!

