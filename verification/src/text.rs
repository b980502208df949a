//! Plain-text rendering of bytes: the two-digit hexadecimal cells of the
//! bus scan table, the hex dump of a bus read, and the hexadecimal serial
//! number string derived from the device's chip identifier.

use vstd::prelude::*;

verus! {

/// The lowercase hexadecimal digit of a value below sixteen.
pub open spec fn spec_hex_char(d: u8) -> char {
    if d == 0 {
        '0'
    } else if d == 1 {
        '1'
    } else if d == 2 {
        '2'
    } else if d == 3 {
        '3'
    } else if d == 4 {
        '4'
    } else if d == 5 {
        '5'
    } else if d == 6 {
        '6'
    } else if d == 7 {
        '7'
    } else if d == 8 {
        '8'
    } else if d == 9 {
        '9'
    } else if d == 10 {
        'a'
    } else if d == 11 {
        'b'
    } else if d == 12 {
        'c'
    } else if d == 13 {
        'd'
    } else if d == 14 {
        'e'
    } else {
        'f'
    }
}

/// The uppercase hexadecimal digit of a value below sixteen.
pub open spec fn spec_hex_char_upper(d: u8) -> char {
    if d < 10 {
        spec_hex_char(d)
    } else if d == 10 {
        'A'
    } else if d == 11 {
        'B'
    } else if d == 12 {
        'C'
    } else if d == 13 {
        'D'
    } else if d == 14 {
        'E'
    } else {
        'F'
    }
}

/// The lowercase hexadecimal digit of `d`, as a string of one character.
pub fn hex_digit_str(d: u8) -> (r: &'static str)
    requires
        d < 16,
    ensures
        r@ == seq![spec_hex_char(d)],
{
    proof {
        reveal_strlit("0");
        reveal_strlit("1");
        reveal_strlit("2");
        reveal_strlit("3");
        reveal_strlit("4");
        reveal_strlit("5");
        reveal_strlit("6");
        reveal_strlit("7");
        reveal_strlit("8");
        reveal_strlit("9");
        reveal_strlit("a");
        reveal_strlit("b");
        reveal_strlit("c");
        reveal_strlit("d");
        reveal_strlit("e");
        reveal_strlit("f");
    }
    match d {
        0 => "0",
        1 => "1",
        2 => "2",
        3 => "3",
        4 => "4",
        5 => "5",
        6 => "6",
        7 => "7",
        8 => "8",
        9 => "9",
        10 => "a",
        11 => "b",
        12 => "c",
        13 => "d",
        14 => "e",
        _ => "f",
    }
}

/// The uppercase hexadecimal digit of `d`, as a string of one character.
pub fn hex_digit_str_upper(d: u8) -> (r: &'static str)
    requires
        d < 16,
    ensures
        r@ == seq![spec_hex_char_upper(d)],
{
    proof {
        reveal_strlit("A");
        reveal_strlit("B");
        reveal_strlit("C");
        reveal_strlit("D");
        reveal_strlit("E");
        reveal_strlit("F");
    }
    if d < 10 {
        hex_digit_str(d)
    } else {
        match d {
            10 => "A",
            11 => "B",
            12 => "C",
            13 => "D",
            14 => "E",
            _ => "F",
        }
    }
}

/// The two lowercase hexadecimal digits of one byte.
pub open spec fn spec_hex_byte(b: u8) -> Seq<char> {
    seq![spec_hex_char(b / 16), spec_hex_char(b % 16)]
}

/// Renders one byte as its two lowercase hexadecimal digits.
pub fn hex_byte_string(b: u8) -> (s: String)
    ensures
        s@ == spec_hex_byte(b),
{
    let mut s = String::from_str(hex_digit_str(b / 16));
    s.append(hex_digit_str(b % 16));
    proof {
        assert(s@ =~= spec_hex_byte(b));
    }
    s
}

/// The hex dump of a byte sequence, cut at `n` bytes: two digits and a
/// space for each byte, a line break before every sixteenth byte after the
/// first.
pub open spec fn spec_hex_dump_prefix(s: Seq<u8>, n: int) -> Seq<char>
    decreases n,
{
    if n <= 0 {
        Seq::empty()
    } else {
        spec_hex_dump_prefix(s, n - 1) + (if n - 1 > 0 && (n - 1) % 16 == 0 {
            seq!['\n']
        } else {
            Seq::empty()
        }) + spec_hex_byte(s[n - 1]) + seq![' ']
    }
}

/// The full hex dump of a byte sequence, ended by one line break.
pub open spec fn spec_hex_dump(s: Seq<u8>) -> Seq<char> {
    spec_hex_dump_prefix(s, s.len() as int) + seq!['\n']
}

/// Renders a bus read as the sixteen-bytes-per-line hex dump the command
/// line prints.
pub fn hex_dump(bytes: &Vec<u8>) -> (out: String)
    ensures
        out@ == spec_hex_dump(bytes@),
{
    proof {
        reveal_strlit(" ");
        reveal_strlit("\n");
    }
    let mut out = String::new();
    let mut i: usize = 0;
    while i < bytes.len()
        invariant
            i <= bytes@.len(),
            out@ == spec_hex_dump_prefix(bytes@, i as int),
        decreases bytes@.len() - i,
    {
        proof {
            reveal_strlit(" ");
            reveal_strlit("\n");
        }
        if i > 0 && i % 16 == 0 {
            out.append("\n");
        }
        let cell = hex_byte_string(bytes[i]);
        out.append(cell.as_str());
        out.append(" ");
        proof {
            assert(out@ =~= spec_hex_dump_prefix(bytes@, i as int + 1));
        }
        i = i + 1;
    }
    out.append("\n");
    proof {
        assert(out@ =~= spec_hex_dump(bytes@));
    }
    out
}

/// The sixteen uppercase hexadecimal digits of a 64-bit chip identifier,
/// most significant first.
pub open spec fn spec_hex_u64(v: u64, digits: nat) -> Seq<char>
    decreases digits,
{
    if digits == 0 {
        Seq::empty()
    } else {
        spec_hex_u64(v / 16, (digits - 1) as nat) + seq![spec_hex_char_upper((v % 16) as u8)]
    }
}

/// Renders the low `digits` hexadecimal digits of `v`, most significant
/// first.
fn hex_u64(v: u64, digits: u8) -> (s: String)
    ensures
        s@ == spec_hex_u64(v, digits as nat),
    decreases digits,
{
    if digits == 0 {
        let s = String::new();
        proof {
            assert(s@ =~= spec_hex_u64(v, 0));
        }
        s
    } else {
        let mut s = hex_u64(v / 16, digits - 1);
        s.append(hex_digit_str_upper((v % 16) as u8));
        proof {
            assert(s@ =~= spec_hex_u64(v, digits as nat));
        }
        s
    }
}

/// The serial number string of a device: the sixteen uppercase hexadecimal
/// digits of its unique chip identifier.
pub fn chip_id_serial(chip_id: u64) -> (s: String)
    ensures
        s@ == spec_hex_u64(chip_id, 16),
{
    hex_u64(chip_id, 16)
}

} // verus!
