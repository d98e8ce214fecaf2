//! Textual forms of identifiers: the hyphenated hexadecimal form of a 128-bit
//! room or connection id, and decimal renderings of counters and timestamps.

use vstd::prelude::*;

verus! {

/// The lowercase hexadecimal digit character for a value below sixteen.
pub open spec fn hex_digit(n: int) -> char
    recommends
        0 <= n < 16,
{
    if n == 0 {
        '0'
    } else if n == 1 {
        '1'
    } else if n == 2 {
        '2'
    } else if n == 3 {
        '3'
    } else if n == 4 {
        '4'
    } else if n == 5 {
        '5'
    } else if n == 6 {
        '6'
    } else if n == 7 {
        '7'
    } else if n == 8 {
        '8'
    } else if n == 9 {
        '9'
    } else if n == 10 {
        'a'
    } else if n == 11 {
        'b'
    } else if n == 12 {
        'c'
    } else if n == 13 {
        'd'
    } else if n == 14 {
        'e'
    } else {
        'f'
    }
}

/// `x` written in exactly `digits` lowercase hexadecimal digits,
/// most significant first, with leading zeros.
pub open spec fn hex_seq(x: int, digits: nat) -> Seq<char>
    decreases digits,
{
    if digits == 0 {
        Seq::empty()
    } else {
        hex_seq(x / 16, (digits - 1) as nat).push(hex_digit(x % 16))
    }
}

/// `n` written in decimal with no leading zeros (a single zero for zero).
pub open spec fn dec_seq(n: int) -> Seq<char>
    recommends
        n >= 0,
    decreases n,
{
    if n < 10 {
        seq![hex_digit(n)]
    } else {
        dec_seq(n / 10).push(hex_digit(n % 10))
    }
}

/// The canonical hyphenated text of a 128-bit id: five lowercase hexadecimal
/// groups of 8, 4, 4, 4 and 12 digits.
pub open spec fn uuid_seq(x: u128) -> Seq<char> {
    hex_seq(x as int / 0x1000000000000000000000000, 8) + seq!['-'] + hex_seq(
        (x as int / 0x100000000000000000000) % 0x10000,
        4,
    ) + seq!['-'] + hex_seq((x as int / 0x10000000000000000) % 0x10000, 4) + seq!['-'] + hex_seq(
        (x as int / 0x1000000000000) % 0x10000,
        4,
    ) + seq!['-'] + hex_seq(x as int % 0x1000000000000, 12)
}

/// One lowercase hexadecimal digit as a string slice.
fn hex_char_str(d: u128) -> (r: &'static str)
    requires
        d < 16,
    ensures
        r@ == seq![hex_digit(d as int)],
{
    proof {
        reveal_strlit("0");
        reveal_strlit("1");
        reveal_strlit("2");
        reveal_strlit("3");
        reveal_strlit("4");
        reveal_strlit("5");
        reveal_strlit("6");
        reveal_strlit("7");
        reveal_strlit("8");
        reveal_strlit("9");
        reveal_strlit("a");
        reveal_strlit("b");
        reveal_strlit("c");
        reveal_strlit("d");
        reveal_strlit("e");
        reveal_strlit("f");
    }
    if d == 0 {
        "0"
    } else if d == 1 {
        "1"
    } else if d == 2 {
        "2"
    } else if d == 3 {
        "3"
    } else if d == 4 {
        "4"
    } else if d == 5 {
        "5"
    } else if d == 6 {
        "6"
    } else if d == 7 {
        "7"
    } else if d == 8 {
        "8"
    } else if d == 9 {
        "9"
    } else if d == 10 {
        "a"
    } else if d == 11 {
        "b"
    } else if d == 12 {
        "c"
    } else if d == 13 {
        "d"
    } else if d == 14 {
        "e"
    } else {
        "f"
    }
}

/// `x` in exactly `digits` lowercase hexadecimal digits, leading zeros kept.
pub fn hex_string(x: u128, digits: u32) -> (r: String)
    ensures
        r@ == hex_seq(x as int, digits as nat),
    decreases digits,
{
    if digits == 0 {
        String::new()
    } else {
        let mut s = hex_string(x / 16, digits - 1);
        s.append(hex_char_str(x % 16));
        assert(s@ == hex_seq(x as int / 16, (digits - 1) as nat) + seq![
            hex_digit(x as int % 16),
        ]);
        assert(s@ =~= hex_seq(x as int, digits as nat));
        s
    }
}

/// `n` in decimal, no leading zeros.
pub fn u64_dec_string(n: u64) -> (r: String)
    ensures
        r@ == dec_seq(n as int),
    decreases n,
{
    if n < 10 {
        let s = hex_char_str(n as u128).to_owned();
        assert(s@ =~= dec_seq(n as int));
        s
    } else {
        let mut s = u64_dec_string(n / 10);
        s.append(hex_char_str((n % 10) as u128));
        assert(s@ =~= dec_seq(n as int));
        s
    }
}

/// The hyphenated text of a 128-bit id, as the canonical id rendering used in
/// URLs and batch tags.
pub fn uuid_string(x: u128) -> (r: String)
    ensures
        r@ == uuid_seq(x),
{
    proof {
        reveal_strlit("-");
    }
    let mut s = hex_string(x / 0x1000000000000000000000000, 8);
    s.append("-");
    let g2 = hex_string((x / 0x100000000000000000000) % 0x10000, 4);
    s.append(g2.as_str());
    s.append("-");
    let g3 = hex_string((x / 0x10000000000000000) % 0x10000, 4);
    s.append(g3.as_str());
    s.append("-");
    let g4 = hex_string((x / 0x1000000000000) % 0x10000, 4);
    s.append(g4.as_str());
    s.append("-");
    let g5 = hex_string(x % 0x1000000000000, 12);
    s.append(g5.as_str());
    assert(s@ =~= uuid_seq(x));
    s
}

/// The socket path a client connects to for a given room.
pub fn websocket_url(room_id: u128) -> (r: String)
    ensures
        r@ == "/ws/rooms/"@ + uuid_seq(room_id),
{
    let mut s = "/ws/rooms/".to_owned();
    let id = uuid_string(room_id);
    s.append(id.as_str());
    s
}

} // verus!
