//! The wire shape of an enumeration value.
//!
//! On the wire an enumeration value is exactly the decimal numeral of its raw
//! integer: no wrapper object, no name string, no sign, no leading zero. A
//! service that introduces a new raw value therefore stays decodable by
//! clients built against an older constant table.

use vstd::arithmetic::div_mod::{
    lemma_div_denominator, lemma_fundamental_div_mod_converse_div,
    lemma_fundamental_div_mod_converse_mod,
};
use vstd::prelude::*;

verus! {

/// The character that writes a single decimal digit.
pub open spec fn digit_char(d: nat) -> char {
    if d == 0 {
        '0'
    } else if d == 1 {
        '1'
    } else if d == 2 {
        '2'
    } else if d == 3 {
        '3'
    } else if d == 4 {
        '4'
    } else if d == 5 {
        '5'
    } else if d == 6 {
        '6'
    } else if d == 7 {
        '7'
    } else if d == 8 {
        '8'
    } else {
        '9'
    }
}

/// The decimal numeral of `v`: most significant digit first, no leading zero.
pub open spec fn dec_chars(v: nat) -> Seq<char>
    decreases v,
{
    if v < 10 {
        seq![digit_char(v)]
    } else {
        dec_chars(v / 10).push(digit_char(v % 10))
    }
}

/// What a wire text denotes: `Some(v)` exactly when the text is the decimal
/// numeral of a raw value `v` that fits the backing width.
pub open spec fn spec_decode(s: Seq<char>) -> Option<u8> {
    if exists|v: u8| s == dec_chars(v as nat) {
        Some(choose|v: u8| s == dec_chars(v as nat))
    } else {
        None
    }
}

/// The one-character string of a single decimal digit.
fn digit_str(d: u8) -> (s: &'static str)
    requires
        d < 10,
    ensures
        s@ == seq![digit_char(d as nat)],
{
    let s: &'static str = match d {
        0 => "0",
        1 => "1",
        2 => "2",
        3 => "3",
        4 => "4",
        5 => "5",
        6 => "6",
        7 => "7",
        8 => "8",
        _ => "9",
    };
    proof {
        reveal_strlit("0");
        reveal_strlit("1");
        reveal_strlit("2");
        reveal_strlit("3");
        reveal_strlit("4");
        reveal_strlit("5");
        reveal_strlit("6");
        reveal_strlit("7");
        reveal_strlit("8");
        reveal_strlit("9");
        assert(s@ =~= seq![digit_char(d as nat)]);
    }
    s
}

/// How a raw value's numeral reads, digit by digit, over the whole backing
/// width: one digit below ten, two up to ninety-nine, three beyond.
pub proof fn lemma_dec_chars_u8(v: u8)
    ensures
        v < 10 ==> dec_chars(v as nat) == seq![digit_char(v as nat)],
        10 <= v < 100 ==> dec_chars(v as nat) == seq![
            digit_char((v / 10) as nat),
            digit_char((v % 10) as nat),
        ],
        v >= 100 ==> dec_chars(v as nat) == seq![
            digit_char((v / 100) as nat),
            digit_char(((v / 10) % 10) as nat),
            digit_char((v % 10) as nat),
        ],
{
    if v < 10 {
        assert(dec_chars(v as nat) =~= seq![digit_char(v as nat)]);
    } else if v < 100 {
        assert(dec_chars((v / 10) as nat) =~= seq![digit_char((v / 10) as nat)]);
        assert(dec_chars(v as nat) =~= seq![
            digit_char((v / 10) as nat),
            digit_char((v % 10) as nat),
        ]);
    } else {
        lemma_div_denominator(v as int, 10, 10);
        assert((v as int / 10) / 10 == v as int / 100);
        assert(v / 10 >= 10);
        assert(v / 100 < 10);
        assert(dec_chars((v / 100) as nat) =~= seq![digit_char((v / 100) as nat)]);
        assert(dec_chars((v / 10) as nat) =~= seq![
            digit_char((v / 100) as nat),
            digit_char(((v / 10) % 10) as nat),
        ]);
        assert(dec_chars(v as nat) =~= seq![
            digit_char((v / 100) as nat),
            digit_char(((v / 10) % 10) as nat),
            digit_char((v % 10) as nat),
        ]);
    }
}

/// Distinct digits write distinct characters.
proof fn lemma_digit_char_injective(d1: nat, d2: nat)
    ensures
        d1 < 10 && d2 < 10 && digit_char(d1) == digit_char(d2) ==> d1 == d2,
{
}

/// Distinct raw values write distinct numerals: the wire text loses nothing.
pub proof fn lemma_dec_chars_injective(a: u8, b: u8)
    ensures
        dec_chars(a as nat) == dec_chars(b as nat) ==> a == b,
{
    if dec_chars(a as nat) == dec_chars(b as nat) {
        lemma_dec_chars_u8(a);
        lemma_dec_chars_u8(b);
        let sa = dec_chars(a as nat);
        let sb = dec_chars(b as nat);
        assert(sa.len() == if a < 10 { 1int } else if a < 100 { 2 } else { 3 });
        assert(sb.len() == if b < 10 { 1int } else if b < 100 { 2 } else { 3 });
        if a < 10 && b < 10 {
            assert(sa[0] == digit_char(a as nat));
            assert(sb[0] == digit_char(b as nat));
            lemma_digit_char_injective(a as nat, b as nat);
        } else if 10 <= a < 100 && 10 <= b < 100 {
            assert(sa[0] == digit_char((a / 10) as nat) && sa[1] == digit_char((a % 10) as nat));
            assert(sb[0] == digit_char((b / 10) as nat) && sb[1] == digit_char((b % 10) as nat));
            lemma_digit_char_injective((a / 10) as nat, (b / 10) as nat);
            lemma_digit_char_injective((a % 10) as nat, (b % 10) as nat);
            assert(a == 10 * (a / 10) + a % 10);
            assert(b == 10 * (b / 10) + b % 10);
        } else if a >= 100 && b >= 100 {
            assert(sa[0] == digit_char((a / 100) as nat) && sa[1] == digit_char(
                ((a / 10) % 10) as nat,
            ) && sa[2] == digit_char((a % 10) as nat));
            assert(sb[0] == digit_char((b / 100) as nat) && sb[1] == digit_char(
                ((b / 10) % 10) as nat,
            ) && sb[2] == digit_char((b % 10) as nat));
            lemma_digit_char_injective((a / 100) as nat, (b / 100) as nat);
            lemma_digit_char_injective(((a / 10) % 10) as nat, ((b / 10) % 10) as nat);
            lemma_digit_char_injective((a % 10) as nat, (b % 10) as nat);
            lemma_div_denominator(a as int, 10, 10);
            lemma_div_denominator(b as int, 10, 10);
            assert(a == 10 * (a / 10) + a % 10);
            assert(a / 10 == 10 * (a / 10 / 10) + (a / 10) % 10);
            assert(b == 10 * (b / 10) + b % 10);
            assert(b / 10 == 10 * (b / 10 / 10) + (b / 10) % 10);
            assert(a / 10 == b / 10);
            assert(a == b);
        } else {
            assert(sa.len() != sb.len());
            assert(false);
        }
    }
}

/// Decoding recovers exactly what encoding wrote: the numeral of `v` denotes
/// `v` and nothing else.
pub proof fn lemma_decode_encode(v: u8)
    ensures
        spec_decode(dec_chars(v as nat)) == Some(v),
{
    assert(dec_chars(v as nat) == dec_chars(v as nat));
    let w: u8 = choose|w: u8| dec_chars(v as nat) == dec_chars(w as nat);
    lemma_dec_chars_injective(v, w);
}

/// Write `v` for the wire: exactly its decimal numeral.
pub fn encode_raw(v: u8) -> (s: String)
    ensures
        s@ == dec_chars(v as nat),
{
    let mut s = String::new();
    if v >= 100 {
        s.append(digit_str(v / 100));
    }
    if v >= 10 {
        s.append(digit_str((v / 10) % 10));
    }
    s.append(digit_str(v % 10));
    proof {
        lemma_dec_chars_u8(v);
        if v < 10 {
            assert(s@ =~= dec_chars(v as nat));
        } else if v < 100 {
            assert((v / 10) % 10 == v / 10);
            assert(s@ =~= dec_chars(v as nat));
        } else {
            assert(s@ =~= dec_chars(v as nat));
        }
    }
    s
}

/// The digit a character stands for, if any.
fn char_digit(c: char) -> (r: Option<u8>)
    ensures
        match r {
            Some(d) => d < 10 && c == digit_char(d as nat),
            None => forall|d: nat| d < 10 ==> c != digit_char(d),
        },
{
    match c {
        '0' => Some(0),
        '1' => Some(1),
        '2' => Some(2),
        '3' => Some(3),
        '4' => Some(4),
        '5' => Some(5),
        '6' => Some(6),
        '7' => Some(7),
        '8' => Some(8),
        '9' => Some(9),
        _ => None,
    }
}

/// Read a wire text back as a raw value.
///
/// Returns `Some(v)` exactly when the text is the decimal numeral of a raw
/// value `v` of the backing width; any other text — empty, a foreign
/// character, a leading zero, a value past the width — reads as `None`.
pub fn decode_raw(s: &str) -> (r: Option<u8>)
    ensures
        r == spec_decode(s@),
{
    let len: usize = s.unicode_len();
    if len == 1 {
        let d0 = char_digit(s.get_char(0));
        match d0 {
            Some(d) => {
                proof {
                    lemma_dec_chars_u8(d);
                    assert(s@ =~= dec_chars(d as nat));
                    lemma_decode_encode(d);
                }
                Some(d)
            },
            None => {
                proof {
                    assert forall|v: u8| s@ != dec_chars(v as nat) by {
                        lemma_dec_chars_u8(v);
                    }
                }
                None
            },
        }
    } else if len == 2 {
        let d0 = char_digit(s.get_char(0));
        let d1 = char_digit(s.get_char(1));
        match (d0, d1) {
            (Some(a), Some(b)) if a >= 1 => {
                let v: u8 = 10 * a + b;
                proof {
                    lemma_fundamental_div_mod_converse_div(v as int, 10, a as int, b as int);
                    lemma_fundamental_div_mod_converse_mod(v as int, 10, a as int, b as int);
                    lemma_dec_chars_u8(v);
                    assert(s@ =~= dec_chars(v as nat));
                    lemma_decode_encode(v);
                }
                Some(v)
            },
            _ => {
                proof {
                    assert forall|v: u8| s@ != dec_chars(v as nat) by {
                        lemma_dec_chars_u8(v);
                        if 10 <= v < 100 && s@ == dec_chars(v as nat) {
                            assert(s@[0] == digit_char((v / 10) as nat));
                            assert(s@[1] == digit_char((v % 10) as nat));
                            assert(v / 10 >= 1 && v / 10 < 10);
                            match d0 {
                                Some(a) => {
                                    lemma_digit_char_injective(a as nat, (v / 10) as nat);
                                },
                                None => {},
                            }
                        }
                    }
                }
                None
            },
        }
    } else if len == 3 {
        let d0 = char_digit(s.get_char(0));
        let d1 = char_digit(s.get_char(1));
        let d2 = char_digit(s.get_char(2));
        match (d0, d1, d2) {
            (Some(a), Some(b), Some(c)) if a >= 1 => {
                let wide: u16 = 100 * (a as u16) + 10 * (b as u16) + (c as u16);
                if wide <= 255 {
                    let v: u8 = wide as u8;
                    proof {
                        lemma_fundamental_div_mod_converse_div(
                            v as int,
                            10,
                            (10 * a + b) as int,
                            c as int,
                        );
                        lemma_fundamental_div_mod_converse_mod(
                            v as int,
                            10,
                            (10 * a + b) as int,
                            c as int,
                        );
                        lemma_fundamental_div_mod_converse_div(
                            (10 * a + b) as int,
                            10,
                            a as int,
                            b as int,
                        );
                        lemma_fundamental_div_mod_converse_mod(
                            (10 * a + b) as int,
                            10,
                            a as int,
                            b as int,
                        );
                        lemma_div_denominator(v as int, 10, 10);
                        lemma_dec_chars_u8(v);
                        assert(s@ =~= dec_chars(v as nat));
                        lemma_decode_encode(v);
                    }
                    Some(v)
                } else {
                    proof {
                        assert forall|v: u8| s@ != dec_chars(v as nat) by {
                            lemma_dec_chars_u8(v);
                            if v >= 100 && s@ == dec_chars(v as nat) {
                                lemma_digit_char_injective(a as nat, (v / 100) as nat);
                                lemma_digit_char_injective(b as nat, ((v / 10) % 10) as nat);
                                lemma_digit_char_injective(c as nat, (v % 10) as nat);
                                lemma_div_denominator(v as int, 10, 10);
                                assert(v == 10 * (v / 10) + v % 10);
                                assert(v / 10 == 10 * (v / 10 / 10) + (v / 10) % 10);
                            }
                        }
                    }
                    None
                }
            },
            _ => {
                proof {
                    assert forall|v: u8| s@ != dec_chars(v as nat) by {
                        lemma_dec_chars_u8(v);
                        if v >= 100 && s@ == dec_chars(v as nat) {
                            assert(s@[0] == digit_char((v / 100) as nat));
                            assert(s@[1] == digit_char(((v / 10) % 10) as nat));
                            assert(s@[2] == digit_char((v % 10) as nat));
                            assert(v / 100 >= 1 && v / 100 < 10);
                            match d0 {
                                Some(a) => {
                                    lemma_digit_char_injective(a as nat, (v / 100) as nat);
                                },
                                None => {},
                            }
                        }
                    }
                }
                None
            },
        }
    } else {
        proof {
            assert forall|v: u8| s@ != dec_chars(v as nat) by {
                lemma_dec_chars_u8(v);
            }
        }
        None
    }
}

} // verus!
