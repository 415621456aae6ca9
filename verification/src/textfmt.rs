//! Plain-text building blocks: decimal and hexadecimal rendering of
//! integers, left-aligned padding, and joining token lists.
//!
//! Every helper carries an exact contract over sequences of characters, so
//! the renderers can pin whole output lines down to the character.

use vstd::prelude::*;

verus! {

/// The decimal digit character for a value below ten.
pub open spec fn digit_char(d: int) -> char {
    if d == 0 {
        '0'
    } else if d == 1 {
        '1'
    } else if d == 2 {
        '2'
    } else if d == 3 {
        '3'
    } else if d == 4 {
        '4'
    } else if d == 5 {
        '5'
    } else if d == 6 {
        '6'
    } else if d == 7 {
        '7'
    } else if d == 8 {
        '8'
    } else {
        '9'
    }
}

/// Decimal digits of a non-negative number, most significant first.
pub open spec fn dec_digits(n: nat) -> Seq<char>
    decreases n,
{
    if n < 10 {
        seq![digit_char(n as int)]
    } else {
        dec_digits(n / 10) + seq![digit_char((n % 10) as int)]
    }
}

/// Decimal rendering of a signed number: a leading minus for negatives.
pub open spec fn dec_int(n: int) -> Seq<char> {
    if n < 0 {
        seq!['-'] + dec_digits((-n) as nat)
    } else {
        dec_digits(n as nat)
    }
}

/// A run of `n` spaces.
pub open spec fn spaces(n: nat) -> Seq<char>
    decreases n,
{
    if n == 0 {
        Seq::empty()
    } else {
        spaces((n - 1) as nat) + seq![' ']
    }
}

/// `s` left-aligned in a field of width `w`: padded with spaces on the
/// right when shorter, unchanged when already as wide.
pub open spec fn pad_right(s: Seq<char>, w: nat) -> Seq<char> {
    if s.len() >= w {
        s
    } else {
        s + spaces((w - s.len()) as nat)
    }
}

/// Tokens joined with single spaces between them.
pub open spec fn join_spaced(parts: Seq<Seq<char>>) -> Seq<char>
    decreases parts.len(),
{
    if parts.len() == 0 {
        Seq::empty()
    } else if parts.len() == 1 {
        parts[0]
    } else {
        join_spaced(parts.drop_last()) + seq![' '] + parts.last()
    }
}

/// The lowercase hexadecimal digit character for a value below sixteen.
pub open spec fn hex_char(d: int) -> char {
    if d < 10 {
        digit_char(d)
    } else if d == 10 {
        'a'
    } else if d == 11 {
        'b'
    } else if d == 12 {
        'c'
    } else if d == 13 {
        'd'
    } else if d == 14 {
        'e'
    } else {
        'f'
    }
}

/// `digits` lowercase hexadecimal digits of `n`, most significant first,
/// zero-padded to that width.
pub open spec fn hex_digits(n: nat, digits: nat) -> Seq<char>
    decreases digits,
{
    if digits == 0 {
        Seq::empty()
    } else {
        hex_digits(n / 16, (digits - 1) as nat) + seq![hex_char((n % 16) as int)]
    }
}

/// Relies on std's String::push: appends the given character to the end of
/// the string.
#[verifier::external_body]
pub fn push_char(s: &mut String, c: char)
    ensures
        final(s)@ == old(s)@.push(c),
{
    s.push(c)
}

/// One decimal digit as a string.
fn digit_string(d: u32) -> (r: String)
    requires
        d < 10,
    ensures
        r@ == seq![digit_char(d as int)],
{
    let s: &str = if d == 0 {
        "0"
    } else if d == 1 {
        "1"
    } else if d == 2 {
        "2"
    } else if d == 3 {
        "3"
    } else if d == 4 {
        "4"
    } else if d == 5 {
        "5"
    } else if d == 6 {
        "6"
    } else if d == 7 {
        "7"
    } else if d == 8 {
        "8"
    } else {
        "9"
    };
    proof {
        reveal_strlit("0");
        reveal_strlit("1");
        reveal_strlit("2");
        reveal_strlit("3");
        reveal_strlit("4");
        reveal_strlit("5");
        reveal_strlit("6");
        reveal_strlit("7");
        reveal_strlit("8");
        reveal_strlit("9");
    }
    assert(s@ =~= seq![digit_char(d as int)]);
    s.to_owned()
}

/// Decimal rendering of an unsigned 64-bit number.
pub fn u64_to_string(n: u64) -> (r: String)
    ensures
        r@ == dec_digits(n as nat),
    decreases n,
{
    if n < 10 {
        digit_string((n % 10) as u32)
    } else {
        let mut r = u64_to_string(n / 10);
        let last = digit_string((n % 10) as u32);
        r.append(last.as_str());
        r
    }
}

/// Decimal rendering of an unsigned 32-bit number.
pub fn u32_to_string(n: u32) -> (r: String)
    ensures
        r@ == dec_digits(n as nat),
{
    u64_to_string(n as u64)
}

/// A refresh rate in millihertz rendered in hertz with three decimals:
/// sign, whole hertz, a point, and the milli part zero-padded to three
/// digits.
pub open spec fn refresh_hz(millihertz: int) -> Seq<char> {
    if millihertz < 0 {
        seq!['-'] + refresh_hz_magnitude((-millihertz) as nat)
    } else {
        refresh_hz_magnitude(millihertz as nat)
    }
}

/// The unsigned part of `refresh_hz`.
pub open spec fn refresh_hz_magnitude(m: nat) -> Seq<char> {
    dec_digits(m / 1000) + seq!['.'] + seq![
        digit_char((m / 100 % 10) as int),
        digit_char((m / 10 % 10) as int),
        digit_char((m % 10) as int),
    ]
}

/// Renders a refresh rate, given in millihertz, in hertz with three
/// decimals.
pub fn refresh_to_string(millihertz: i32) -> (r: String)
    ensures
        r@ == refresh_hz(millihertz as int),
{
    let wide: i64 = millihertz as i64;
    let magnitude: u32 = if wide < 0 {
        (-wide) as u32
    } else {
        millihertz as u32
    };
    let mut r = String::new();
    if wide < 0 {
        r.append("-");
        proof {
            reveal_strlit("-");
            assert(r@ =~= seq!['-']);
        }
    }
    let whole = u32_to_string(magnitude / 1000);
    r.append(whole.as_str());
    r.append(".");
    let d0 = digit_string(magnitude / 100 % 10);
    let d1 = digit_string(magnitude / 10 % 10);
    let d2 = digit_string(magnitude % 10);
    r.append(d0.as_str());
    r.append(d1.as_str());
    r.append(d2.as_str());
    proof {
        reveal_strlit(".");
        assert("."@ =~= seq!['.']);
        assert(r@ =~= refresh_hz(millihertz as int));
    }
    r
}

/// Whether two string slices hold the same characters.
pub fn str_eq(a: &str, b: &str) -> (r: bool)
    ensures
        r == (a@ == b@),
{
    let a_owned: String = a.to_owned();
    let b_owned: String = b.to_owned();
    a_owned.eq(&b_owned)
}

/// Whether a string equals a literal, character for character.
pub fn string_eq_literal(s: &String, lit: &str) -> (r: bool)
    ensures
        r == (s@ == lit@),
{
    str_eq(s.as_str(), lit)
}

/// Decimal rendering of a signed 32-bit number.
pub fn i32_to_string(n: i32) -> (r: String)
    ensures
        r@ == dec_int(n as int),
{
    let wide: i64 = n as i64;
    if wide < 0 {
        let magnitude: u32 = (-wide) as u32;
        let mut r = String::new();
        r.append("-");
        let digits = u32_to_string(magnitude);
        r.append(digits.as_str());
        proof {
            reveal_strlit("-");
            assert(r@ =~= dec_int(n as int));
        }
        r
    } else {
        u32_to_string(n as u32)
    }
}

/// Appends spaces until the string is `w` characters wide; a wider string
/// stays as it is.
pub fn pad_to_width(s: &mut String, w: usize)
    ensures
        final(s)@ == pad_right(old(s)@, w as nat),
{
    let mut have: usize = s.as_str().unicode_len();
    if have >= w {
        return ;
    }
    let ghost start = s@;
    while have < w
        invariant
            have == s@.len(),
            have <= w,
            s@ == start + spaces((have - start.len()) as nat),
            start.len() <= have,
        decreases w - have,
    {
        s.append(" ");
        proof {
            reveal_strlit(" ");
            assert(" "@ =~= seq![' ']);
            assert(s@ =~= start + spaces((have + 1 - start.len()) as nat));
        }
        have = have + 1;
    }
    proof {
        assert(s@ =~= pad_right(start, w as nat));
    }
}

/// Joins the tokens with single spaces.
pub fn join_tokens(parts: &Vec<String>) -> (r: String)
    ensures
        r@ == join_spaced(parts.deep_view()),
{
    let mut r = String::new();
    let mut i: usize = 0;
    proof {
        assert(parts.deep_view().len() == parts@.len());
    }
    while i < parts.len()
        invariant
            i <= parts@.len(),
            parts.deep_view().len() == parts@.len(),
            forall|j: int| 0 <= j < parts@.len() ==> parts.deep_view()[j] == parts@[j]@,
            r@ == join_spaced(parts.deep_view().take(i as int)),
        decreases parts@.len() - i,
    {
        if i > 0 {
            r.append(" ");
            proof {
                reveal_strlit(" ");
                assert(" "@ =~= seq![' ']);
            }
        }
        r.append(parts[i].as_str());
        proof {
            let taken = parts.deep_view().take(i + 1 as int);
            assert(taken.drop_last() =~= parts.deep_view().take(i as int));
            assert(taken.last() == parts@[i as int]@);
            assert(r@ =~= join_spaced(taken));
        }
        i = i + 1;
    }
    proof {
        assert(parts.deep_view().take(parts@.len() as int) =~= parts.deep_view());
    }
    r
}

/// One lowercase hexadecimal digit as a string.
fn hex_digit_string(d: u32) -> (r: String)
    requires
        d < 16,
    ensures
        r@ == seq![hex_char(d as int)],
{
    if d < 10 {
        digit_string(d)
    } else {
        let s: &str = if d == 10 {
            "a"
        } else if d == 11 {
            "b"
        } else if d == 12 {
            "c"
        } else if d == 13 {
            "d"
        } else if d == 14 {
            "e"
        } else {
            "f"
        };
        proof {
            reveal_strlit("a");
            reveal_strlit("b");
            reveal_strlit("c");
            reveal_strlit("d");
            reveal_strlit("e");
            reveal_strlit("f");
        }
        assert(s@ =~= seq![hex_char(d as int)]);
        s.to_owned()
    }
}

/// Lowercase hexadecimal rendering of `n`, zero-padded to `digits` digits,
/// most significant first.
pub fn u32_to_hex(n: u32, digits: usize) -> (r: String)
    ensures
        r@ == hex_digits(n as nat, digits as nat),
    decreases digits,
{
    if digits == 0 {
        String::new()
    } else {
        let mut r = u32_to_hex(n / 16, digits - 1);
        let last = hex_digit_string(n % 16);
        r.append(last.as_str());
        r
    }
}

} // verus!
