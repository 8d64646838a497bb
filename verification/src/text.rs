//! Decimal and hexadecimal rendering of unsigned integers, and parsing of
//! decimal integers, with exact specifications.  These are the building
//! blocks of the JSON bodies, the log lines and the configuration loader.

use vstd::prelude::*;

verus! {

/// The character for one digit value (decimal or hexadecimal).
pub open spec fn digit_char(d: nat) -> char
    recommends
        d < 16,
{
    if d == 0 {
        '0'
    } else if d == 1 {
        '1'
    } else if d == 2 {
        '2'
    } else if d == 3 {
        '3'
    } else if d == 4 {
        '4'
    } else if d == 5 {
        '5'
    } else if d == 6 {
        '6'
    } else if d == 7 {
        '7'
    } else if d == 8 {
        '8'
    } else if d == 9 {
        '9'
    } else if d == 10 {
        'a'
    } else if d == 11 {
        'b'
    } else if d == 12 {
        'c'
    } else if d == 13 {
        'd'
    } else if d == 14 {
        'e'
    } else {
        'f'
    }
}

/// The shortest decimal rendering of `n` (a single `0` for zero).
pub open spec fn dec_str(n: nat) -> Seq<char>
    decreases n,
{
    if n < 10 {
        seq![digit_char(n)]
    } else {
        dec_str(n / 10) + seq![digit_char(n % 10)]
    }
}

/// The decimal rendering of `n` zero-padded to exactly `w` characters;
/// exact as a numeral whenever `n < 10^w`.
pub open spec fn dec_pad(n: nat, w: nat) -> Seq<char>
    decreases w,
{
    if w == 0 {
        Seq::empty()
    } else {
        dec_pad(n / 10, (w - 1) as nat) + seq![digit_char(n % 10)]
    }
}

/// The hexadecimal rendering of `n` zero-padded to exactly `w` characters;
/// exact whenever `n < 16^w`.
pub open spec fn hex_pad(n: nat, w: nat) -> Seq<char>
    decreases w,
{
    if w == 0 {
        Seq::empty()
    } else {
        hex_pad(n / 16, (w - 1) as nat) + seq![digit_char(n % 16)]
    }
}

/// Appends the character for digit value `d` (0 to 15).
pub(crate) fn push_digit(out: &mut String, d: u8)
    requires
        d < 16,
    ensures
        final(out)@ == old(out)@ + seq![digit_char(d as nat)],
{
    match d {
        0 => {
            proof {
                reveal_strlit("0");
                assert("0"@ =~= seq![digit_char(0)]);
            }
            out.append("0");
        },
        1 => {
            proof {
                reveal_strlit("1");
                assert("1"@ =~= seq![digit_char(1)]);
            }
            out.append("1");
        },
        2 => {
            proof {
                reveal_strlit("2");
                assert("2"@ =~= seq![digit_char(2)]);
            }
            out.append("2");
        },
        3 => {
            proof {
                reveal_strlit("3");
                assert("3"@ =~= seq![digit_char(3)]);
            }
            out.append("3");
        },
        4 => {
            proof {
                reveal_strlit("4");
                assert("4"@ =~= seq![digit_char(4)]);
            }
            out.append("4");
        },
        5 => {
            proof {
                reveal_strlit("5");
                assert("5"@ =~= seq![digit_char(5)]);
            }
            out.append("5");
        },
        6 => {
            proof {
                reveal_strlit("6");
                assert("6"@ =~= seq![digit_char(6)]);
            }
            out.append("6");
        },
        7 => {
            proof {
                reveal_strlit("7");
                assert("7"@ =~= seq![digit_char(7)]);
            }
            out.append("7");
        },
        8 => {
            proof {
                reveal_strlit("8");
                assert("8"@ =~= seq![digit_char(8)]);
            }
            out.append("8");
        },
        9 => {
            proof {
                reveal_strlit("9");
                assert("9"@ =~= seq![digit_char(9)]);
            }
            out.append("9");
        },
        10 => {
            proof {
                reveal_strlit("a");
                assert("a"@ =~= seq![digit_char(10)]);
            }
            out.append("a");
        },
        11 => {
            proof {
                reveal_strlit("b");
                assert("b"@ =~= seq![digit_char(11)]);
            }
            out.append("b");
        },
        12 => {
            proof {
                reveal_strlit("c");
                assert("c"@ =~= seq![digit_char(12)]);
            }
            out.append("c");
        },
        13 => {
            proof {
                reveal_strlit("d");
                assert("d"@ =~= seq![digit_char(13)]);
            }
            out.append("d");
        },
        14 => {
            proof {
                reveal_strlit("e");
                assert("e"@ =~= seq![digit_char(14)]);
            }
            out.append("e");
        },
        _ => {
            proof {
                reveal_strlit("f");
                assert("f"@ =~= seq![digit_char(15)]);
            }
            out.append("f");
        },
    }
}

/// Appends the shortest decimal rendering of `n`.
pub fn push_u64_dec(out: &mut String, n: u64)
    ensures
        final(out)@ == old(out)@ + dec_str(n as nat),
    decreases n,
{
    if n < 10 {
        push_digit(out, n as u8);
    } else {
        push_u64_dec(out, n / 10);
        push_digit(out, (n % 10) as u8);
        proof {
            assert(old(out)@ + dec_str((n / 10) as nat) + seq![digit_char((n % 10) as nat)] =~= old(
                out,
            )@ + (dec_str((n / 10) as nat) + seq![digit_char((n % 10) as nat)]));
        }
    }
}

/// Appends the decimal rendering of `n` zero-padded to `w` characters.
pub fn push_u64_dec_pad(out: &mut String, n: u64, w: u64)
    ensures
        final(out)@ == old(out)@ + dec_pad(n as nat, w as nat),
    decreases w,
{
    if w == 0 {
        proof {
            assert(old(out)@ + dec_pad(n as nat, 0) =~= old(out)@);
        }
    } else {
        push_u64_dec_pad(out, n / 10, w - 1);
        push_digit(out, (n % 10) as u8);
        proof {
            assert(old(out)@ + dec_pad((n / 10) as nat, (w - 1) as nat) + seq![
                digit_char((n % 10) as nat),
            ] =~= old(out)@ + dec_pad(n as nat, w as nat));
        }
    }
}

/// Appends the hexadecimal rendering of `n` zero-padded to `w` characters.
pub fn push_u64_hex_pad(out: &mut String, n: u64, w: u64)
    ensures
        final(out)@ == old(out)@ + hex_pad(n as nat, w as nat),
    decreases w,
{
    if w == 0 {
        proof {
            assert(old(out)@ + hex_pad(n as nat, 0) =~= old(out)@);
        }
    } else {
        push_u64_hex_pad(out, n / 16, w - 1);
        push_digit(out, (n % 16) as u8);
        proof {
            assert(old(out)@ + hex_pad((n / 16) as nat, (w - 1) as nat) + seq![
                digit_char((n % 16) as nat),
            ] =~= old(out)@ + hex_pad(n as nat, w as nat));
        }
    }
}

/// The shortest decimal rendering of `n`, as an owned string.
pub fn u64_to_dec(n: u64) -> (r: String)
    ensures
        r@ == dec_str(n as nat),
{
    let mut s = String::new();
    push_u64_dec(&mut s, n);
    proof {
        assert(Seq::<char>::empty() + dec_str(n as nat) =~= dec_str(n as nat));
    }
    s
}

/// A padded rendering is exactly as wide as asked.
pub proof fn lemma_dec_pad_len(n: nat, w: nat)
    ensures
        dec_pad(n, w).len() == w,
    decreases w,
{
    if w > 0 {
        lemma_dec_pad_len(n / 10, (w - 1) as nat);
    }
}

/// A padded hexadecimal rendering is exactly as wide as asked.
pub proof fn lemma_hex_pad_len(n: nat, w: nat)
    ensures
        hex_pad(n, w).len() == w,
    decreases w,
{
    if w > 0 {
        lemma_hex_pad_len(n / 16, (w - 1) as nat);
    }
}

/// A padded rendering consists of decimal digits only.
pub proof fn lemma_dec_pad_digits(n: nat, w: nat)
    ensures
        forall|i: int| 0 <= i < dec_pad(n, w).len() ==> is_dec_digit(dec_pad(n, w)[i]),
    decreases w,
{
    if w > 0 {
        lemma_dec_pad_digits(n / 10, (w - 1) as nat);
        lemma_dec_pad_len(n / 10, (w - 1) as nat);
        lemma_dec_pad_len(n, w);
        assert(is_dec_digit(digit_char(n % 10)));
        assert forall|i: int| 0 <= i < dec_pad(n, w).len() implies is_dec_digit(
            dec_pad(n, w)[i],
        ) by {
            if i < w - 1 {
                assert(dec_pad(n, w)[i] == dec_pad(n / 10, (w - 1) as nat)[i]);
            } else {
                assert(dec_pad(n, w)[i] == digit_char(n % 10));
            }
        }
    }
}

/// Whether `c` is an ASCII decimal digit.
pub open spec fn is_dec_digit(c: char) -> bool {
    48 <= c as u32 <= 57
}

/// The numeric value of an ASCII decimal digit character.
pub open spec fn digit_val(c: char) -> nat {
    (c as u32 - 48) as nat
}

/// Whether every character of `s` is an ASCII decimal digit.
pub open spec fn all_dec_digits(s: Seq<char>) -> bool {
    forall|i: int| 0 <= i < s.len() ==> is_dec_digit(s[i])
}

/// The value of a non-empty string of decimal digits, most significant first.
pub open spec fn digits_val(s: Seq<char>) -> nat
    decreases s.len(),
{
    if s.len() == 0 {
        0
    } else {
        digits_val(s.drop_last()) * 10 + digit_val(s.last())
    }
}

/// The unsigned value denoted by `s`: an optional leading `+`, then one or
/// more decimal digits.  This is the grammar `str::parse` accepts for the
/// unsigned integer types, except that no width limit is applied here.
pub open spec fn parse_uint(s: Seq<char>) -> Option<nat> {
    let body = if s.len() > 0 && s[0] == '+' {
        s.drop_first()
    } else {
        s
    };
    if body.len() == 0 || !all_dec_digits(body) {
        None
    } else {
        Some(digits_val(body))
    }
}

/// The signed value denoted by `s`: an optional `+` or `-` sign, then one
/// or more decimal digits, as `str::parse` accepts for the signed integer
/// types, without a width limit.
pub open spec fn parse_int(s: Seq<char>) -> Option<int> {
    let negative = s.len() > 0 && s[0] == '-';
    let body = if s.len() > 0 && (s[0] == '+' || s[0] == '-') {
        s.drop_first()
    } else {
        s
    };
    if body.len() == 0 || !all_dec_digits(body) {
        None
    } else if negative {
        Some(-(digits_val(body) as int))
    } else {
        Some(digits_val(body) as int)
    }
}

/// A digit string's value only grows as more digits are appended.
proof fn lemma_digits_val_prefix(s: Seq<char>, i: int)
    requires
        0 <= i <= s.len(),
    ensures
        digits_val(s.take(i)) <= digits_val(s),
    decreases s.len() - i,
{
    if i < s.len() {
        assert(s.take(i + 1).drop_last() =~= s.take(i));
        assert(s.take(i + 1).last() == s[i]);
        assert(digits_val(s.take(i + 1)) == digits_val(s.take(i)) * 10 + digit_val(s[i]));
        lemma_digits_val_prefix(s, i + 1);
    } else {
        assert(s.take(i) =~= s);
    }
}

/// Parses the digit body `s[from..]` as a `u64`, `None` on a non-digit,
/// an empty body, or overflow.
fn parse_digits_u64(s: &str, from: usize) -> (r: Option<u64>)
    requires
        from <= s@.len(),
        s@.len() <= usize::MAX,
    ensures
        match r {
            Some(v) => s@.skip(from as int).len() > 0 && all_dec_digits(s@.skip(from as int))
                && v as nat == digits_val(s@.skip(from as int)),
            None => s@.skip(from as int).len() == 0 || !all_dec_digits(s@.skip(from as int))
                || digits_val(s@.skip(from as int)) > u64::MAX,
        },
{
    let ghost body = s@.skip(from as int);
    let n = s.unicode_len();
    if from == n {
        return None;
    }
    let mut acc: u64 = 0;
    let mut i: usize = from;
    while i < n
        invariant
            from <= i <= n,
            n == s@.len(),
            body == s@.skip(from as int),
            all_dec_digits(body.take(i - from)),
            acc as nat == digits_val(body.take(i - from)),
        decreases n - i,
    {
        let c = s.get_char(i);
        let u = c as u32;
        if !(48 <= u && u <= 57) {
            assert(!is_dec_digit(body[i - from]));
            return None;
        }
        let d = (u - 48) as u64;
        proof {
            assert(body.take(i - from + 1).drop_last() =~= body.take(i - from));
            assert(body.take(i - from + 1).last() == body[i - from]);
        }
        let next = match acc.checked_mul(10) {
            Some(m) => m.checked_add(d),
            None => None,
        };
        match next {
            Some(v) => {
                acc = v;
            },
            None => {
                proof {
                    assert(digits_val(body.take(i - from + 1)) > u64::MAX);
                    lemma_digits_val_prefix(body, i - from + 1);
                }
                return None;
            },
        }
        i = i + 1;
    }
    proof {
        assert(body.take(n - from) =~= body);
    }
    Some(acc)
}

/// Parses `s` as an unsigned 64-bit decimal integer, as `str::parse::<u64>`
/// would: an optional leading `+`, then digits, rejecting overflow.
pub fn parse_u64(s: &str) -> (r: Option<u64>)
    ensures
        match r {
            Some(v) => parse_uint(s@) == Some(v as nat),
            None => parse_uint(s@) is None || parse_uint(s@).unwrap() > u64::MAX,
        },
{
    let n = s.unicode_len();
    if n == 0 {
        return None;
    }
    let first = s.get_char(0);
    let from: usize = if first == '+' {
        1
    } else {
        0
    };
    proof {
        if from == 1 {
            assert(s@.skip(1) =~= s@.drop_first());
        } else {
            assert(s@.skip(0) =~= s@);
        }
    }
    parse_digits_u64(s, from)
}

/// Parses `s` as a 16-bit port number, as `str::parse::<u16>` would.
pub fn parse_u16(s: &str) -> (r: Option<u16>)
    ensures
        match r {
            Some(v) => parse_uint(s@) == Some(v as nat),
            None => parse_uint(s@) is None || parse_uint(s@).unwrap() > u16::MAX,
        },
{
    match parse_u64(s) {
        Some(v) => if v <= 65535 {
            Some(v as u16)
        } else {
            None
        },
        None => None,
    }
}

/// Parses `s` as an unsigned 32-bit decimal integer, as `str::parse::<u32>`
/// would.
pub fn parse_u32(s: &str) -> (r: Option<u32>)
    ensures
        match r {
            Some(v) => parse_uint(s@) == Some(v as nat),
            None => parse_uint(s@) is None || parse_uint(s@).unwrap() > u32::MAX,
        },
{
    match parse_u64(s) {
        Some(v) => if v <= 0xffff_ffff {
            Some(v as u32)
        } else {
            None
        },
        None => None,
    }
}

/// Parses `s` as a signed 64-bit decimal integer, as `str::parse::<i64>`
/// would: an optional `+` or `-` sign, then digits, rejecting overflow.
pub fn parse_i64(s: &str) -> (r: Option<i64>)
    ensures
        match r {
            Some(v) => parse_int(s@) == Some(v as int),
            None => parse_int(s@) is None || parse_int(s@).unwrap() > i64::MAX || parse_int(
                s@,
            ).unwrap() < i64::MIN,
        },
{
    let n = s.unicode_len();
    if n == 0 {
        return None;
    }
    let first = s.get_char(0);
    let negative = first == '-';
    let from: usize = if first == '+' || first == '-' {
        1
    } else {
        0
    };
    proof {
        if from == 1 {
            assert(s@.skip(1) =~= s@.drop_first());
        } else {
            assert(s@.skip(0) =~= s@);
        }
    }
    let mag = parse_digits_u64(s, from);
    match mag {
        None => None,
        Some(v) => {
            if negative {
                if v <= 0x7fff_ffff_ffff_ffff {
                    Some((0 - (v as i64)) as i64)
                } else if v == 0x8000_0000_0000_0000 {
                    Some(i64::MIN)
                } else {
                    None
                }
            } else {
                if v <= 0x7fff_ffff_ffff_ffff {
                    Some(v as i64)
                } else {
                    None
                }
            }
        },
    }
}

} // verus!
