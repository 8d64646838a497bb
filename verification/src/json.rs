//! Rendering of JSON string and boolean values.  The escaping covers the
//! quote, the backslash and the control characters, which is everything
//! JSON requires; all other characters pass through unchanged.

use vstd::prelude::*;
use vstd::string::StrSliceExecFns;
use vstd::string::StringExecFns;

use crate::text::digit_char;
use crate::text::push_digit;

verus! {

/// How one character appears inside a JSON string literal.
pub open spec fn json_escaped_char(c: char) -> Seq<char> {
    if c == '"' {
        seq!['\\', '"']
    } else if c == '\\' {
        seq!['\\', '\\']
    } else if c == '\n' {
        seq!['\\', 'n']
    } else if c == '\r' {
        seq!['\\', 'r']
    } else if c == '\t' {
        seq!['\\', 't']
    } else if (c as u32) < 32 {
        seq!['\\', 'u', '0', '0', digit_char((c as u32 / 16) as nat), digit_char(
            (c as u32 % 16) as nat,
        )]
    } else {
        seq![c]
    }
}

/// How a whole string appears inside a JSON string literal, without the
/// surrounding quotes.
pub open spec fn json_escaped(s: Seq<char>) -> Seq<char>
    decreases s.len(),
{
    if s.len() == 0 {
        Seq::empty()
    } else {
        json_escaped_char(s[0]) + json_escaped(s.drop_first())
    }
}

/// A JSON string literal: `s` escaped, between double quotes.
pub open spec fn json_string(s: Seq<char>) -> Seq<char> {
    seq!['"'] + json_escaped(s) + seq!['"']
}

/// The JSON rendering of a boolean.
pub open spec fn json_bool(b: bool) -> Seq<char> {
    if b {
        "true"@
    } else {
        "false"@
    }
}

/// Appends `s` with JSON escaping applied, without quotes.
pub fn push_json_escaped(out: &mut String, s: &str)
    ensures
        final(out)@ == old(out)@ + json_escaped(s@),
{
    let n = s.unicode_len();
    let mut i: usize = 0;
    proof {
        assert(s@.skip(0) =~= s@);
    }
    while i < n
        invariant
            0 <= i <= n,
            n == s@.len(),
            out@ + json_escaped(s@.skip(i as int)) == old(out)@ + json_escaped(s@),
        decreases n - i,
    {
        let ghost prev = out@;
        let c = s.get_char(i);
        proof {
            assert(s@.skip(i as int)[0] == s@[i as int]);
            assert(s@.skip(i as int).drop_first() =~= s@.skip(i as int + 1));
            assert(json_escaped(s@.skip(i as int)) == json_escaped_char(s@[i as int])
                + json_escaped(s@.skip(i as int + 1)));
        }
        if c == '"' {
            proof {
                reveal_strlit("\\\"");
                assert("\\\""@ =~= json_escaped_char(c));
            }
            out.append("\\\"");
        } else if c == '\\' {
            proof {
                reveal_strlit("\\\\");
                assert("\\\\"@ =~= json_escaped_char(c));
            }
            out.append("\\\\");
        } else if c == '\n' {
            proof {
                reveal_strlit("\\n");
                assert("\\n"@ =~= json_escaped_char(c));
            }
            out.append("\\n");
        } else if c == '\r' {
            proof {
                reveal_strlit("\\r");
                assert("\\r"@ =~= json_escaped_char(c));
            }
            out.append("\\r");
        } else if c == '\t' {
            proof {
                reveal_strlit("\\t");
                assert("\\t"@ =~= json_escaped_char(c));
            }
            out.append("\\t");
        } else if (c as u32) < 32 {
            let u = c as u32;
            proof {
                reveal_strlit("\\u00");
            }
            out.append("\\u00");
            push_digit(out, (u / 16) as u8);
            push_digit(out, (u % 16) as u8);
            proof {
                assert(out@ =~= prev + json_escaped_char(c));
            }
        } else {
            let piece = s.substring_char(i, i + 1);
            proof {
                assert(piece@ =~= seq![c]);
                assert(seq![c] =~= json_escaped_char(c));
            }
            out.append(piece);
        }
        proof {
            assert(out@ + json_escaped(s@.skip(i as int + 1)) =~= prev + json_escaped(
                s@.skip(i as int),
            ));
        }
        i = i + 1;
    }
    proof {
        assert(s@.skip(n as int) =~= Seq::<char>::empty());
        assert(out@ + json_escaped(s@.skip(n as int)) =~= out@);
    }
}

/// Appends `s` as a JSON string literal, quotes included.
pub fn push_json_string(out: &mut String, s: &str)
    ensures
        final(out)@ == old(out)@ + json_string(s@),
{
    let ghost prev = out@;
    proof {
        reveal_strlit("\"");
        assert("\""@ =~= seq!['"']);
    }
    out.append("\"");
    push_json_escaped(out, s);
    out.append("\"");
    proof {
        assert(out@ =~= prev + json_string(s@));
    }
}

/// Appends the JSON rendering of a boolean.
pub fn push_json_bool(out: &mut String, b: bool)
    ensures
        final(out)@ == old(out)@ + json_bool(b),
{
    if b {
        out.append("true");
    } else {
        out.append("false");
    }
}

} // verus!
