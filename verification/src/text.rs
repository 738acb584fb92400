//! Small verified text utilities: character-level string comparison,
//! prefix stripping, blank-line detection, decimal rendering and JSON
//! string escaping.  Everything here is proved against sequence-level
//! specifications; the one trusted item appends a single character to a
//! `String`.

use vstd::prelude::*;
use vstd::string::StrSliceExecFns;
use vstd::string::StringExecFns;

verus! {

/// `prefix` is an initial segment of `s`.
pub open spec fn is_prefix_of(prefix: Seq<char>, s: Seq<char>) -> bool {
    prefix.len() <= s.len() && s.subrange(0, prefix.len() as int) == prefix
}

/// The characters that `str::trim` removes: the Unicode `White_Space` set.
pub open spec fn is_space_char(c: char) -> bool {
    let n = c as u32;
    n == 0x20 || (0x9 <= n && n <= 0xD) || n == 0x85 || n == 0xA0 || n == 0x1680 || (0x2000 <= n
        && n <= 0x200A) || n == 0x2028 || n == 0x2029 || n == 0x202F || n == 0x205F || n == 0x3000
}

/// A line is blank when every character is whitespace (so `trim` empties it).
pub open spec fn blank(s: Seq<char>) -> bool {
    forall|i: int| 0 <= i < s.len() ==> is_space_char(#[trigger] s[i])
}

/// Character-by-character string equality, proved equivalent to view equality.
pub fn str_eq(a: &str, b: &str) -> (r: bool)
    ensures
        r == (a@ == b@),
{
    let alen = a.unicode_len();
    let blen = b.unicode_len();
    if alen != blen {
        return false;
    }
    let mut i: usize = 0;
    while i < alen
        invariant
            i <= alen,
            alen == a@.len(),
            blen == b@.len(),
            alen == blen,
            forall|k: int| 0 <= k < i ==> a@[k] == b@[k],
        decreases alen - i,
    {
        if a.get_char(i) != b.get_char(i) {
            return false;
        }
        i += 1;
    }
    proof {
        assert(a@ =~= b@);
    }
    true
}

/// Whether every character of `s` is whitespace.
pub fn is_blank(s: &str) -> (r: bool)
    ensures
        r == blank(s@),
{
    let n = s.unicode_len();
    let mut i: usize = 0;
    while i < n
        invariant
            i <= n,
            n == s@.len(),
            forall|k: int| 0 <= k < i ==> is_space_char(#[trigger] s@[k]),
        decreases n - i,
    {
        let c = s.get_char(i);
        let code = c as u32;
        let space = code == 0x20 || (0x9 <= code && code <= 0xD) || code == 0x85 || code == 0xA0
            || code == 0x1680 || (0x2000 <= code && code <= 0x200A) || code == 0x2028 || code
            == 0x2029 || code == 0x202F || code == 0x205F || code == 0x3000;
        if !space {
            return false;
        }
        i += 1;
    }
    true
}

/// If `s` starts with `prefix`, the rest of `s`; otherwise `None`.
pub fn str_strip_prefix<'a>(s: &'a str, prefix: &str) -> (r: Option<&'a str>)
    ensures
        match r {
            Some(rest) => is_prefix_of(prefix@, s@) && rest@ == s@.subrange(
                prefix@.len() as int,
                s@.len() as int,
            ),
            None => !is_prefix_of(prefix@, s@),
        },
{
    let slen = s.unicode_len();
    let plen = prefix.unicode_len();
    if plen > slen {
        return None;
    }
    let mut i: usize = 0;
    while i < plen
        invariant
            i <= plen,
            plen == prefix@.len(),
            slen == s@.len(),
            plen <= slen,
            forall|k: int| 0 <= k < i ==> s@[k] == prefix@[k],
        decreases plen - i,
    {
        if s.get_char(i) != prefix.get_char(i) {
            proof {
                if s@.subrange(0, plen as int) == prefix@ {
                    assert(s@.subrange(0, plen as int)[i as int] == s@[i as int]);
                }
            }
            return None;
        }
        i += 1;
    }
    proof {
        assert(s@.subrange(0, plen as int) =~= prefix@);
    }
    Some(s.substring_char(plen, slen))
}

/// The decimal digit character for `d` (< 10).
pub open spec fn digit_char(d: int) -> char {
    if d == 0 {
        '0'
    } else if d == 1 {
        '1'
    } else if d == 2 {
        '2'
    } else if d == 3 {
        '3'
    } else if d == 4 {
        '4'
    } else if d == 5 {
        '5'
    } else if d == 6 {
        '6'
    } else if d == 7 {
        '7'
    } else if d == 8 {
        '8'
    } else {
        '9'
    }
}

/// The usual base-ten rendering of `n`, with no sign and no leading zeros
/// (a single `'0'` for zero).
pub open spec fn dec_digits(n: nat) -> Seq<char>
    decreases n,
{
    if n < 10 {
        seq![digit_char(n as int)]
    } else {
        dec_digits(n / 10).push(digit_char((n % 10) as int))
    }
}

/// The decimal rendering is never empty.
pub proof fn lemma_dec_digits_nonempty(n: nat)
    ensures
        dec_digits(n).len() >= 1,
    decreases n,
{
    if n >= 10 {
        lemma_dec_digits_nonempty(n / 10);
    }
}

fn append_digit(out: &mut String, d: usize)
    requires
        d < 10,
    ensures
        final(out)@ == old(out)@ + seq![digit_char(d as int)],
{
    proof {
        reveal_strlit("0");
        reveal_strlit("1");
        reveal_strlit("2");
        reveal_strlit("3");
        reveal_strlit("4");
        reveal_strlit("5");
        reveal_strlit("6");
        reveal_strlit("7");
        reveal_strlit("8");
        reveal_strlit("9");
    }
    match d {
        0 => out.append("0"),
        1 => out.append("1"),
        2 => out.append("2"),
        3 => out.append("3"),
        4 => out.append("4"),
        5 => out.append("5"),
        6 => out.append("6"),
        7 => out.append("7"),
        8 => out.append("8"),
        _ => out.append("9"),
    }
}

fn append_decimal(out: &mut String, n: usize)
    ensures
        final(out)@ == old(out)@ + dec_digits(n as nat),
    decreases n,
{
    if n < 10 {
        append_digit(out, n);
    } else {
        proof {
            assert(n / 10 < n) by (nonlinear_arith)
                requires
                    n >= 10,
            ;
        }
        append_decimal(out, n / 10);
        append_digit(out, n % 10);
        proof {
            assert(old(out)@ + dec_digits((n / 10) as nat) + seq![
                digit_char((n % 10) as int),
            ] =~= old(out)@ + dec_digits(n as nat));
        }
    }
}

/// Render `n` in decimal.
pub fn usize_to_string(n: usize) -> (r: String)
    ensures
        r@ == dec_digits(n as nat),
{
    let mut out = String::new();
    append_decimal(&mut out, n);
    proof {
        assert(Seq::<char>::empty() + dec_digits(n as nat) =~= dec_digits(n as nat));
    }
    out
}

/// The hexadecimal digit character for `d` (< 16), lower case.
pub open spec fn hex_char(d: int) -> char {
    if d < 10 {
        digit_char(d)
    } else if d == 10 {
        'a'
    } else if d == 11 {
        'b'
    } else if d == 12 {
        'c'
    } else if d == 13 {
        'd'
    } else if d == 14 {
        'e'
    } else {
        'f'
    }
}

/// How one character is written inside a JSON string literal, matching the
/// escapes `serde_json` produces: the two-character escapes for quote,
/// backslash and the common control characters, `\u00XX` for the remaining
/// control characters, and the character itself otherwise.
pub open spec fn json_escape_char(c: char) -> Seq<char> {
    if c == '"' {
        seq!['\\', '"']
    } else if c == '\\' {
        seq!['\\', '\\']
    } else if c == '\u{8}' {
        seq!['\\', 'b']
    } else if c == '\u{c}' {
        seq!['\\', 'f']
    } else if c == '\n' {
        seq!['\\', 'n']
    } else if c == '\r' {
        seq!['\\', 'r']
    } else if c == '\t' {
        seq!['\\', 't']
    } else if (c as u32) < 0x20 {
        seq!['\\', 'u', '0', '0', hex_char((c as u32) as int / 16), hex_char((c as u32) as int % 16)]
    } else {
        seq![c]
    }
}

/// The body of a JSON string literal holding exactly the characters of `s`.
pub open spec fn json_escaped(s: Seq<char>) -> Seq<char>
    decreases s.len(),
{
    if s.len() == 0 {
        Seq::empty()
    } else {
        json_escaped(s.drop_last()) + json_escape_char(s.last())
    }
}

/// Relies on std's `String::push`: appends exactly the one character.
#[verifier::external_body]
fn push_char(out: &mut String, c: char)
    ensures
        final(out)@ == old(out)@.push(c),
{
    out.push(c);
}

fn append_hex_digit(out: &mut String, d: u32)
    requires
        d < 16,
    ensures
        final(out)@ == old(out)@ + seq![hex_char(d as int)],
{
    proof {
        reveal_strlit("a");
        reveal_strlit("b");
        reveal_strlit("c");
        reveal_strlit("d");
        reveal_strlit("e");
        reveal_strlit("f");
    }
    if d < 10 {
        append_digit(out, d as usize);
    } else {
        match d {
            10 => out.append("a"),
            11 => out.append("b"),
            12 => out.append("c"),
            13 => out.append("d"),
            14 => out.append("e"),
            _ => out.append("f"),
        }
    }
}

/// Append `s` to `out` in JSON-escaped form.
pub fn append_json_escaped(out: &mut String, s: &str)
    ensures
        final(out)@ == old(out)@ + json_escaped(s@),
{
    let n = s.unicode_len();
    let mut i: usize = 0;
    proof {
        assert(s@.take(0) =~= Seq::<char>::empty());
        assert(old(out)@ + json_escaped(s@.take(0)) =~= old(out)@);
    }
    while i < n
        invariant
            i <= n,
            n == s@.len(),
            out@ == old(out)@ + json_escaped(s@.take(i as int)),
        decreases n - i,
    {
        let ghost prev = out@;
        let c = s.get_char(i);
        if c == '"' {
            proof {
                reveal_strlit("\\\"");
            }
            out.append("\\\"");
        } else if c == '\\' {
            proof {
                reveal_strlit("\\\\");
            }
            out.append("\\\\");
        } else if c == '\u{8}' {
            proof {
                reveal_strlit("\\b");
            }
            out.append("\\b");
        } else if c == '\u{c}' {
            proof {
                reveal_strlit("\\f");
            }
            out.append("\\f");
        } else if c == '\n' {
            proof {
                reveal_strlit("\\n");
            }
            out.append("\\n");
        } else if c == '\r' {
            proof {
                reveal_strlit("\\r");
            }
            out.append("\\r");
        } else if c == '\t' {
            proof {
                reveal_strlit("\\t");
            }
            out.append("\\t");
        } else if (c as u32) < 0x20 {
            proof {
                reveal_strlit("\\u00");
            }
            out.append("\\u00");
            append_hex_digit(out, (c as u32) / 16);
            append_hex_digit(out, (c as u32) % 16);
            proof {
                assert(prev + json_escape_char(c) =~= out@);
            }
        } else {
            push_char(out, c);
            proof {
                assert(prev + json_escape_char(c) =~= out@);
            }
        }
        proof {
            assert(out@ =~= prev + json_escape_char(c));
            assert(s@.take(i + 1).drop_last() =~= s@.take(i as int));
            assert(s@.take(i + 1).last() == s@[i as int]);
            assert(json_escaped(s@.take(i + 1)) == json_escaped(s@.take(i as int))
                + json_escape_char(s@[i as int]));
            assert(out@ =~= old(out)@ + json_escaped(s@.take(i + 1)));
        }
        i += 1;
    }
    proof {
        assert(s@.take(n as int) =~= s@);
    }
}

/// A quoted JSON string literal: `"` + the escaped characters + `"`.
pub open spec fn json_string(s: Seq<char>) -> Seq<char> {
    seq!['"'] + json_escaped(s) + seq!['"']
}

/// A JSON array of string literals: `["a","b",...]`.
pub open spec fn json_string_array(items: Seq<Seq<char>>) -> Seq<char>
    decreases items.len(),
{
    if items.len() == 0 {
        "[]"@
    } else if items.len() == 1 {
        seq!['['] + json_string(items[0]) + seq![']']
    } else {
        json_string_array(items.drop_last()).drop_last() + seq![','] + json_string(items.last())
            + seq![']']
    }
}

/// A rendered JSON string array is nonempty and ends with `]`.
pub proof fn lemma_json_string_array_shape(items: Seq<Seq<char>>)
    ensures
        json_string_array(items).len() >= 2,
        json_string_array(items).last() == ']',
    decreases items.len(),
{
    reveal_strlit("[]");
    if items.len() > 1 {
        lemma_json_string_array_shape(items.drop_last());
    }
}

/// The JSON spelling of a boolean.
pub open spec fn json_bool(b: bool) -> Seq<char> {
    if b {
        "true"@
    } else {
        "false"@
    }
}

/// Append the quoted JSON string literal for `s`.
pub fn append_json_string(out: &mut String, s: &str)
    ensures
        final(out)@ == old(out)@ + json_string(s@),
{
    proof {
        reveal_strlit("\"");
    }
    out.append("\"");
    append_json_escaped(out, s);
    out.append("\"");
    proof {
        assert(old(out)@ + seq!['"'] + json_escaped(s@) + seq!['"'] =~= old(out)@ + json_string(
            s@,
        ));
    }
}

/// Append the JSON array of string literals for `items`.
pub fn append_json_string_array(out: &mut String, items: &Vec<String>)
    ensures
        final(out)@ == old(out)@ + json_string_array(items.deep_view()),
{
    proof {
        reveal_strlit("[");
        reveal_strlit("]");
        reveal_strlit("[]");
        reveal_strlit(",");
    }
    let n = items.len();
    if n == 0 {
        out.append("[]");
        proof {
            assert(items.deep_view().len() == 0);
            assert(out@ =~= old(out)@ + json_string_array(items.deep_view()));
        }
        return ;
    }
    out.append("[");
    let mut i: usize = 0;
    while i < n
        invariant
            i <= n,
            0 < n == items.deep_view().len(),
            i > 0 ==> out@ + seq![']'] == old(out)@ + json_string_array(
                items.deep_view().take(i as int),
            ),
            i == 0 ==> out@ == old(out)@ + seq!['['],
        decreases n - i,
    {
        let ghost before = out@;
        if i > 0 {
            proof {
                reveal_strlit(",");
            }
            out.append(",");
        }
        append_json_string(out, items[i].as_str());
        proof {
            let dv = items.deep_view();
            assert(items@[i as int].deep_view() == dv[i as int]);
            if i == 0 {
                assert(dv.take(1).len() == 1);
                assert(dv.take(1)[0] == dv[0]);
                assert(out@ + seq![']'] =~= old(out)@ + json_string_array(dv.take(1)));
            } else {
                assert(dv.take(i + 1).drop_last() =~= dv.take(i as int));
                assert(dv.take(i + 1).last() == dv[i as int]);
                assert(json_string_array(dv.take(i + 1)) == json_string_array(
                    dv.take(i as int),
                ).drop_last() + seq![','] + json_string(dv[i as int]) + seq![']']);
                lemma_json_string_array_shape(dv.take(i as int));
                assert(before == (old(out)@ + json_string_array(dv.take(i as int))).drop_last());
                assert(before =~= old(out)@ + json_string_array(dv.take(i as int)).drop_last());
                assert(out@ + seq![']'] =~= old(out)@ + json_string_array(dv.take(i + 1)));
            }
        }
        i += 1;
    }
    out.append("]");
    proof {
        assert(items.deep_view().take(n as int) =~= items.deep_view());
        assert(out@ =~= old(out)@ + json_string_array(items.deep_view()));
    }
}

/// Append the JSON spelling of a boolean.
pub fn append_json_bool(out: &mut String, b: bool)
    ensures
        final(out)@ == old(out)@ + json_bool(b),
{
    if b {
        out.append("true");
    } else {
        out.append("false");
    }
}

} // verus!
