//! Verified JSON string framing: escaping and quoting of text that is
//! embedded in the published payloads.

use crate::numfmt::dec_digit;
use crate::text::push_char;
use vstd::prelude::*;
use vstd::string::*;

verus! {

/// The lowercase hexadecimal digit character for `d` in `0..=15`.
pub open spec fn hex_digit(d: int) -> char {
    if d < 10 {
        dec_digit(d)
    } else if d == 10 {
        'a'
    } else if d == 11 {
        'b'
    } else if d == 12 {
        'c'
    } else if d == 13 {
        'd'
    } else if d == 14 {
        'e'
    } else {
        'f'
    }
}

/// How one character is written inside a JSON string: quotes, backslashes
/// and the common control characters get a two-character escape, the other
/// control characters a `\u00XX` escape, everything else stands as itself.
pub open spec fn esc_char(c: char) -> Seq<char> {
    if c == '"' {
        seq!['\\', '"']
    } else if c == '\\' {
        seq!['\\', '\\']
    } else if c == '\n' {
        seq!['\\', 'n']
    } else if c == '\r' {
        seq!['\\', 'r']
    } else if c == '\t' {
        seq!['\\', 't']
    } else if (c as int) < 32 {
        seq!['\\', 'u', '0', '0', hex_digit(c as int / 16), hex_digit(c as int % 16)]
    } else {
        seq![c]
    }
}

/// The body of a JSON string holding the characters of `s`.
pub open spec fn json_escaped(s: Seq<char>) -> Seq<char>
    decreases s.len(),
{
    if s.len() == 0 {
        Seq::empty()
    } else {
        esc_char(s[0]) + json_escaped(s.skip(1))
    }
}

/// The JSON string literal holding the characters of `s`.
pub open spec fn json_string(s: Seq<char>) -> Seq<char> {
    seq!['"'] + json_escaped(s) + seq!['"']
}

proof fn lemma_json_escaped_snoc(s: Seq<char>, c: char)
    ensures
        json_escaped(s.push(c)) == json_escaped(s) + esc_char(c),
    decreases s.len(),
{
    if s.len() == 0 {
        assert(s.push(c)[0] == c);
        assert(s.push(c).skip(1) =~= Seq::<char>::empty());
        assert(json_escaped(s.push(c)) == esc_char(c) + json_escaped(Seq::<char>::empty()));
        assert(esc_char(c) + Seq::<char>::empty() =~= esc_char(c));
        assert(json_escaped(s) + esc_char(c) =~= esc_char(c));
    } else {
        lemma_json_escaped_snoc(s.skip(1), c);
        assert(s.push(c).skip(1) =~= s.skip(1).push(c));
        assert(s.push(c)[0] == s[0]);
        assert(json_escaped(s.push(c)) == esc_char(s[0]) + (json_escaped(s.skip(1)) + esc_char(
            c,
        )));
        assert(esc_char(s[0]) + (json_escaped(s.skip(1)) + esc_char(c)) =~= (esc_char(s[0])
            + json_escaped(s.skip(1))) + esc_char(c));
    }
}

fn hex_digit_char(d: u32) -> (c: char)
    requires
        d < 16,
    ensures
        c == hex_digit(d as int),
{
    match d {
        0 => '0',
        1 => '1',
        2 => '2',
        3 => '3',
        4 => '4',
        5 => '5',
        6 => '6',
        7 => '7',
        8 => '8',
        9 => '9',
        10 => 'a',
        11 => 'b',
        12 => 'c',
        13 => 'd',
        14 => 'e',
        _ => 'f',
    }
}

/// Appends the escaped body of `s` to `out`.
fn push_json_escaped(out: &mut String, s: &str)
    ensures
        final(out)@ == old(out)@ + json_escaped(s@),
{
    let n = s.unicode_len();
    let mut i: usize = 0;
    proof {
        assert(s@.subrange(0, 0) =~= Seq::<char>::empty());
        assert(out@ + Seq::<char>::empty() =~= out@);
    }
    while i < n
        invariant
            n == s@.len(),
            0 <= i <= n,
            out@ == old(out)@ + json_escaped(s@.subrange(0, i as int)),
        decreases n - i,
    {
        let c = s.get_char(i);
        let ghost prev = out@;
        if c == '"' {
            push_char(out, '\\');
            push_char(out, '"');
        } else if c == '\\' {
            push_char(out, '\\');
            push_char(out, '\\');
        } else if c == '\n' {
            push_char(out, '\\');
            push_char(out, 'n');
        } else if c == '\r' {
            push_char(out, '\\');
            push_char(out, 'r');
        } else if c == '\t' {
            push_char(out, '\\');
            push_char(out, 't');
        } else if (c as u32) < 32 {
            push_char(out, '\\');
            push_char(out, 'u');
            push_char(out, '0');
            push_char(out, '0');
            push_char(out, hex_digit_char((c as u32) / 16));
            push_char(out, hex_digit_char((c as u32) % 16));
        } else {
            push_char(out, c);
        }
        proof {
            assert(out@ =~= prev + esc_char(s@[i as int]));
            lemma_json_escaped_snoc(s@.subrange(0, i as int), s@[i as int]);
            assert(s@.subrange(0, i as int).push(s@[i as int]) =~= s@.subrange(0, i + 1));
            assert(out@ =~= old(out)@ + json_escaped(s@.subrange(0, i + 1)));
        }
        i = i + 1;
    }
    proof {
        assert(s@.subrange(0, n as int) =~= s@);
    }
}

/// Appends the JSON string literal holding `s` to `out`.
pub(crate) fn push_json_string(out: &mut String, s: &str)
    ensures
        final(out)@ == old(out)@ + json_string(s@),
{
    let ghost start = out@;
    push_char(out, '"');
    proof {
        assert(out@ =~= start + seq!['"']);
    }
    push_json_escaped(out, s);
    push_char(out, '"');
    proof {
        assert(out@ =~= start + json_string(s@));
    }
}

/// The JSON string literal holding `s`, as its own string.
pub fn json_quote(s: &str) -> (r: String)
    ensures
        r@ == json_string(s@),
{
    let mut out = String::new();
    push_json_string(&mut out, s);
    proof {
        assert(Seq::<char>::empty() + json_string(s@) =~= json_string(s@));
    }
    out
}

} // verus!
