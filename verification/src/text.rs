//! Character-level building blocks: appending characters, decimal rendering
//! of status codes, and JSON string escaping for the token-request body.

use vstd::prelude::*;

verus! {

/// Relies on `String::push` of std: appends the given character to the end
/// of the string, and nothing else.
#[verifier::external_body]
pub(crate) fn push_char(s: &mut String, c: char)
    ensures
        final(s)@ == old(s)@ + seq![c],
{
    s.push(c)
}

/// The character for one decimal digit.
pub open spec fn decimal_digit(d: nat) -> char {
    if d == 0 {
        '0'
    } else if d == 1 {
        '1'
    } else if d == 2 {
        '2'
    } else if d == 3 {
        '3'
    } else if d == 4 {
        '4'
    } else if d == 5 {
        '5'
    } else if d == 6 {
        '6'
    } else if d == 7 {
        '7'
    } else if d == 8 {
        '8'
    } else {
        '9'
    }
}

/// Decimal representation of a number, most significant digit first, with no
/// leading zero except for the number zero itself.
pub open spec fn decimal_rep(n: nat) -> Seq<char>
    decreases n,
{
    if n < 10 {
        seq![decimal_digit(n)]
    } else {
        decimal_rep(n / 10) + seq![decimal_digit(n % 10)]
    }
}

fn append_decimal_digit(s: &mut String, d: u16)
    requires
        d < 10,
    ensures
        final(s)@ == old(s)@ + seq![decimal_digit(d as nat)],
{
    let c: char = if d == 0 {
        '0'
    } else if d == 1 {
        '1'
    } else if d == 2 {
        '2'
    } else if d == 3 {
        '3'
    } else if d == 4 {
        '4'
    } else if d == 5 {
        '5'
    } else if d == 6 {
        '6'
    } else if d == 7 {
        '7'
    } else if d == 8 {
        '8'
    } else {
        '9'
    };
    push_char(s, c);
}

/// Appends the decimal representation of `n` to `s`.
pub fn append_decimal(s: &mut String, n: u16)
    ensures
        final(s)@ == old(s)@ + decimal_rep(n as nat),
    decreases n,
{
    if n < 10 {
        append_decimal_digit(s, n);
    } else {
        append_decimal(s, n / 10);
        append_decimal_digit(s, n % 10);
        proof {
            assert(old(s)@ + decimal_rep((n / 10) as nat) + seq![decimal_digit((n % 10) as nat)]
                =~= old(s)@ + decimal_rep(n as nat));
        }
    }
}

/// Renders `n` in decimal.
pub fn decimal_string(n: u16) -> (r: String)
    ensures
        r@ == decimal_rep(n as nat),
{
    let mut s = String::new();
    append_decimal(&mut s, n);
    proof {
        assert(Seq::<char>::empty() + decimal_rep(n as nat) =~= decimal_rep(n as nat));
    }
    s
}

/// The character for one hexadecimal digit, lower case.
pub open spec fn hex_digit(d: nat) -> char {
    if d < 10 {
        decimal_digit(d)
    } else if d == 10 {
        'a'
    } else if d == 11 {
        'b'
    } else if d == 12 {
        'c'
    } else if d == 13 {
        'd'
    } else if d == 14 {
        'e'
    } else {
        'f'
    }
}

/// How one character appears inside a JSON string literal: quote and
/// backslash get a backslash escape, the common control characters get their
/// short escapes, the remaining control characters get a `\u00XX` escape, and
/// every other character stands for itself.
pub open spec fn json_escaped_char(c: char) -> Seq<char> {
    if c == '"' {
        seq!['\\', '"']
    } else if c == '\\' {
        seq!['\\', '\\']
    } else if c == '\u{8}' {
        seq!['\\', 'b']
    } else if c == '\t' {
        seq!['\\', 't']
    } else if c == '\n' {
        seq!['\\', 'n']
    } else if c == '\u{c}' {
        seq!['\\', 'f']
    } else if c == '\r' {
        seq!['\\', 'r']
    } else if (c as u32) < 32 {
        seq!['\\', 'u', '0', '0', hex_digit((c as u32 / 16) as nat), hex_digit((c as u32 % 16) as nat)]
    } else {
        seq![c]
    }
}

/// A whole character sequence as it appears inside a JSON string literal.
pub open spec fn json_escaped(s: Seq<char>) -> Seq<char>
    decreases s.len(),
{
    if s.len() == 0 {
        Seq::empty()
    } else {
        json_escaped_char(s[0]) + json_escaped(s.drop_first())
    }
}

proof fn lemma_json_escaped_snoc(t: Seq<char>, c: char)
    ensures
        json_escaped(t.push(c)) == json_escaped(t) + json_escaped_char(c),
    decreases t.len(),
{
    if t.len() == 0 {
        assert(t.push(c)[0] == c);
        assert(t.push(c).drop_first() =~= Seq::<char>::empty());
        assert(json_escaped(t.push(c)) == json_escaped_char(c) + json_escaped(
            Seq::<char>::empty(),
        ));
        assert(json_escaped(Seq::<char>::empty()) == Seq::<char>::empty());
        assert(json_escaped_char(c) + Seq::<char>::empty() =~= Seq::<char>::empty()
            + json_escaped_char(c));
    } else {
        lemma_json_escaped_snoc(t.drop_first(), c);
        assert(t.push(c)[0] == t[0]);
        assert(t.push(c).drop_first() =~= t.drop_first().push(c));
        assert(json_escaped(t.push(c)) == json_escaped_char(t[0]) + json_escaped(
            t.drop_first().push(c),
        ));
        assert(json_escaped_char(t[0]) + (json_escaped(t.drop_first()) + json_escaped_char(c))
            =~= (json_escaped_char(t[0]) + json_escaped(t.drop_first())) + json_escaped_char(c));
    }
}

fn append_json_escaped_char(out: &mut String, c: char)
    ensures
        final(out)@ == old(out)@ + json_escaped_char(c),
{
    if c == '"' {
        push_char(out, '\\');
        push_char(out, '"');
    } else if c == '\\' {
        push_char(out, '\\');
        push_char(out, '\\');
    } else if c == '\u{8}' {
        push_char(out, '\\');
        push_char(out, 'b');
    } else if c == '\t' {
        push_char(out, '\\');
        push_char(out, 't');
    } else if c == '\n' {
        push_char(out, '\\');
        push_char(out, 'n');
    } else if c == '\u{c}' {
        push_char(out, '\\');
        push_char(out, 'f');
    } else if c == '\r' {
        push_char(out, '\\');
        push_char(out, 'r');
    } else if (c as u32) < 32 {
        let n: u32 = c as u32;
        let hi: u32 = n / 16;
        let lo: u32 = n % 16;
        let hc: char = if hi == 0 {
            '0'
        } else {
            '1'
        };
        let lc: char = if lo == 0 {
            '0'
        } else if lo == 1 {
            '1'
        } else if lo == 2 {
            '2'
        } else if lo == 3 {
            '3'
        } else if lo == 4 {
            '4'
        } else if lo == 5 {
            '5'
        } else if lo == 6 {
            '6'
        } else if lo == 7 {
            '7'
        } else if lo == 8 {
            '8'
        } else if lo == 9 {
            '9'
        } else if lo == 10 {
            'a'
        } else if lo == 11 {
            'b'
        } else if lo == 12 {
            'c'
        } else if lo == 13 {
            'd'
        } else if lo == 14 {
            'e'
        } else {
            'f'
        };
        push_char(out, '\\');
        push_char(out, 'u');
        push_char(out, '0');
        push_char(out, '0');
        push_char(out, hc);
        push_char(out, lc);
        proof {
            assert(hc == hex_digit((c as u32 / 16) as nat));
            assert(lc == hex_digit((c as u32 % 16) as nat));
            assert(final(out)@ =~= old(out)@ + json_escaped_char(c));
        }
    } else {
        push_char(out, c);
    }
    proof {
        assert(final(out)@ =~= old(out)@ + json_escaped_char(c));
    }
}

/// Escapes `s` for inclusion inside a JSON string literal.
pub fn escape_json(s: &str) -> (r: String)
    ensures
        r@ == json_escaped(s@),
{
    let mut out = String::new();
    let n = s.unicode_len();
    let mut i: usize = 0;
    while i < n
        invariant
            n == s@.len(),
            i <= n,
            out@ == json_escaped(s@.subrange(0, i as int)),
        decreases n - i,
    {
        let c = s.get_char(i);
        append_json_escaped_char(&mut out, c);
        proof {
            lemma_json_escaped_snoc(s@.subrange(0, i as int), c);
            assert(s@.subrange(0, i as int).push(c) =~= s@.subrange(0, i + 1 as int));
        }
        i = i + 1;
    }
    proof {
        assert(s@.subrange(0, n as int) =~= s@);
    }
    out
}

} // verus!
