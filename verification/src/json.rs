//! The JSON form of the mapping: one flat object whose members are the
//! committed pairs, written compactly and in the order they are stored.
//! The encoding is defined character by character by the spec functions
//! here, and the executable encoder is proved to produce exactly it.

use vstd::prelude::*;

use crate::app::App;
use crate::chars::push_char;

verus! {

broadcast use vstd::string::axiom_spec_iter;

/// The hexadecimal digit for a value below sixteen.
pub open spec fn hex_digit(n: int) -> char {
    if n == 0 {
        '0'
    } else if n == 1 {
        '1'
    } else if n == 2 {
        '2'
    } else if n == 3 {
        '3'
    } else if n == 4 {
        '4'
    } else if n == 5 {
        '5'
    } else if n == 6 {
        '6'
    } else if n == 7 {
        '7'
    } else if n == 8 {
        '8'
    } else if n == 9 {
        '9'
    } else if n == 10 {
        'a'
    } else if n == 11 {
        'b'
    } else if n == 12 {
        'c'
    } else if n == 13 {
        'd'
    } else if n == 14 {
        'e'
    } else {
        'f'
    }
}

/// How one character appears inside a JSON string literal: quotes and
/// backslashes take an escape, the named control characters take their
/// short escape, the other control characters a `\u00..` escape, and
/// everything else stands as itself.
pub open spec fn escape_char(c: char) -> Seq<char> {
    if c == '"' {
        seq!['\\', '"']
    } else if c == '\\' {
        seq!['\\', '\\']
    } else if c == '\n' {
        seq!['\\', 'n']
    } else if c == '\r' {
        seq!['\\', 'r']
    } else if c == '\t' {
        seq!['\\', 't']
    } else if (c as u32) < 0x20 {
        seq!['\\', 'u', '0', '0', hex_digit((c as u32 / 16) as int), hex_digit((c as u32 % 16) as int)]
    } else {
        seq![c]
    }
}

/// A whole text, escaped.
pub open spec fn escape_seq(s: Seq<char>) -> Seq<char>
    decreases s.len(),
{
    if s.len() == 0 {
        Seq::empty()
    } else {
        escape_seq(s.drop_last()) + escape_char(s.last())
    }
}

/// A JSON string literal: the escaped text between double quotes.
pub open spec fn json_string(s: Seq<char>) -> Seq<char> {
    seq!['"'] + escape_seq(s) + seq!['"']
}

/// The members of the object, `"key":"value"` joined by commas.
pub open spec fn json_members(ps: Seq<(String, String)>) -> Seq<char>
    decreases ps.len(),
{
    if ps.len() == 0 {
        Seq::empty()
    } else if ps.len() == 1 {
        json_string(ps[0].0@) + seq![':'] + json_string(ps[0].1@)
    } else {
        json_members(ps.drop_last()) + seq![','] + json_string(ps.last().0@) + seq![':']
            + json_string(ps.last().1@)
    }
}

/// The whole object: the members between braces.
pub open spec fn json_of(ps: Seq<(String, String)>) -> Seq<char> {
    seq!['{'] + json_members(ps) + seq!['}']
}

/// The hexadecimal digit for a value below sixteen.
fn hex_char(n: u32) -> (r: char)
    requires
        n < 16,
    ensures
        r == hex_digit(n as int),
{
    if n == 0 {
        '0'
    } else if n == 1 {
        '1'
    } else if n == 2 {
        '2'
    } else if n == 3 {
        '3'
    } else if n == 4 {
        '4'
    } else if n == 5 {
        '5'
    } else if n == 6 {
        '6'
    } else if n == 7 {
        '7'
    } else if n == 8 {
        '8'
    } else if n == 9 {
        '9'
    } else if n == 10 {
        'a'
    } else if n == 11 {
        'b'
    } else if n == 12 {
        'c'
    } else if n == 13 {
        'd'
    } else if n == 14 {
        'e'
    } else {
        'f'
    }
}

/// Append the escaped form of one character.
fn push_escaped(out: &mut String, c: char)
    ensures
        final(out)@ == old(out)@ + escape_char(c),
{
    if c == '"' {
        push_char(out, '\\');
        push_char(out, '"');
    } else if c == '\\' {
        push_char(out, '\\');
        push_char(out, '\\');
    } else if c == '\n' {
        push_char(out, '\\');
        push_char(out, 'n');
    } else if c == '\r' {
        push_char(out, '\\');
        push_char(out, 'r');
    } else if c == '\t' {
        push_char(out, '\\');
        push_char(out, 't');
    } else {
        let code: u32 = c as u32;
        if code < 0x20 {
            push_char(out, '\\');
            push_char(out, 'u');
            push_char(out, '0');
            push_char(out, '0');
            push_char(out, hex_char(code / 16));
            push_char(out, hex_char(code % 16));
        } else {
            push_char(out, c);
        }
    }
    proof {
        assert(final(out)@ =~= old(out)@ + escape_char(c));
    }
}

/// Escaping a text one character at a time agrees with escaping it whole.
proof fn lemma_escape_snoc(s: Seq<char>, c: char)
    ensures
        escape_seq(s.push(c)) == escape_seq(s) + escape_char(c),
{
    assert(s.push(c).drop_last() =~= s);
    assert(s.push(c).last() == c);
}

/// Append a JSON string literal holding the text of `s`.
fn push_json_string(out: &mut String, s: &str)
    ensures
        final(out)@ == old(out)@ + json_string(s@),
{
    push_char(out, '"');
    for c in it: s.chars()
        invariant
            out@ == old(out)@ + seq!['"'] + escape_seq(it.seq().subrange(0, it.index() as int)),
            it.seq() == s@,
    {
        proof {
            let done = it.seq().subrange(0, it.index() as int);
            lemma_escape_snoc(done, c);
            assert(it.seq().subrange(0, it.index() + 1 as int) =~= done.push(c));
        }
        push_escaped(out, c);
    }
    proof {
        assert(s@.subrange(0, s@.len() as int) =~= s@);
    }
    push_char(out, '"');
    proof {
        assert(final(out)@ =~= old(out)@ + json_string(s@));
    }
}

impl App {
    /// The committed mapping as one compact JSON object, exactly as
    /// `json_of` spells it: the pairs in stored order, each key and value
    /// a JSON string literal. This same text is handed to the store on
    /// save and to the output channel on export.
    pub fn export_json(&self) -> (r: String)
        ensures
            r@ == json_of(self.pairs@),
    {
        let mut out = String::new();
        push_char(&mut out, '{');
        let n = self.pairs.len();
        let mut i: usize = 0;
        while i < n
            invariant
                n == self.pairs@.len(),
                i <= n,
                out@ == seq!['{'] + json_members(self.pairs@.subrange(0, i as int)),
            decreases n - i,
        {
            if i > 0 {
                push_char(&mut out, ',');
            }
            push_json_string(&mut out, self.pairs[i].0.as_str());
            push_char(&mut out, ':');
            push_json_string(&mut out, self.pairs[i].1.as_str());
            proof {
                let sub1 = self.pairs@.subrange(0, i + 1 as int);
                assert(sub1.drop_last() =~= self.pairs@.subrange(0, i as int));
                assert(sub1.last() == self.pairs@[i as int]);
                if i == 0 {
                    assert(sub1[0] == self.pairs@[0]);
                }
                assert(out@ =~= seq!['{'] + json_members(sub1));
            }
            i = i + 1;
        }
        proof {
            assert(self.pairs@.subrange(0, n as int) =~= self.pairs@);
        }
        push_char(&mut out, '}');
        proof {
            assert(out@ =~= json_of(self.pairs@));
        }
        out
    }
}

} // verus!
