//! JSON text as serde_json writes it: how a string is quoted, and the facts
//! about line feeds that keep each JSON-RPC message on a single line.

use vstd::prelude::*;

verus! {

/// The lower-case hexadecimal digit for `n` in `0..16`.
pub open spec fn hex_lower(n: int) -> char {
    if n < 10 {
        (48 + n) as char
    } else {
        (87 + n) as char
    }
}

/// How serde_json writes one character inside a JSON string.
pub open spec fn json_escape(c: char) -> Seq<char> {
    if c == '"' {
        seq!['\\', '"']
    } else if c == '\\' {
        seq!['\\', '\\']
    } else if c == '\u{8}' {
        seq!['\\', 'b']
    } else if c == '\t' {
        seq!['\\', 't']
    } else if c == '\n' {
        seq!['\\', 'n']
    } else if c == '\u{c}' {
        seq!['\\', 'f']
    } else if c == '\r' {
        seq!['\\', 'r']
    } else if (c as u32) < 0x20 {
        seq!['\\', 'u', '0', '0', hex_lower((c as u32) as int / 16), hex_lower((c as u32) as int % 16)]
    } else {
        seq![c]
    }
}

/// The escaped contents of a JSON string.
pub open spec fn json_escaped(s: Seq<char>) -> Seq<char>
    decreases s.len(),
{
    if s.len() == 0 {
        Seq::empty()
    } else {
        json_escaped(s.drop_last()) + json_escape(s.last())
    }
}

/// `s` as a JSON string literal, quotes included.
pub open spec fn json_quoted(s: Seq<char>) -> Seq<char> {
    seq!['"'] + json_escaped(s) + seq!['"']
}

/// `s` holds no line feed.
pub open spec fn no_newline(s: Seq<char>) -> bool {
    forall|i: int| 0 <= i < s.len() ==> s[i] != '\n'
}

/// `s` is one line of output: it ends with its only line feed.
pub open spec fn one_line(s: Seq<char>) -> bool {
    s.len() > 0 && s.last() == '\n' && no_newline(s.drop_last())
}

/// A concatenation holds no line feed when neither part does.
pub proof fn lemma_no_newline_concat(a: Seq<char>, b: Seq<char>)
    requires
        no_newline(a),
        no_newline(b),
    ensures
        no_newline(a + b),
{
    assert forall|i: int| 0 <= i < (a + b).len() implies (a + b)[i] != '\n' by {
        if i < a.len() {
            assert((a + b)[i] == a[i]);
        } else {
            assert((a + b)[i] == b[i - a.len()]);
        }
    }
}

/// A text followed by a line feed is one line when the text holds none.
pub proof fn lemma_one_line(a: Seq<char>, nl: Seq<char>)
    requires
        no_newline(a),
        nl == seq!['\n'],
    ensures
        one_line(a + nl),
{
    assert((a + nl).drop_last() =~= a);
}

/// Quoting escapes every line feed, so a JSON string never spans lines.
pub proof fn lemma_quoted_no_newline(s: Seq<char>)
    ensures
        no_newline(json_escaped(s)),
        no_newline(json_quoted(s)),
    decreases s.len(),
{
    if s.len() > 0 {
        lemma_quoted_no_newline(s.drop_last());
        let c = s.last();
        let e = json_escape(c);
        assert(no_newline(e)) by {
            if (c as u32) < 0x20 && c != '\u{8}' && c != '\t' && c != '\n' && c != '\u{c}' && c
                != '\r' {
                let u = c as u32;
                assert(u / 16 < 2);
                assert(hex_lower(u as int / 16) != '\n');
                assert(hex_lower(u as int % 16) != '\n');
            }
        }
        lemma_no_newline_concat(json_escaped(s.drop_last()), e);
    }
    lemma_no_newline_concat(seq!['"'], json_escaped(s));
    lemma_no_newline_concat(seq!['"'] + json_escaped(s), seq!['"']);
}

} // verus!
