//! How a text is written between the quotes of a string literal, so that the
//! literal denotes the text again.

use vstd::prelude::*;

verus! {

/// How one character is written between quotes: a quote, a backslash and the
/// characters that would end or bend the line go behind a backslash, every
/// other character stands for itself.
pub open spec fn escaped_char(c: char) -> Seq<char> {
    if c == '"' {
        seq!['\\', '"']
    } else if c == '\\' {
        seq!['\\', '\\']
    } else if c == '\n' {
        seq!['\\', 'n']
    } else if c == '\r' {
        seq!['\\', 'r']
    } else if c == '\t' {
        seq!['\\', 't']
    } else if c == '\0' {
        seq!['\\', '0']
    } else {
        seq![c]
    }
}

/// How a text is written between quotes: each character in its escaped form.
pub open spec fn escaped(text: Seq<char>) -> Seq<char>
    decreases text.len(),
{
    if text.len() == 0 {
        Seq::empty()
    } else {
        escaped(text.drop_last()) + escaped_char(text.last())
    }
}

/// The character that stands behind a backslash for `c`.
pub open spec fn escape_meaning(c: char) -> char {
    if c == 'n' {
        '\n'
    } else if c == 'r' {
        '\r'
    } else if c == 't' {
        '\t'
    } else if c == '0' {
        '\0'
    } else {
        c
    }
}

/// The text that is read from what stands between the quotes of a literal: a
/// backslash and the character after it are read as one character.
pub open spec fn denoted(written: Seq<char>) -> Seq<char>
    decreases written.len(),
{
    if written.len() == 0 {
        Seq::empty()
    } else if written[0] == '\\' && written.len() >= 2 {
        seq![escape_meaning(written[1])] + denoted(written.skip(2))
    } else {
        seq![written[0]] + denoted(written.skip(1))
    }
}

/// Whether a character stands for itself between quotes.
pub open spec fn is_plain(c: char) -> bool {
    c != '"' && c != '\\' && c != '\n' && c != '\r' && c != '\t' && c != '\0'
}

/// Whether every quote in `written` stands behind a backslash that escapes
/// it, so that none of them ends the literal.
pub open spec fn holds_no_bare_quote(written: Seq<char>) -> bool
    decreases written.len(),
{
    if written.len() == 0 {
        true
    } else if written[0] == '\\' && written.len() >= 2 {
        holds_no_bare_quote(written.skip(2))
    } else {
        written[0] != '"' && written[0] != '\\' && holds_no_bare_quote(written.skip(1))
    }
}

/// A text is escaped piece by piece.
pub proof fn lemma_escaped_concat(first: Seq<char>, second: Seq<char>)
    ensures
        escaped(first + second) == escaped(first) + escaped(second),
    decreases second.len(),
{
    if second.len() == 0 {
        assert(first + second =~= first);
        assert(escaped(first) + escaped(second) =~= escaped(first));
    } else {
        assert((first + second).drop_last() =~= first + second.drop_last());
        lemma_escaped_concat(first, second.drop_last());
        assert(escaped(first + second) =~= escaped(first) + escaped(second));
    }
}

/// The escaped form of a text starts with that of its first character.
pub proof fn lemma_escaped_first(text: Seq<char>)
    requires
        text.len() > 0,
    ensures
        escaped(text) == escaped_char(text[0]) + escaped(text.skip(1)),
{
    let first = seq![text[0]];
    assert(text =~= first + text.skip(1));
    lemma_escaped_concat(first, text.skip(1));
    assert(first.drop_last() =~= Seq::<char>::empty());
    assert(escaped(first.drop_last()) =~= Seq::<char>::empty());
    assert(escaped(first) =~= escaped_char(text[0]));
}

/// What is written for a text is read as that text again, and none of its
/// quotes ends the literal.
pub proof fn lemma_escaped_reads_back(text: Seq<char>)
    ensures
        denoted(escaped(text)) == text,
        holds_no_bare_quote(escaped(text)),
    decreases text.len(),
{
    if text.len() > 0 {
        let c = text[0];
        let rest = text.skip(1);
        lemma_escaped_first(text);
        lemma_escaped_reads_back(rest);
        let written = escaped_char(c) + escaped(rest);
        if is_plain(c) {
            assert(written.skip(1) =~= escaped(rest));
            assert(text =~= seq![c] + rest);
        } else {
            assert(written.skip(2) =~= escaped(rest));
            assert(escape_meaning(written[1]) == c);
            assert(text =~= seq![c] + rest);
        }
    }
}

/// A text of plain characters is written as it is.
pub proof fn lemma_plain_is_unchanged(text: Seq<char>)
    requires
        forall|i: int| 0 <= i < text.len() ==> is_plain(#[trigger] text[i]),
    ensures
        escaped(text) == text,
    decreases text.len(),
{
    if text.len() > 0 {
        lemma_plain_is_unchanged(text.drop_last());
        assert(escaped(text) =~= text);
    }
}

/// Writes `text` as it stands between the quotes of a string literal.
pub fn escape(text: &str) -> (written: String)
    ensures
        written@ == escaped(text@),
{
    let len = text.unicode_len();
    let mut written = String::new();
    let mut i: usize = 0;
    while i < len
        invariant
            i <= len,
            len == text@.len(),
            written@ == escaped(text@.take(i as int)),
        decreases len - i,
    {
        let c = text.get_char(i);
        let ghost before = written@;
        proof {
            reveal_strlit("\\\"");
            reveal_strlit("\\\\");
            reveal_strlit("\\n");
            reveal_strlit("\\r");
            reveal_strlit("\\t");
            reveal_strlit("\\0");
        }
        assert(text@.take(i + 1).drop_last() =~= text@.take(i as int));
        assert(text@.take(i + 1).last() == c);
        if c == '"' {
            assert("\\\""@ =~= escaped_char(c));
            written.append("\\\"");
        } else if c == '\\' {
            assert("\\\\"@ =~= escaped_char(c));
            written.append("\\\\");
        } else if c == '\n' {
            assert("\\n"@ =~= escaped_char(c));
            written.append("\\n");
        } else if c == '\r' {
            assert("\\r"@ =~= escaped_char(c));
            written.append("\\r");
        } else if c == '\t' {
            assert("\\t"@ =~= escaped_char(c));
            written.append("\\t");
        } else if c == '\0' {
            assert("\\0"@ =~= escaped_char(c));
            written.append("\\0");
        } else {
            let one = text.substring_char(i, i + 1);
            assert(one@ =~= seq![c]);
            written.append(one);
        }
        assert(written@ =~= before + escaped_char(c));
        i += 1;
    }
    assert(text@.take(i as int) =~= text@);
    written
}

} // verus!
