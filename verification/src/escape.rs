//! XML attribute-value escaping: the seven characters that may not stand raw
//! inside a double-quoted attribute value are replaced by entities, so that
//! the metadata document can be embedded as text inside the outer control
//! payload and recovered unchanged when that payload is parsed.

use vstd::prelude::*;

verus! {

/// The entity (or the character itself) that stands for one character inside
/// an escaped attribute value.
pub open spec fn escape_char(c: char) -> Seq<char> {
    if c == '<' {
        seq!['&', 'l', 't', ';']
    } else if c == '>' {
        seq!['&', 'g', 't', ';']
    } else if c == '"' {
        seq!['&', 'q', 'u', 'o', 't', ';']
    } else if c == '\'' {
        seq!['&', 'a', 'p', 'o', 's', ';']
    } else if c == '&' {
        seq!['&', 'a', 'm', 'p', ';']
    } else if c == '\n' {
        seq!['&', '#', 'x', 'A', ';']
    } else if c == '\r' {
        seq!['&', '#', 'x', 'D', ';']
    } else {
        seq![c]
    }
}

/// The attribute-escaped form of a string: each character replaced by
/// `escape_char` of it.
pub open spec fn escape_attr(s: Seq<char>) -> Seq<char>
    decreases s.len(),
{
    if s.len() == 0 {
        Seq::empty()
    } else {
        escape_char(s[0]) + escape_attr(s.drop_first())
    }
}

/// What an XML parser makes of an attribute value: each of the seven entities
/// is read back as its character, anything else is kept as it stands.
pub open spec fn unescape_attr(s: Seq<char>) -> Seq<char>
    decreases s.len(),
{
    if s.len() == 0 {
        Seq::empty()
    } else if s.len() >= 4 && s.take(4) == seq!['&', 'l', 't', ';'] {
        seq!['<'] + unescape_attr(s.skip(4))
    } else if s.len() >= 4 && s.take(4) == seq!['&', 'g', 't', ';'] {
        seq!['>'] + unescape_attr(s.skip(4))
    } else if s.len() >= 6 && s.take(6) == seq!['&', 'q', 'u', 'o', 't', ';'] {
        seq!['"'] + unescape_attr(s.skip(6))
    } else if s.len() >= 6 && s.take(6) == seq!['&', 'a', 'p', 'o', 's', ';'] {
        seq!['\''] + unescape_attr(s.skip(6))
    } else if s.len() >= 5 && s.take(5) == seq!['&', 'a', 'm', 'p', ';'] {
        seq!['&'] + unescape_attr(s.skip(5))
    } else if s.len() >= 5 && s.take(5) == seq!['&', '#', 'x', 'A', ';'] {
        seq!['\n'] + unescape_attr(s.skip(5))
    } else if s.len() >= 5 && s.take(5) == seq!['&', '#', 'x', 'D', ';'] {
        seq!['\r'] + unescape_attr(s.skip(5))
    } else {
        seq![s[0]] + unescape_attr(s.drop_first())
    }
}

/// Relies on xml's `escape_str_attribute`: it replaces `<` `>` `"` `'` `&`
/// and the two line-break characters by their entities and keeps every other
/// character; the bytes of a multi-byte character are never replaced, so the
/// substitution is exactly `escape_char` applied character by character.
#[verifier::external_body]
pub(crate) fn escape_attribute(s: &str) -> (r: String)
    ensures
        r@ == escape_attr(s@),
{
    xml::escape::escape_str_attribute(s).into_owned()
}

/// No raw special character survives escaping: the escaped form never holds
/// `<`, `>`, `"`, `'` or a line break, so it is safe to embed between double
/// quotes inside another XML document.
pub proof fn lemma_escape_attr_safe(s: Seq<char>)
    ensures
        forall|i: int|
            0 <= i < escape_attr(s).len() ==> {
                let c = #[trigger] escape_attr(s)[i];
                c != '<' && c != '>' && c != '"' && c != '\'' && c != '\n' && c != '\r'
            },
    decreases s.len(),
{
    if s.len() > 0 {
        lemma_escape_attr_safe(s.drop_first());
        let head = escape_char(s[0]);
        let rest = escape_attr(s.drop_first());
        assert forall|i: int| 0 <= i < escape_attr(s).len() implies {
            let c = #[trigger] escape_attr(s)[i];
            c != '<' && c != '>' && c != '"' && c != '\'' && c != '\n' && c != '\r'
        } by {
            if i < head.len() {
                assert(escape_attr(s)[i] == head[i]);
            } else {
                assert(escape_attr(s)[i] == rest[i - head.len()]);
            }
        }
    }
}

/// Round trip: parsing the escaped attribute value yields back the original
/// string, character for character.
pub proof fn lemma_escape_attr_round_trip(s: Seq<char>)
    ensures
        unescape_attr(escape_attr(s)) == s,
    decreases s.len(),
{
    if s.len() == 0 {
        assert(unescape_attr(escape_attr(s)) =~= s);
    } else {
        let c = s[0];
        let rest = s.drop_first();
        lemma_escape_attr_round_trip(rest);
        let e = escape_attr(s);
        assert(e == escape_char(c) + escape_attr(rest));
        lemma_unescape_step(c, escape_attr(rest));
        assert(unescape_attr(e) == seq![c] + unescape_attr(escape_attr(rest)));
        assert(seq![c] + rest =~= s);
    }
}

/// One step of the round trip: with a single escaped character in front, the
/// parser consumes exactly that entity (or bare character) and goes on.
proof fn lemma_unescape_step(c: char, tail: Seq<char>)
    ensures
        unescape_attr(escape_char(c) + tail) == seq![c] + unescape_attr(tail),
{
    let e = escape_char(c) + tail;
    if c == '<' || c == '>' {
        assert(e.len() >= 4);
        assert(e.take(4) =~= escape_char(c));
        assert(e.skip(4) =~= tail);
    } else if c == '"' || c == '\'' {
        assert(e.len() >= 6);
        assert(e.take(6) =~= escape_char(c));
        assert(e.skip(6) =~= tail);
        assert(e[1] != 'l' && e[1] != 'g');
        assert(e.take(4) != seq!['&', 'l', 't', ';'] && e.take(4) != seq!['&', 'g', 't', ';'])
            by {
            assert(e.take(4)[1] == e[1]);
        }
    } else if c == '&' || c == '\n' || c == '\r' {
        assert(e.len() >= 5);
        assert(e.take(5) =~= escape_char(c));
        assert(e.skip(5) =~= tail);
        assert(e.take(4) != seq!['&', 'l', 't', ';'] && e.take(4) != seq!['&', 'g', 't', ';'])
            by {
            assert(e.take(4)[1] == e[1]);
        }
        if e.len() >= 6 {
            assert(e.take(6) != seq!['&', 'q', 'u', 'o', 't', ';'] && e.take(6) != seq![
                '&',
                'a',
                'p',
                'o',
                's',
                ';',
            ]) by {
                assert(e.take(6)[2] == e[2]);
                if c == '&' {
                    assert(e[2] == 'm');
                } else {
                    assert(e[2] == 'x');
                }
            }
        }
        if c == '&' {
            assert(e.take(5) == seq!['&', 'a', 'm', 'p', ';']) by {
                assert(e.take(5) =~= escape_char(c));
            }
        } else {
            assert(e.take(5) != seq!['&', 'a', 'm', 'p', ';']) by {
                assert(e.take(5)[1] == e[1] && e[1] == '#');
            }
        }
    } else {
        // An ordinary character passes through; no entity can start here
        // because every entity starts with `&` and c is not `&`.
        assert(e[0] == c);
        if e.len() >= 4 {
            assert(e.take(4)[0] == c);
        }
        if e.len() >= 5 {
            assert(e.take(5)[0] == c);
        }
        if e.len() >= 6 {
            assert(e.take(6)[0] == c);
        }
        assert(e.drop_first() =~= tail);
        assert(seq![e[0]] + unescape_attr(e.drop_first()) =~= seq![c] + unescape_attr(tail));
    }
}

} // verus!
