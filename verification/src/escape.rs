//! How text from data is escaped when a document is written out, as
//! character data and as the value of an attribute, and what a parser reads
//! out of escaped text.

use vstd::prelude::*;

verus! {

/// The entity that stands for `&`.
pub open spec fn amp_entity() -> Seq<char> {
    seq!['&', 'a', 'm', 'p', ';']
}

/// The entity that stands for `<`.
pub open spec fn lt_entity() -> Seq<char> {
    seq!['&', 'l', 't', ';']
}

/// The entity that stands for `>`.
pub open spec fn gt_entity() -> Seq<char> {
    seq!['&', 'g', 't', ';']
}

/// The entity that stands for `"`.
pub open spec fn quot_entity() -> Seq<char> {
    seq!['&', 'q', 'u', 'o', 't', ';']
}

/// What one character of text becomes in markup.
pub open spec fn escape_char(c: char) -> Seq<char> {
    if c == '&' {
        amp_entity()
    } else if c == '<' {
        lt_entity()
    } else if c == '>' {
        gt_entity()
    } else {
        seq![c]
    }
}

/// What text becomes in markup: `&`, `<` and `>` are replaced by their
/// entities, and every other character stays.
pub open spec fn escape_text(s: Seq<char>) -> Seq<char>
    decreases s.len(),
{
    if s.len() == 0 {
        Seq::empty()
    } else {
        escape_char(s[0]) + escape_text(s.skip(1))
    }
}

/// What one character of an attribute's value becomes between the double
/// quotes of a start tag.
pub open spec fn escape_value_char(c: char) -> Seq<char> {
    if c == '"' {
        quot_entity()
    } else {
        escape_char(c)
    }
}

/// What the value of an attribute becomes between the double quotes of a
/// start tag: `&`, `<`, `>` and `"` are replaced by their entities, and
/// every other character stays.
pub open spec fn escape_value(s: Seq<char>) -> Seq<char>
    decreases s.len(),
{
    if s.len() == 0 {
        Seq::empty()
    } else {
        escape_value_char(s[0]) + escape_value(s.skip(1))
    }
}

/// What a markup parser reads out of escaped text or an escaped value: each
/// of the four entities gives its character, and every other character
/// stands for itself.
pub open spec fn unescape_text(s: Seq<char>) -> Seq<char>
    decreases s.len(),
{
    if s.len() == 0 {
        Seq::empty()
    } else if amp_entity().is_prefix_of(s) {
        seq!['&'] + unescape_text(s.skip(5))
    } else if lt_entity().is_prefix_of(s) {
        seq!['<'] + unescape_text(s.skip(4))
    } else if gt_entity().is_prefix_of(s) {
        seq!['>'] + unescape_text(s.skip(4))
    } else if quot_entity().is_prefix_of(s) {
        seq!['"'] + unescape_text(s.skip(6))
    } else {
        seq![s[0]] + unescape_text(s.skip(1))
    }
}

/// Whether `s` holds a character that opens or closes a tag.
pub open spec fn has_tag_delimiter(s: Seq<char>) -> bool {
    exists|i: int| 0 <= i < s.len() && (s[i] == '<' || s[i] == '>')
}

/// Escaping is undone by parsing: the text that a parser reads out of
/// escaped text is the text that was escaped, character for character, and
/// escaped text holds nothing that a parser could take for a tag.
pub proof fn lemma_escape_round_trip(s: Seq<char>)
    ensures
        unescape_text(escape_text(s)) == s,
        !has_tag_delimiter(escape_text(s)),
    decreases s.len(),
{
    if s.len() > 0 {
        let c = s[0];
        let head = escape_char(c);
        let tail = escape_text(s.skip(1));
        let all = head + tail;
        lemma_escape_round_trip(s.skip(1));
        assert(all.skip(head.len() as int) =~= tail);
        assert(amp_entity().is_prefix_of(all) <==> c == '&');
        assert(lt_entity().is_prefix_of(all) <==> c == '<');
        assert(gt_entity().is_prefix_of(all) <==> c == '>');
        assert(!quot_entity().is_prefix_of(all));
        assert forall|i: int| 0 <= i < all.len() implies all[i] != '<' && all[i] != '>' by {
            if i >= head.len() {
                assert(all[i] == tail[i - head.len()]);
            }
        }
    }
}

/// Whether `s` holds a double quote or a character that opens or closes a
/// tag: what would end an attribute's value before its end.
pub open spec fn has_value_delimiter(s: Seq<char>) -> bool {
    exists|i: int| 0 <= i < s.len() && (s[i] == '"' || s[i] == '<' || s[i] == '>')
}

/// An escaped value stays between its quotes: it holds no double quote and
/// nothing that a parser could take for a tag, and what a parser reads out
/// of it is the value, character for character.
pub proof fn lemma_value_round_trip(s: Seq<char>)
    ensures
        unescape_text(escape_value(s)) == s,
        !has_value_delimiter(escape_value(s)),
    decreases s.len(),
{
    if s.len() > 0 {
        let c = s[0];
        let head = escape_value_char(c);
        let tail = escape_value(s.skip(1));
        let all = head + tail;
        lemma_value_round_trip(s.skip(1));
        assert(all.skip(head.len() as int) =~= tail);
        assert(amp_entity().is_prefix_of(all) <==> c == '&');
        assert(lt_entity().is_prefix_of(all) <==> c == '<');
        assert(gt_entity().is_prefix_of(all) <==> c == '>');
        assert(quot_entity().is_prefix_of(all) <==> c == '"');
        assert forall|i: int| 0 <= i < all.len() implies all[i] != '"' && all[i] != '<' && all[i]
            != '>' by {
            if i >= head.len() {
                assert(all[i] == tail[i - head.len()]);
            }
        }
        assert(seq![c] + s.skip(1) =~= s);
    }
}

/// Escaping a value piece by piece gives the escaped whole.
pub proof fn lemma_escape_value_concat(a: Seq<char>, b: Seq<char>)
    ensures
        escape_value(a + b) == escape_value(a) + escape_value(b),
    decreases a.len(),
{
    if a.len() == 0 {
        assert(a + b =~= b);
    } else {
        lemma_escape_value_concat(a.skip(1), b);
        assert((a + b).skip(1) =~= a.skip(1) + b);
    }
}

/// Whether `s` holds none of the four characters that the escaping of a
/// value replaces.
pub open spec fn is_plain_value(s: Seq<char>) -> bool {
    forall|i: int| 0 <= i < s.len() ==> s[i] != '&' && s[i] != '<' && s[i] != '>' && s[i] != '"'
}

/// A value without any of the four characters stands between its quotes as
/// it is.
pub proof fn lemma_escape_plain_value(s: Seq<char>)
    requires
        is_plain_value(s),
    ensures
        escape_value(s) == s,
    decreases s.len(),
{
    if s.len() > 0 {
        assert(is_plain_value(s.skip(1)));
        lemma_escape_plain_value(s.skip(1));
        assert(seq![s[0]] + s.skip(1) =~= s);
    }
}

/// Escapes the value of an attribute for its place between double quotes.
pub fn escape_value_string(value: &str) -> (out: String)
    ensures
        out@ == escape_value(value@),
{
    let n: usize = value.unicode_len();
    let mut out = String::new();
    let mut i: usize = 0;
    while i < n
        invariant
            i <= n,
            n == value@.len(),
            out@ == escape_value(value@.take(i as int)),
        decreases n - i,
    {
        let c = value.get_char(i);
        proof {
            reveal_strlit("&amp;");
            reveal_strlit("&lt;");
            reveal_strlit("&gt;");
            reveal_strlit("&quot;");
        }
        let piece = if c == '&' {
            "&amp;"
        } else if c == '<' {
            "&lt;"
        } else if c == '>' {
            "&gt;"
        } else if c == '"' {
            "&quot;"
        } else {
            value.substring_char(i, i + 1)
        };
        out.append(piece);
        proof {
            let one = seq![c];
            assert(piece@ =~= escape_value_char(c));
            assert(escape_value(one) =~= escape_value_char(c)) by {
                assert(one.skip(1) =~= Seq::<char>::empty());
                reveal_with_fuel(escape_value, 2);
            }
            assert(value@.take(i as int + 1) =~= value@.take(i as int) + one);
            lemma_escape_value_concat(value@.take(i as int), one);
        }
        i = i + 1;
    }
    assert(value@.take(i as int) =~= value@);
    out
}

/// Whether one of the four entities starts at place `i` of `s`.
pub open spec fn starts_entity(s: Seq<char>, i: int) -> bool {
    ||| amp_entity().is_prefix_of(s.skip(i))
    ||| lt_entity().is_prefix_of(s.skip(i))
    ||| gt_entity().is_prefix_of(s.skip(i))
    ||| quot_entity().is_prefix_of(s.skip(i))
}

/// Every `&` of escaped text starts one of the entities that the escaping
/// writes: a parser that knows more entities than these finds no other in
/// it.
pub proof fn lemma_escaped_ampersands(s: Seq<char>)
    ensures
        forall|i: int|
            0 <= i < escape_text(s).len() && escape_text(s)[i] == '&' ==> starts_entity(
                escape_text(s),
                i,
            ),
    decreases s.len(),
{
    if s.len() > 0 {
        let head = escape_char(s[0]);
        let tail = escape_text(s.skip(1));
        let all = head + tail;
        lemma_escaped_ampersands(s.skip(1));
        assert forall|i: int| 0 <= i < all.len() && all[i] == '&' implies starts_entity(all, i) by {
            if i < head.len() {
                assert(i == 0 && head.is_prefix_of(all));
                assert(all.skip(0) =~= all);
            } else {
                assert(all.skip(i) =~= tail.skip(i - head.len()));
                assert(starts_entity(tail, i - head.len()));
            }
        }
    }
}

/// Every `&` of an escaped value starts one of the entities that the
/// escaping writes.
pub proof fn lemma_escaped_value_ampersands(s: Seq<char>)
    ensures
        forall|i: int|
            0 <= i < escape_value(s).len() && escape_value(s)[i] == '&' ==> starts_entity(
                escape_value(s),
                i,
            ),
    decreases s.len(),
{
    if s.len() > 0 {
        let head = escape_value_char(s[0]);
        let tail = escape_value(s.skip(1));
        let all = head + tail;
        lemma_escaped_value_ampersands(s.skip(1));
        assert forall|i: int| 0 <= i < all.len() && all[i] == '&' implies starts_entity(all, i) by {
            if i < head.len() {
                assert(i == 0 && head.is_prefix_of(all));
                assert(all.skip(0) =~= all);
            } else {
                assert(all.skip(i) =~= tail.skip(i - head.len()));
                assert(starts_entity(tail, i - head.len()));
            }
        }
    }
}

/// Whether `s` holds none of the three characters that escaping replaces.
pub open spec fn is_plain(s: Seq<char>) -> bool {
    forall|i: int| 0 <= i < s.len() ==> s[i] != '&' && s[i] != '<' && s[i] != '>'
}

/// Text without any of the three characters is written out as it stands.
pub proof fn lemma_escape_plain(s: Seq<char>)
    requires
        is_plain(s),
    ensures
        escape_text(s) == s,
    decreases s.len(),
{
    if s.len() > 0 {
        assert(is_plain(s.skip(1)));
        lemma_escape_plain(s.skip(1));
        assert(seq![s[0]] + s.skip(1) =~= s);
    }
}

} // verus!
