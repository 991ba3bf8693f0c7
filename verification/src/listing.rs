//! Reading the text that version and package probes print.

use vstd::prelude::*;
use vstd::string::{StrSliceExecFns, StringExecFns};

verus! {

/// Whether `c` is white space: one of the characters to which Unicode
/// gives the property White_Space. They are the tab, the line feed, the
/// vertical tab, the form feed, the carriage return and the space; the next
/// line character and the no-break space; and the spaces and separators
/// U+1680, U+2000 to U+200A, U+2028, U+2029, U+202F, U+205F and U+3000.
pub open spec fn white_space(c: char) -> bool {
    let code: u32 = c as u32;
    ||| 0x0009 <= code <= 0x000D
    ||| code == 0x0020
    ||| code == 0x0085
    ||| code == 0x00A0
    ||| code == 0x1680
    ||| 0x2000 <= code <= 0x200A
    ||| code == 0x2028
    ||| code == 0x2029
    ||| code == 0x202F
    ||| code == 0x205F
    ||| code == 0x3000
}

/// `char::is_whitespace` of std: it is true of the characters that have
/// the Unicode property White_Space, which are those of [`white_space`],
/// and of no other.
pub assume_specification[ char::is_whitespace ](c: char) -> (answer: bool)
    ensures
        answer == white_space(c),
;

/// `text` without the white space at its end.
pub open spec fn trimmed_end(text: Seq<char>) -> Seq<char>
    decreases text.len(),
{
    if text.len() > 0 && white_space(text.last()) {
        trimmed_end(text.drop_last())
    } else {
        text
    }
}

/// The characters of `text`, in order.
pub fn characters(text: &str) -> (list: Vec<char>)
    ensures
        list@ == text@,
{
    let mut list: Vec<char> = Vec::new();
    for c in it: text.chars()
        invariant
            it.seq() == text@,
            list@ == text@.take(it.index()),
    {
        assert(text@.take(it.index() + 1) =~= text@.take(it.index()).push(c));
        list.push(c);
    }
    assert(text@.take(text@.len() as int) =~= text@);
    list
}

/// How many characters stand before the first white space of `text`.
pub open spec fn word_length(text: Seq<char>) -> nat
    decreases text.len(),
{
    if text.len() == 0 || white_space(text[0]) {
        0
    } else {
        1 + word_length(text.skip(1))
    }
}

/// The words of `text`: its longest runs of characters that are not white
/// space, in order.
pub open spec fn words(text: Seq<char>) -> Seq<Seq<char>>
    decreases text.len(),
{
    if text.len() == 0 {
        Seq::empty()
    } else if white_space(text[0]) {
        words(text.skip(1))
    } else {
        proof {
            lemma_word_length_bounds(text);
        }
        seq![text.take(word_length(text) as int)] + words(text.skip(word_length(text) as int))
    }
}

/// `text` with its words kept and every stretch of white space between
/// two of them turned into one space.
pub open spec fn squeezed(text: Seq<char>) -> Seq<char> {
    crate::text::joined(words(text), " "@)
}

/// A word is no longer than the text it starts.
pub proof fn lemma_word_length_bounds(text: Seq<char>)
    ensures
        word_length(text) <= text.len(),
        text.len() > 0 && !white_space(text[0]) ==> word_length(text) >= 1,
    decreases text.len(),
{
    if text.len() > 0 && !white_space(text[0]) {
        lemma_word_length_bounds(text.skip(1));
    }
}

/// Where the word that starts at `from` stops.
fn word_stop(chars: &Vec<char>, from: usize) -> (stop: usize)
    requires
        from <= chars.len(),
    ensures
        from <= stop <= chars.len(),
        stop - from == word_length(chars@.skip(from as int)),
{
    let mut stop: usize = from;
    while stop < chars.len() && !chars[stop].is_whitespace()
        invariant
            from <= stop <= chars.len(),
            word_length(chars@.skip(from as int)) == (stop - from) + word_length(
                chars@.skip(stop as int),
            ),
        decreases chars.len() - stop,
    {
        assert(chars@.skip(stop as int).skip(1) =~= chars@.skip(stop + 1));
        stop += 1;
    }
    stop
}

/// The words of `text`, in order.
pub fn split_words<'a>(text: &'a str) -> (list: Vec<&'a str>)
    ensures
        list.deep_view() == words(text@),
{
    let chars = characters(text);
    let mut list: Vec<&'a str> = Vec::new();
    let mut at: usize = 0;
    assert(chars@.skip(0) =~= chars@);
    assert(list.deep_view() + words(chars@) =~= words(chars@));
    while at < chars.len()
        invariant
            at <= chars.len(),
            chars@ == text@,
            list.deep_view() + words(chars@.skip(at as int)) == words(chars@),
        decreases chars.len() - at,
    {
        let ghost rest = chars@.skip(at as int);
        let ghost found = list.deep_view();
        if chars[at].is_whitespace() {
            assert(rest.skip(1) =~= chars@.skip(at + 1));
            at += 1;
        } else {
            let stop: usize = word_stop(&chars, at);
            proof {
                lemma_word_length_bounds(rest);
                assert(rest.take(stop - at) =~= text@.subrange(at as int, stop as int));
                assert(rest.skip(stop - at) =~= chars@.skip(stop as int));
            }
            let word = text.substring_char(at, stop);
            list.push(word);
            assert(list.deep_view() =~= found.push(word@));
            assert(found.push(word@) + words(chars@.skip(stop as int)) =~= found + words(rest));
            at = stop;
        }
    }
    assert(list.deep_view() + Seq::<Seq<char>>::empty() =~= list.deep_view());
    list
}

/// `text` with its words kept and every stretch of white space between
/// two of them turned into one space; none is left at either end.
pub fn squeeze(text: &str) -> (squeezed_text: String)
    ensures
        squeezed_text@ == squeezed(text@),
{
    let list = split_words(text);
    crate::text::join(&list, " ")
}

/// How many characters of `chars` are left when the white space at its end
/// is taken away.
fn trimmed_length(chars: &Vec<char>) -> (length: usize)
    ensures
        length <= chars.len(),
        chars@.take(length as int) == trimmed_end(chars@),
{
    let mut length: usize = chars.len();
    assert(chars@.take(length as int) =~= chars@);
    while length > 0 && chars[length - 1].is_whitespace()
        invariant
            length <= chars.len(),
            trimmed_end(chars@.take(length as int)) == trimmed_end(chars@),
        decreases length,
    {
        assert(chars@.take(length as int).drop_last() =~= chars@.take(length - 1));
        length -= 1;
    }
    length
}

/// `text` without the white space at its end.
pub fn trim_end(text: &str) -> (trimmed: String)
    ensures
        trimmed@ == trimmed_end(text@),
{
    let chars = characters(text);
    let length: usize = trimmed_length(&chars);
    assert(text@.subrange(0, length as int) =~= chars@.take(length as int));
    String::from_str(text.substring_char(0, length))
}

/// How many characters stand before the first line feed of `text`.
pub open spec fn line_length(text: Seq<char>) -> nat
    decreases text.len(),
{
    if text.len() == 0 || text[0] == '\n' {
        0
    } else {
        1 + line_length(text.skip(1))
    }
}

/// `line` without the carriage return at its end, if it has one.
pub open spec fn without_return(line: Seq<char>) -> Seq<char> {
    if line.len() > 0 && line.last() == '\r' {
        line.drop_last()
    } else {
        line
    }
}

/// The lines of `text`. A line ends at a line feed, or at a carriage
/// return followed by one; neither is part of the line. The last line needs
/// no ending, and then keeps every character it has.
pub open spec fn lines(text: Seq<char>) -> Seq<Seq<char>>
    decreases text.len(),
{
    if text.len() == 0 {
        Seq::empty()
    } else {
        proof {
            lemma_line_length_bounds(text);
        }
        let length: int = line_length(text) as int;
        if length == text.len() {
            seq![text]
        } else {
            seq![without_return(text.take(length))] + lines(text.skip(length + 1))
        }
    }
}

/// Whether `line` is the entry of `name` in a listing: its first word is
/// `name`, the whole of it.
pub open spec fn entry_of(line: Seq<char>, name: Seq<char>) -> bool {
    words(line).len() > 0 && words(line)[0] == name
}

/// The first of `lines` that is the entry of `name`.
pub open spec fn first_entry(lines: Seq<Seq<char>>, name: Seq<char>) -> Option<Seq<char>>
    decreases lines.len(),
{
    if lines.len() == 0 {
        None
    } else if entry_of(lines[0], name) {
        Some(lines[0])
    } else {
        first_entry(lines.skip(1), name)
    }
}

/// A line is no longer than the text it starts.
pub proof fn lemma_line_length_bounds(text: Seq<char>)
    ensures
        line_length(text) <= text.len(),
    decreases text.len(),
{
    if text.len() > 0 && text[0] != '\n' {
        lemma_line_length_bounds(text.skip(1));
    }
}

/// Where the line that starts at `from` stops: at its line feed, or at the
/// end of the text.
fn line_stop(chars: &Vec<char>, from: usize) -> (stop: usize)
    requires
        from <= chars.len(),
    ensures
        from <= stop <= chars.len(),
        stop - from == line_length(chars@.skip(from as int)),
{
    let mut stop: usize = from;
    while stop < chars.len() && chars[stop] != '\n'
        invariant
            from <= stop <= chars.len(),
            line_length(chars@.skip(from as int)) == (stop - from) + line_length(
                chars@.skip(stop as int),
            ),
        decreases chars.len() - stop,
    {
        assert(chars@.skip(stop as int).skip(1) =~= chars@.skip(stop + 1));
        stop += 1;
    }
    stop
}

/// The lines of `text`, in order.
pub fn split_lines<'a>(text: &'a str) -> (list: Vec<&'a str>)
    ensures
        list.deep_view() == lines(text@),
{
    let chars = characters(text);
    let mut list: Vec<&'a str> = Vec::new();
    let mut at: usize = 0;
    assert(chars@.skip(0) =~= chars@);
    assert(list.deep_view() + lines(chars@) =~= lines(chars@));
    while at < chars.len()
        invariant
            at <= chars.len(),
            chars@ == text@,
            list.deep_view() + lines(chars@.skip(at as int)) == lines(chars@),
        decreases chars.len() - at,
    {
        let ghost rest = chars@.skip(at as int);
        let ghost found = list.deep_view();
        let stop: usize = line_stop(&chars, at);
        if stop == chars.len() {
            assert(text@.subrange(at as int, stop as int) =~= rest);
            let line = text.substring_char(at, stop);
            list.push(line);
            assert(list.deep_view() =~= found.push(line@));
            assert(found.push(line@) =~= found + lines(rest));
            assert(lines(chars@.skip(stop as int)) =~= Seq::<Seq<char>>::empty());
            at = stop;
        } else {
            let end: usize = if stop > at && chars[stop - 1] == '\r' {
                stop - 1
            } else {
                stop
            };
            proof {
                assert(rest.take(stop - at) =~= text@.subrange(at as int, stop as int));
                assert(without_return(rest.take(stop - at)) =~= text@.subrange(
                    at as int,
                    end as int,
                ));
                assert(rest.skip(stop - at + 1) =~= chars@.skip(stop + 1));
            }
            let line = text.substring_char(at, end);
            list.push(line);
            assert(list.deep_view() =~= found.push(line@));
            assert(found.push(line@) + lines(chars@.skip(stop + 1)) =~= found + lines(rest));
            at = stop + 1;
        }
    }
    assert(list.deep_view() + Seq::<Seq<char>>::empty() =~= list.deep_view());
    list
}

/// Whether `line` is the entry of `name` in a listing: its first word is
/// `name`, the whole of it.
pub fn is_entry_of(line: &str, name: &str) -> (found: bool)
    ensures
        found == entry_of(line@, name@),
{
    let list = split_words(line);
    if list.len() == 0 {
        return false;
    }
    assert(list.deep_view()[0] == list[0]@);
    crate::text::same_text(list[0], name)
}

/// The first of `lines` that is the entry of `name`.
pub fn find_entry<'a>(lines: &Vec<&'a str>, name: &str) -> (found: Option<&'a str>)
    ensures
        crate::text::optional_slice(found) == first_entry(lines.deep_view(), name@),
{
    let mut at: usize = 0;
    assert(lines.deep_view().skip(0) =~= lines.deep_view());
    while at < lines.len()
        invariant
            at <= lines.len(),
            first_entry(lines.deep_view().skip(at as int), name@) == first_entry(
                lines.deep_view(),
                name@,
            ),
        decreases lines.len() - at,
    {
        if is_entry_of(lines[at], name) {
            return Some(lines[at]);
        }
        assert(lines.deep_view().skip(at as int).skip(1) =~= lines.deep_view().skip(at + 1));
        at += 1;
    }
    None
}

/// Trimming takes nothing but white space, and takes all of it: what is
/// left is a prefix of the text, does not end in white space, and is
/// followed in the text by white space only.
pub proof fn lemma_trimmed_end_is_exact(text: Seq<char>)
    ensures
        trimmed_end(text).is_prefix_of(text),
        trimmed_end(text).len() > 0 ==> !white_space(trimmed_end(text).last()),
        forall|i: int| trimmed_end(text).len() <= i < text.len() ==> white_space(#[trigger] text[i]),
    decreases text.len(),
{
    if text.len() > 0 && white_space(text.last()) {
        let shorter = text.drop_last();
        lemma_trimmed_end_is_exact(shorter);
        assert forall|i: int| trimmed_end(text).len() <= i < text.len() implies white_space(
            #[trigger] text[i],
        ) by {
            if i < shorter.len() {
                assert(text[i] == shorter[i]);
            }
        }
    }
}

/// No character of a word is white space.
proof fn lemma_word_length_is_exact(text: Seq<char>)
    ensures
        forall|i: int| 0 <= i < word_length(text) ==> !white_space(#[trigger] text[i]),
        word_length(text) < text.len() ==> white_space(text[word_length(text) as int]),
    decreases text.len(),
{
    if text.len() > 0 && !white_space(text[0]) {
        let rest = text.skip(1);
        lemma_word_length_is_exact(rest);
        lemma_word_length_bounds(rest);
        assert forall|i: int| 0 <= i < word_length(text) implies !white_space(
            #[trigger] text[i],
        ) by {
            if i > 0 {
                assert(text[i] == rest[i - 1]);
            }
        }
        if word_length(text) < text.len() {
            assert(text[word_length(text) as int] == rest[word_length(rest) as int]);
        }
    }
}

/// Every word has at least one character, and none that is white space.
pub proof fn lemma_words_hold_no_white_space(text: Seq<char>)
    ensures
        forall|i: int|
            0 <= i < words(text).len() ==> (#[trigger] words(text)[i]).len() > 0,
        forall|i: int, j: int|
            0 <= i < words(text).len() && 0 <= j < words(text)[i].len() ==> !white_space(
                #[trigger] words(text)[i][j],
            ),
    decreases text.len(),
{
    if text.len() == 0 {
    } else if white_space(text[0]) {
        lemma_words_hold_no_white_space(text.skip(1));
        assert(words(text) == words(text.skip(1)));
    } else {
        lemma_word_length_bounds(text);
        lemma_word_length_is_exact(text);
        let length: int = word_length(text) as int;
        lemma_words_hold_no_white_space(text.skip(length));
        let first = text.take(length);
        let rest = words(text.skip(length));
        assert(words(text) =~= seq![first] + rest);
        assert forall|i: int| 0 <= i < words(text).len() implies (#[trigger] words(text)[i]).len()
            > 0 by {
            if i > 0 {
                assert(words(text)[i] == rest[i - 1]);
            }
        }
        assert forall|i: int, j: int|
            0 <= i < words(text).len() && 0 <= j < words(text)[i].len() implies !white_space(
            #[trigger] words(text)[i][j],
        ) by {
            if i > 0 {
                assert(words(text)[i] == rest[i - 1]);
            } else {
                assert(words(text)[0][j] == text[j]);
            }
        }
    }
}

/// No character before the end of a line is a line feed.
proof fn lemma_line_length_is_exact(text: Seq<char>)
    ensures
        forall|i: int| 0 <= i < line_length(text) ==> #[trigger] text[i] != '\n',
    decreases text.len(),
{
    if text.len() > 0 && text[0] != '\n' {
        let rest = text.skip(1);
        lemma_line_length_is_exact(rest);
        lemma_line_length_bounds(rest);
        assert forall|i: int| 0 <= i < line_length(text) implies #[trigger] text[i] != '\n' by {
            if i > 0 {
                assert(text[i] == rest[i - 1]);
            }
        }
    }
}

/// No line holds a line feed.
pub proof fn lemma_lines_hold_no_line_feed(text: Seq<char>)
    ensures
        forall|i: int, j: int|
            0 <= i < lines(text).len() && 0 <= j < lines(text)[i].len() ==> #[trigger] lines(
                text,
            )[i][j] != '\n',
    decreases text.len(),
{
    if text.len() > 0 {
        lemma_line_length_bounds(text);
        lemma_line_length_is_exact(text);
        let length: int = line_length(text) as int;
        if length < text.len() {
            let first = without_return(text.take(length));
            let rest = lines(text.skip(length + 1));
            lemma_lines_hold_no_line_feed(text.skip(length + 1));
            assert(lines(text) =~= seq![first] + rest);
            assert forall|i: int, j: int|
                0 <= i < lines(text).len() && 0 <= j < lines(text)[i].len() implies #[trigger] lines(
                text,
            )[i][j] != '\n' by {
                if i > 0 {
                    assert(lines(text)[i] == rest[i - 1]);
                } else {
                    assert(first[j] == text[j]);
                }
            }
        }
    }
}

} // verus!
