//! The type-name scanner: a single lexical pass over a header's text that
//! finds the names of the classes it declares.
//!
//! The scanner does not parse C++. It splits the text into whitespace-delimited
//! words and looks at each run of three consecutive words. Where the first is
//! the keyword `class`, the second is reported if it looks like a type name of
//! the framework, otherwise the third (which covers `class EXPORT_MACRO Name`).
//! A name preceded by two macros is missed, and any word that happens to look
//! like a type name is reported: the scan trades precision for speed.

use vstd::prelude::*;
use vstd::string::*;
use vstd::utf8::*;
use itertools::Itertools;
use crate::text::{chars_of, string_of, starts_with_chars};

verus! {

/// The characters that separate words: those with the Unicode property
/// `White_Space`.
pub open spec fn is_whitespace(c: char) -> bool {
    let u = c as u32;
    ||| 0x09 <= u <= 0x0D
    ||| u == 0x20
    ||| u == 0x85
    ||| u == 0xA0
    ||| u == 0x1680
    ||| 0x2000 <= u <= 0x200A
    ||| u == 0x2028
    ||| u == 0x2029
    ||| u == 0x202F
    ||| u == 0x205F
    ||| u == 0x3000
}

/// The whitespace-delimited words of `text`, in the order in which they occur.
///
/// Reading the text from the left, a whitespace character ends the word before
/// it, a character that follows whitespace (or starts the text) begins a new
/// word, and any other character extends the last word.
pub open spec fn tokens(text: Seq<char>) -> Seq<Seq<char>>
    decreases text.len(),
{
    if text.len() == 0 {
        Seq::empty()
    } else {
        let before = tokens(text.drop_last());
        let c = text.last();
        if is_whitespace(c) {
            before
        } else if text.len() == 1 || is_whitespace(text[text.len() - 2]) {
            before.push(seq![c])
        } else {
            before.drop_last().push(before.last().push(c))
        }
    }
}

/// The keyword that introduces a class declaration.
pub open spec fn class_keyword() -> Seq<char> {
    seq!['c', 'l', 'a', 's', 's']
}

/// The characters that rule a word out as a type name: they occur in macro
/// names, qualified names, template instantiations and statement ends.
pub open spec fn is_excluded(c: char) -> bool {
    c == ';' || c == ':' || c == '#' || c == '_' || c == '<' || c == '>'
}

/// A word qualifies as a type name of the framework when it begins with the
/// framework's `sentinel` and holds no excluded character.
pub open spec fn qualifies(token: Seq<char>, sentinel: Seq<char>) -> bool {
    &&& sentinel.is_prefix_of(token)
    &&& forall|i: int| 0 <= i < token.len() ==> !is_excluded(#[trigger] token[i])
}

/// What a window of three consecutive words reports: nothing unless the first
/// is `class`; then the second word if it qualifies, else the third if it
/// qualifies, else nothing.
pub open spec fn emitted(
    first: Seq<char>,
    second: Seq<char>,
    third: Seq<char>,
    sentinel: Seq<char>,
) -> Option<Seq<char>> {
    if first != class_keyword() {
        None
    } else if qualifies(second, sentinel) {
        Some(second)
    } else if qualifies(third, sentinel) {
        Some(third)
    } else {
        None
    }
}

/// The number of three-word windows over `words`.
pub open spec fn window_count(words: Seq<Seq<char>>) -> nat {
    if words.len() >= 3 {
        (words.len() - 2) as nat
    } else {
        0
    }
}

/// The names reported by the first `n` windows over `words`, in order.
pub open spec fn emissions(words: Seq<Seq<char>>, sentinel: Seq<char>, n: nat) -> Seq<Seq<char>>
    decreases n,
{
    if n == 0 {
        Seq::empty()
    } else {
        let before = emissions(words, sentinel, (n - 1) as nat);
        match emitted(words[n - 1], words[n as int], words[n as int + 1], sentinel) {
            Some(name) => before.push(name),
            None => before,
        }
    }
}

/// The type names that a scan of `text` reports, in the order of their
/// windows. A name is listed once for each window that reports it.
pub open spec fn type_names(text: Seq<char>, sentinel: Seq<char>) -> Seq<Seq<char>> {
    emissions(tokens(text), sentinel, window_count(tokens(text)))
}

/// The result of scanning a header given as bytes: nothing if the bytes are
/// not UTF-8, else the type names of the decoded text.
pub open spec fn header_type_names(bytes: Seq<u8>, sentinel: Seq<char>) -> Option<Seq<Seq<char>>> {
    if valid_utf8(bytes) {
        Some(type_names(decode_utf8(bytes), sentinel))
    } else {
        None
    }
}

/// The characters `text[from..to]` are a word of `text`: a run of
/// characters other than whitespace that cannot be made longer, because
/// whitespace or an end of the text stands on either side.
pub open spec fn is_word_span(text: Seq<char>, from: int, to: int) -> bool {
    &&& 0 <= from < to <= text.len()
    &&& forall|k: int| from <= k < to ==> !is_whitespace(#[trigger] text[k])
    &&& from == 0 || is_whitespace(text[from - 1])
    &&& to == text.len() || is_whitespace(text[to])
}

/// Where the words of `text` lie, from left to right.
pub open spec fn word_spans(text: Seq<char>) -> Seq<(int, int)>
    decreases text.len(),
{
    if text.len() == 0 {
        Seq::empty()
    } else {
        let before = word_spans(text.drop_last());
        if is_whitespace(text.last()) {
            before
        } else if text.len() == 1 || is_whitespace(text[text.len() - 2]) {
            before.push((text.len() - 1, text.len() as int))
        } else {
            before.drop_last().push((before.last().0, text.len() as int))
        }
    }
}

/// The words of a text are its maximal runs of characters other than
/// whitespace, each once, in the order in which they stand: `word_spans`
/// lists word spans only, from left to right without overlap, it lists every
/// word span there is, and `tokens` is the text of each.
pub proof fn lemma_tokens_are_the_maximal_runs(text: Seq<char>)
    ensures
        forall|i: int|
            0 <= i < word_spans(text).len() ==> is_word_span(
                text,
                (#[trigger] word_spans(text)[i]).0,
                word_spans(text)[i].1,
            ),
        forall|i: int, j: int|
            0 <= i < j < word_spans(text).len() ==> (#[trigger] word_spans(text)[i]).1 < (
            #[trigger] word_spans(text)[j]).0,
        forall|from: int, to: int| #[trigger]
            is_word_span(text, from, to) ==> word_spans(text).contains((from, to)),
        tokens(text) == Seq::new(
            word_spans(text).len(),
            |i: int| text.subrange(word_spans(text)[i].0, word_spans(text)[i].1),
        ),
    decreases text.len(),
{
    let spans = word_spans(text);
    let texts = Seq::new(spans.len(), |i: int| text.subrange(spans[i].0, spans[i].1));
    if text.len() == 0 {
        assert(tokens(text) =~= texts);
    } else {
        let init = text.drop_last();
        let n = init.len() as int;
        let c = text.last();
        let before = word_spans(init);
        lemma_tokens_are_the_maximal_runs(init);
        assert forall|k: int| 0 <= k < n implies init[k] == text[k] by {}
        // A span of `init` that reaches its end is the last one.
        assert forall|i: int| 0 <= i < before.len() && (#[trigger] before[i]).1 == n implies i
            == before.len() - 1 by {
            if i < before.len() - 1 {
                let last = before[before.len() - 1];
                assert(is_word_span(init, last.0, last.1));
            }
        }
        if is_whitespace(c) {
            assert forall|i: int| 0 <= i < spans.len() implies is_word_span(
                text,
                (#[trigger] spans[i]).0,
                spans[i].1,
            ) by {
                assert(is_word_span(init, spans[i].0, spans[i].1));
            }
            assert forall|from: int, to: int| #[trigger]
                is_word_span(text, from, to) implies spans.contains((from, to)) by {
                assert(text[to - 1] == init[to - 1]);
                assert(is_word_span(init, from, to));
            }
            assert(tokens(text) =~= texts) by {
                assert forall|i: int| 0 <= i < spans.len() implies #[trigger] texts[i]
                    == init.subrange(spans[i].0, spans[i].1) by {
                    assert(is_word_span(init, spans[i].0, spans[i].1));
                    assert(text.subrange(spans[i].0, spans[i].1) =~= init.subrange(
                        spans[i].0,
                        spans[i].1,
                    ));
                }
            }
        } else if text.len() == 1 || is_whitespace(text[n - 1]) {
            assert forall|i: int| 0 <= i < spans.len() implies is_word_span(
                text,
                (#[trigger] spans[i]).0,
                spans[i].1,
            ) by {
                if i < before.len() {
                    assert(is_word_span(init, before[i].0, before[i].1));
                    assert(init[before[i].1 - 1] == text[before[i].1 - 1]);
                }
            }
            assert forall|i: int, j: int| 0 <= i < j < spans.len() implies (#[trigger] spans[i]).1
                < (#[trigger] spans[j]).0 by {
                if j == before.len() {
                    assert(is_word_span(init, before[i].0, before[i].1));
                    assert(init[before[i].1 - 1] == text[before[i].1 - 1]);
                }
            }
            assert forall|from: int, to: int| #[trigger]
                is_word_span(text, from, to) implies spans.contains((from, to)) by {
                if to <= n {
                    assert(is_word_span(init, from, to));
                    let i = choose|i: int| 0 <= i < before.len() && before[i] == (from, to);
                    assert(spans[i] == (from, to));
                } else {
                    if from < n {
                        assert(!is_whitespace(text[n - 1]));
                    }
                    assert(spans[before.len() as int] == (from, to));
                }
            }
            assert(tokens(text) =~= texts) by {
                assert forall|i: int| 0 <= i < spans.len() implies #[trigger] texts[i] == tokens(
                    text,
                )[i] by {
                    if i < before.len() {
                        assert(is_word_span(init, before[i].0, before[i].1));
                        assert(text.subrange(spans[i].0, spans[i].1) =~= init.subrange(
                            before[i].0,
                            before[i].1,
                        ));
                    } else {
                        assert(text.subrange(n, n + 1) =~= seq![c]);
                    }
                }
            }
        } else {
            // The last character carries on the word that `init` ends in.
            assert(is_word_span(init, word_start(init), n)) by {
                lemma_word_start(init);
            }
            let i0 = choose|i: int| 0 <= i < before.len() && before[i] == (word_start(init), n);
            assert(i0 == before.len() - 1);
            let open = before.last();
            assert forall|i: int| 0 <= i < spans.len() implies is_word_span(
                text,
                (#[trigger] spans[i]).0,
                spans[i].1,
            ) by {
                if i < spans.len() - 1 {
                    assert(is_word_span(init, before[i].0, before[i].1));
                    assert(before[i].1 < open.0);
                } else {
                    assert(is_word_span(init, open.0, open.1));
                    assert forall|k: int| open.0 <= k < n + 1 implies !is_whitespace(
                        #[trigger] text[k],
                    ) by {
                        if k < n {
                            assert(!is_whitespace(init[k]));
                        }
                    }
                }
            }
            assert forall|from: int, to: int| #[trigger]
                is_word_span(text, from, to) implies spans.contains((from, to)) by {
                if to <= n {
                    assert(to < n) by {
                        if to == n {
                            assert(is_whitespace(text[n]));
                        }
                    }
                    assert(is_word_span(init, from, to));
                    let i = choose|i: int| 0 <= i < before.len() && before[i] == (from, to);
                    assert(i != before.len() - 1);
                    assert(spans[i] == (from, to));
                } else {
                    assert(from < n) by {
                        if from == n {
                            assert(is_whitespace(text[n - 1]));
                        }
                    }
                    assert(is_word_span(init, from, n)) by {
                        assert forall|k: int| from <= k < n implies !is_whitespace(
                            #[trigger] init[k],
                        ) by {
                            assert(!is_whitespace(text[k]));
                        }
                    }
                    let i = choose|i: int| 0 <= i < before.len() && before[i] == (from, n);
                    assert(i == before.len() - 1);
                    assert(spans[spans.len() - 1] == (from, to));
                }
            }
            assert(tokens(text) =~= texts) by {
                let words = tokens(init);
                assert(words.len() == before.len());
                assert(words.last() == init.subrange(open.0, open.1));
                assert forall|i: int| 0 <= i < spans.len() implies #[trigger] texts[i] == tokens(
                    text,
                )[i] by {
                    if i < spans.len() - 1 {
                        assert(is_word_span(init, before[i].0, before[i].1));
                        assert(text.subrange(spans[i].0, spans[i].1) =~= init.subrange(
                            before[i].0,
                            before[i].1,
                        ));
                    } else {
                        assert(is_word_span(init, open.0, open.1));
                        assert(text.subrange(open.0, n + 1) =~= init.subrange(open.0, n).push(c));
                    }
                }
            }
        }
    }
}

/// Where the word begins that a text ends in.
pub open spec fn word_start(text: Seq<char>) -> int
    decreases text.len(),
{
    if text.len() == 0 || is_whitespace(text.last()) {
        text.len() as int
    } else {
        word_start(text.drop_last())
    }
}

/// A text that ends in a character other than whitespace ends in a word,
/// which begins at `word_start`.
proof fn lemma_word_start(text: Seq<char>)
    requires
        text.len() > 0,
        !is_whitespace(text.last()),
    ensures
        is_word_span(text, word_start(text), text.len() as int),
    decreases text.len(),
{
    let init = text.drop_last();
    assert forall|k: int| 0 <= k < init.len() implies init[k] == text[k] by {}
    if init.len() > 0 && !is_whitespace(init.last()) {
        lemma_word_start(init);
        let from = word_start(init);
        assert forall|k: int| from <= k < text.len() implies !is_whitespace(#[trigger] text[k]) by {
            if k < init.len() {
                assert(!is_whitespace(init[k]));
            }
        }
    }
}

/// Every word of a text is non-empty and holds no whitespace, and a text
/// that ends in a character other than whitespace has at least one word.
pub proof fn lemma_tokens_are_words(text: Seq<char>)
    ensures
        forall|i: int, k: int|
            0 <= i < tokens(text).len() && 0 <= k < tokens(text)[i].len() ==> !is_whitespace(
                #[trigger] tokens(text)[i][k],
            ),
        forall|i: int| 0 <= i < tokens(text).len() ==> (#[trigger] tokens(text)[i]).len() > 0,
        text.len() > 0 && !is_whitespace(text.last()) ==> tokens(text).len() > 0,
    decreases text.len(),
{
    if text.len() > 0 {
        let init = text.drop_last();
        let before = tokens(init);
        let c = text.last();
        lemma_tokens_are_words(init);
        if !is_whitespace(c) && !(text.len() == 1 || is_whitespace(text[text.len() - 2])) {
            assert(init.last() == text[text.len() - 2]);
            let grown = before.last().push(c);
            let after = before.drop_last().push(grown);
            assert forall|i: int, k: int|
                0 <= i < after.len() && 0 <= k < after[i].len() implies !is_whitespace(
                #[trigger] after[i][k],
            ) by {
                if i < after.len() - 1 {
                    assert(after[i] == before[i]);
                } else if k < before.last().len() {
                    assert(after[i][k] == before[before.len() - 1][k]);
                }
            }
            assert forall|i: int| 0 <= i < after.len() implies (#[trigger] after[i]).len() > 0 by {
                if i < after.len() - 1 {
                    assert(after[i] == before[i]);
                }
            }
        }
    }
}

/// What the first `n` windows report are words that qualify.
proof fn lemma_emissions_qualify(words: Seq<Seq<char>>, sentinel: Seq<char>, n: nat, i: int)
    requires
        n <= window_count(words),
        0 <= i < emissions(words, sentinel, n).len(),
    ensures
        qualifies(emissions(words, sentinel, n)[i], sentinel),
        words.contains(emissions(words, sentinel, n)[i]),
    decreases n,
{
    if n > 0 {
        let before = emissions(words, sentinel, (n - 1) as nat);
        if i < before.len() {
            lemma_emissions_qualify(words, sentinel, (n - 1) as nat, i);
        } else {
            let name = emitted(words[n - 1], words[n as int], words[n as int + 1], sentinel)->0;
            assert(name == words[n as int] || name == words[n as int + 1]);
        }
    }
}

/// A scan reports only words of the text that qualify as type names. So no
/// word with one of the excluded characters `;`, `:`, `#`, `_`, `<`, `>` is
/// ever reported, whatever stands around it, and none that does not begin
/// with the sentinel.
pub proof fn lemma_reported_names_qualify(text: Seq<char>, sentinel: Seq<char>, i: int)
    requires
        0 <= i < type_names(text, sentinel).len(),
    ensures
        tokens(text).contains(type_names(text, sentinel)[i]),
        qualifies(type_names(text, sentinel)[i], sentinel),
        sentinel.is_prefix_of(type_names(text, sentinel)[i]),
        forall|k: int|
            0 <= k < type_names(text, sentinel)[i].len() ==> !is_excluded(
                #[trigger] type_names(text, sentinel)[i][k],
            ),
{
    lemma_emissions_qualify(tokens(text), sentinel, window_count(tokens(text)), i);
}

/// A word that holds an excluded character is not among the names that a
/// scan reports.
pub proof fn lemma_excluded_words_are_never_reported(
    text: Seq<char>,
    sentinel: Seq<char>,
    word: Seq<char>,
    k: int,
)
    requires
        0 <= k < word.len(),
        is_excluded(word[k]),
    ensures
        !type_names(text, sentinel).contains(word),
{
    if type_names(text, sentinel).contains(word) {
        let i = choose|i: int|
            0 <= i < type_names(text, sentinel).len() && type_names(text, sentinel)[i] == word;
        lemma_reported_names_qualify(text, sentinel, i);
    }
}

/// The text of each span of `text`.
pub open spec fn span_texts(text: Seq<char>, spans: Seq<(usize, usize)>) -> Seq<Seq<char>> {
    Seq::new(spans.len(), |i: int| text.subrange(spans[i].0 as int, spans[i].1 as int))
}

/// Every span lies within a text of length `len`.
pub open spec fn spans_within(spans: Seq<(usize, usize)>, len: nat) -> bool {
    forall|i: int| 0 <= i < spans.len() ==> (#[trigger] spans[i]).0 <= spans[i].1 <= len
}

/// The error of `core::str::from_utf8`. Nothing is read from it: that the
/// bytes are not text is all that matters here.
#[verifier::external_type_specification]
#[verifier::external_body]
pub struct ExUtf8Error(core::str::Utf8Error);

/// `core::str::from_utf8` succeeds exactly on well-formed UTF-8 and then
/// returns a string slice over the very bytes it was given.
pub assume_specification<'a>[ core::str::from_utf8 ](bytes: &'a [u8]) -> (decoded: Result<
    &'a str,
    core::str::Utf8Error,
>)
    ensures
        decoded is Ok <==> valid_utf8(bytes@),
        decoded matches Ok(s) ==> s.spec_bytes() == bytes@,
;

/// `Itertools::tuple_windows` with a window of three yields every run of three
/// consecutive items, from left to right, and nothing when there are fewer
/// than three items.
#[verifier::external_body]
fn windows_of_three(spans: &Vec<(usize, usize)>) -> (windows: Vec<
    ((usize, usize), (usize, usize), (usize, usize)),
>)
    ensures
        windows@.len() == if spans@.len() >= 3 {
            spans@.len() - 2
        } else {
            0
        },
        forall|i: int|
            0 <= i < windows@.len() ==> #[trigger] windows@[i] == (
                spans@[i],
                spans@[i + 1],
                spans@[i + 2],
            ),
{
    spans.iter().copied().tuple_windows::<(_, _, _)>().collect()
}

/// Tells whether `c` separates words.
pub fn is_whitespace_char(c: char) -> (b: bool)
    ensures
        b == is_whitespace(c),
{
    let u: u32 = c as u32;
    (0x09 <= u && u <= 0x0D) || u == 0x20 || u == 0x85 || u == 0xA0 || u == 0x1680 || (0x2000 <= u
        && u <= 0x200A) || u == 0x2028 || u == 0x2029 || u == 0x202F || u == 0x205F || u == 0x3000
}

/// Tells whether `c` rules a word out as a type name.
pub fn is_excluded_char(c: char) -> (b: bool)
    ensures
        b == is_excluded(c),
{
    c == ';' || c == ':' || c == '#' || c == '_' || c == '<' || c == '>'
}

/// Finds the words of `chars` as spans of positions, left to right.
pub fn token_spans(chars: &Vec<char>) -> (spans: Vec<(usize, usize)>)
    ensures
        span_texts(chars@, spans@) == tokens(chars@),
        spans_within(spans@, chars@.len()),
{
    let mut spans: Vec<(usize, usize)> = Vec::new();
    let mut start: usize = 0;
    let mut in_word = false;
    let mut i: usize = 0;
    while i < chars.len()
        invariant
            i <= chars@.len(),
            spans_within(spans@, i as nat),
            in_word ==> start < i,
            in_word <==> (i > 0 && !is_whitespace(chars@[i - 1])),
            tokens(chars@.take(i as int)) == if in_word {
                span_texts(chars@, spans@).push(chars@.subrange(start as int, i as int))
            } else {
                span_texts(chars@, spans@)
            },
        decreases chars@.len() - i,
    {
        let c = chars[i];
        let ghost prefix = chars@.take(i as int);
        let ghost next = chars@.take(i + 1);
        let ghost old_spans = spans@;
        proof {
            assert(next.drop_last() =~= prefix);
            assert(next.last() == c);
            if i > 0 {
                assert(next[next.len() - 2] == chars@[i - 1]);
            }
        }
        if is_whitespace_char(c) {
            if in_word {
                spans.push((start, i));
                proof {
                    assert(span_texts(chars@, spans@) =~= span_texts(chars@, old_spans).push(
                        chars@.subrange(start as int, i as int),
                    ));
                }
            }
            in_word = false;
        } else if in_word {
            proof {
                let before = tokens(prefix);
                assert(before.last() == chars@.subrange(start as int, i as int));
                assert(before.drop_last() =~= span_texts(chars@, spans@));
                assert(chars@.subrange(start as int, i as int).push(c) =~= chars@.subrange(
                    start as int,
                    i + 1,
                ));
            }
        } else {
            start = i;
            in_word = true;
            proof {
                assert(seq![c] =~= chars@.subrange(i as int, i + 1));
            }
        }
        i += 1;
    }
    proof {
        assert(chars@.take(chars@.len() as int) =~= chars@);
    }
    if in_word {
        let ghost old_spans = spans@;
        spans.push((start, i));
        proof {
            assert(span_texts(chars@, spans@) =~= span_texts(chars@, old_spans).push(
                chars@.subrange(start as int, i as int),
            ));
        }
    }
    spans
}

/// Tells whether the word `chars[from..to]` is the keyword `class`.
fn is_class_keyword(chars: &Vec<char>, from: usize, to: usize) -> (b: bool)
    requires
        from <= to <= chars@.len(),
    ensures
        b == (chars@.subrange(from as int, to as int) == class_keyword()),
{
    let ghost word = chars@.subrange(from as int, to as int);
    assert(class_keyword().len() == 5);
    if to - from != 5 {
        return false;
    }
    let b = chars[from] == 'c' && chars[from + 1] == 'l' && chars[from + 2] == 'a' && chars[from
        + 3] == 's' && chars[from + 4] == 's';
    proof {
        assert(word[0] == chars@[from as int]);
        assert(word[1] == chars@[from + 1]);
        assert(word[2] == chars@[from + 2]);
        assert(word[3] == chars@[from + 3]);
        assert(word[4] == chars@[from + 4]);
        if b {
            assert(word =~= class_keyword());
        }
    }
    b
}

/// Tells whether the word `chars[from..to]` qualifies as a type name.
fn word_qualifies(chars: &Vec<char>, from: usize, to: usize, sentinel: &Vec<char>) -> (b: bool)
    requires
        from <= to <= chars@.len(),
    ensures
        b == qualifies(chars@.subrange(from as int, to as int), sentinel@),
{
    let ghost word = chars@.subrange(from as int, to as int);
    if !starts_with_chars(chars, from, to, sentinel) {
        return false;
    }
    let mut i: usize = from;
    while i < to
        invariant
            from <= i <= to <= chars@.len(),
            word == chars@.subrange(from as int, to as int),
            forall|j: int| 0 <= j < i - from ==> !is_excluded(#[trigger] word[j]),
        decreases to - i,
    {
        if is_excluded_char(chars[i]) {
            proof {
                assert(word[i - from] == chars@[i as int]);
            }
            return false;
        }
        proof {
            assert(word[i - from] == chars@[i as int]);
        }
        i += 1;
    }
    true
}

/// Scans `text` for the names of the classes it declares. A word counts as a
/// type name when it begins with `sentinel`, the capitalised prefix that the
/// framework gives its types.
pub fn scan_type_names(text: &str, sentinel: &str) -> (names: Vec<String>)
    ensures
        names.deep_view() == type_names(text@, sentinel@),
{
    let chars = chars_of(text);
    let prefix = chars_of(sentinel);
    let spans = token_spans(&chars);
    let windows = windows_of_three(&spans);
    let ghost words = tokens(text@);
    let mut names: Vec<String> = Vec::new();
    let mut i: usize = 0;
    assert(names.deep_view() =~= emissions(words, sentinel@, 0));
    while i < windows.len()
        invariant
            i <= windows@.len(),
            chars@ == text@,
            prefix@ == sentinel@,
            words == tokens(text@),
            span_texts(chars@, spans@) == words,
            spans_within(spans@, chars@.len()),
            windows@.len() == window_count(words),
            forall|k: int|
                0 <= k < windows@.len() ==> #[trigger] windows@[k] == (
                    spans@[k],
                    spans@[k + 1],
                    spans@[k + 2],
                ),
            names.deep_view() == emissions(words, sentinel@, i as nat),
        decreases windows@.len() - i,
    {
        let (first, second, third) = windows[i];
        let ghost old_names = names.deep_view();
        proof {
            assert(windows@[i as int] == (spans@[i as int], spans@[i + 1], spans@[i + 2]));
            assert(words[i as int] == chars@.subrange(first.0 as int, first.1 as int));
            assert(words[i + 1] == chars@.subrange(second.0 as int, second.1 as int));
            assert(words[i + 2] == chars@.subrange(third.0 as int, third.1 as int));
        }
        if is_class_keyword(&chars, first.0, first.1) {
            if word_qualifies(&chars, second.0, second.1, &prefix) {
                names.push(string_of(&chars, second.0, second.1));
                assert(names.deep_view() =~= old_names.push(words[i + 1]));
            } else if word_qualifies(&chars, third.0, third.1, &prefix) {
                names.push(string_of(&chars, third.0, third.1));
                assert(names.deep_view() =~= old_names.push(words[i + 2]));
            }
        }
        i += 1;
    }
    names
}

/// Scans a header given as bytes. Content that is not UTF-8 cannot be
/// scanned: the result is then `None`.
pub fn scan_header(bytes: &[u8], sentinel: &str) -> (names: Option<Vec<String>>)
    ensures
        names.deep_view() == header_type_names(bytes@, sentinel@),
{
    match core::str::from_utf8(bytes) {
        Ok(text) => {
            proof {
                encode_utf8_decode_utf8(text@);
            }
            Some(scan_type_names(text, sentinel))
        },
        Err(_) => None,
    }
}

} // verus!
