//! Strings as sequences of characters: comparing, trimming, splitting and
//! joining them.

use vstd::prelude::*;
use vstd::utf8;

use crate::chars;
use crate::chars::{char_is_ascii_space, char_is_white_space, char_to_ascii_lower};

verus! {

/// `String::push` appends one character.
pub assume_specification[ String::push ](s: &mut String, c: char)
    ensures
        final(s)@ == old(s)@.push(c),
;

/// What each of several strings says.
pub open spec fn texts(strings: Seq<String>) -> Seq<Seq<char>> {
    Seq::new(strings.len(), |i: int| strings[i]@)
}

/// What an optional string says.
pub open spec fn text_of(string: Option<String>) -> Option<Seq<char>> {
    match string {
        Some(s) => Some(s@),
        None => None,
    }
}

/// What several strings say, where they are given.
pub open spec fn texts_of(strings: Option<Vec<String>>) -> Option<Seq<Seq<char>>> {
    match strings {
        Some(v) => Some(texts(v@)),
        None => None,
    }
}

// Comparing.

pub fn text_eq(a: &str, b: &str) -> (result: bool)
    ensures
        result == (a@ == b@),
{
    let left = a.as_bytes();
    let right = b.as_bytes();
    proof {
        utf8::encode_utf8_decode_utf8(a@);
        utf8::encode_utf8_decode_utf8(b@);
    }
    if left.len() != right.len() {
        return false;
    }
    let mut i: usize = 0;
    while i < left.len()
        invariant
            i <= left.len(),
            left@.len() == right@.len(),
            left@ == utf8::encode_utf8(a@),
            right@ == utf8::encode_utf8(b@),
            forall|j: int| 0 <= j < i ==> left@[j] == right@[j],
        decreases left.len() - i,
    {
        if left[i] != right[i] {
            return false;
        }
        i = i + 1;
    }
    assert(left@ =~= right@);
    true
}

/// The number of bytes of the UTF-8 form of `s`.
pub fn byte_len(s: &str) -> (result: usize)
    ensures
        result == utf8::encode_utf8(s@).len(),
{
    s.as_bytes().len()
}

pub fn chars_of(s: &str) -> (result: Vec<char>)
    ensures
        result@ == s@,
{
    let mut out: Vec<char> = Vec::new();
    for c in it: s.chars()
        invariant
            out@ == it.seq().take(it.index() as int),
            it.seq() == s@,
    {
        out.push(c);
    }
    out
}

pub fn string_from(all: &Vec<char>, from: usize, to: usize) -> (result: String)
    requires
        from <= to <= all.len(),
    ensures
        result@ == all@.subrange(from as int, to as int),
{
    let mut out = String::new();
    let mut i: usize = from;
    while i < to
        invariant
            from <= i <= to <= all.len(),
            out@ == all@.subrange(from as int, i as int),
        decreases to - i,
    {
        out.push(all[i]);
        i = i + 1;
        assert(out@ =~= all@.subrange(from as int, i as int));
    }
    out
}

/// The two texts differ at most in the case of ASCII letters.
pub open spec fn same_ignoring_ascii_case(a: Seq<char>, b: Seq<char>) -> bool {
    &&& a.len() == b.len()
    &&& forall|i: int| 0 <= i < a.len() ==> chars::ascii_lower(#[trigger] a[i]) == chars::ascii_lower(b[i])
}

pub fn eq_ignore_ascii_case(a: &str, b: &str) -> (result: bool)
    ensures
        result == same_ignoring_ascii_case(a@, b@),
{
    let left = chars_of(a);
    let right = chars_of(b);
    if left.len() != right.len() {
        return false;
    }
    let mut i: usize = 0;
    while i < left.len()
        invariant
            i <= left.len(),
            left.len() == right.len(),
            left@ == a@,
            right@ == b@,
            forall|j: int| 0 <= j < i ==> chars::ascii_lower(#[trigger] a@[j]) == chars::ascii_lower(b@[j]),
        decreases left.len() - i,
    {
        if char_to_ascii_lower(left[i]) != char_to_ascii_lower(right[i]) {
            return false;
        }
        i = i + 1;
    }
    true
}

pub fn starts_with(s: &str, prefix: &str) -> (result: bool)
    ensures
        result == prefix@.is_prefix_of(s@),
{
    let whole = chars_of(s);
    let head = chars_of(prefix);
    if whole.len() < head.len() {
        return false;
    }
    let mut i: usize = 0;
    while i < head.len()
        invariant
            i <= head.len() <= whole.len(),
            whole@ == s@,
            head@ == prefix@,
            forall|j: int| 0 <= j < i ==> whole@[j] == head@[j],
        decreases head.len() - i,
    {
        if whole[i] != head[i] {
            assert(s@.subrange(0, prefix@.len() as int)[i as int] == s@[i as int]);
            return false;
        }
        i = i + 1;
    }
    assert(prefix@ =~= s@.subrange(0, prefix@.len() as int));
    true
}

/// What follows `prefix` at the start of `s`, where `s` starts with it.
pub fn strip_prefix(s: &str, prefix: &str) -> (result: Option<String>)
    ensures
        match result {
            Some(rest) => prefix@.is_prefix_of(s@) && rest@ == s@.skip(prefix@.len() as int),
            None => !prefix@.is_prefix_of(s@),
        },
{
    if !starts_with(s, prefix) {
        return None;
    }
    let whole = chars_of(s);
    let from: usize = chars_of(prefix).len();
    assert(whole@.subrange(from as int, whole@.len() as int) =~= s@.skip(from as int));
    Some(string_from(&whole, from, whole.len()))
}

/// Whether one of `strings` reads `s`.
pub fn contains_text(strings: &Vec<String>, s: &str) -> (result: bool)
    ensures
        result == texts(strings@).contains(s@),
{
    let mut i: usize = 0;
    while i < strings.len()
        invariant
            i <= strings.len(),
            forall|j: int| 0 <= j < i ==> texts(strings@)[j] != s@,
        decreases strings.len() - i,
    {
        if text_eq(strings[i].as_str(), s) {
            assert(texts(strings@)[i as int] == s@);
            return true;
        }
        i = i + 1;
    }
    false
}

/// Whether the text at `index` does not stand among those before it.
pub fn is_new_at(strings: &Vec<String>, index: usize) -> (result: bool)
    requires
        index < strings.len(),
    ensures
        result == (forall|j: int|
            0 <= j < index ==> texts(strings@)[j] != texts(strings@)[index as int]),
{
    let ghost all = texts(strings@);
    let mut i: usize = 0;
    while i < index
        invariant
            i <= index < strings.len(),
            all == texts(strings@),
            forall|j: int| 0 <= j < i ==> all[j] != all[index as int],
        decreases index - i,
    {
        if text_eq(strings[i].as_str(), strings[index].as_str()) {
            assert(all[i as int] == all[index as int]);
            return false;
        }
        i = i + 1;
    }
    true
}

/// The UTF-8 form of two texts in a row is that of the first and that of the
/// second.
pub proof fn lemma_encode_utf8_sum(a: Seq<char>, b: Seq<char>)
    ensures
        utf8::encode_utf8(a + b) == utf8::encode_utf8(a) + utf8::encode_utf8(b),
    decreases a.len(),
{
    if a.len() == 0 {
        assert(a + b =~= b);
        assert(utf8::encode_utf8(a) + utf8::encode_utf8(b) =~= utf8::encode_utf8(b));
    } else {
        lemma_encode_utf8_sum(a.drop_first(), b);
        assert((a + b).drop_first() =~= a.drop_first() + b);
        assert(utf8::encode_utf8(a + b) =~= utf8::encode_utf8(a) + utf8::encode_utf8(b));
    }
}

// Trimming.

/// `s` without the white space at its start and at its end.
pub open spec fn trimmed(s: Seq<char>) -> Seq<char> {
    let rest = s.skip(chars::prefix_len(s, chars::white_space()));
    rest.take(rest.len() - chars::suffix_len(rest, chars::white_space()))
}

pub fn trim(s: &str) -> (result: String)
    ensures
        result@ == trimmed(s@),
{
    let all = chars_of(s);
    let mut from: usize = 0;
    while from < all.len() && char_is_white_space(all[from])
        invariant
            from <= all.len(),
            forall|j: int| 0 <= j < from ==> chars::is_white_space(#[trigger] all@[j]),
        decreases all.len() - from,
    {
        from = from + 1;
    }
    proof {
        chars::lemma_prefix_len_is(s@, chars::white_space(), from as int);
    }
    let mut to: usize = all.len();
    while to > from && char_is_white_space(all[to - 1])
        invariant
            from <= to <= all.len(),
            forall|j: int| to <= j < all.len() ==> chars::is_white_space(#[trigger] all@[j]),
        decreases to,
    {
        to = to - 1;
    }
    proof {
        let rest = s@.skip(from as int);
        assert forall|j: int| to - from <= j < rest.len() implies chars::white_space()(
            #[trigger] rest[j],
        ) by {
            assert(rest[j] == all@[j + from]);
        }
        chars::lemma_suffix_len_is(rest, chars::white_space(), all.len() - to);
        assert(all@.subrange(from as int, to as int) =~= trimmed(s@));
    }
    string_from(&all, from, to)
}

// Splitting.

/// A line without the carriage return of its line ending.
pub open spec fn without_carriage_return(line: Seq<char>) -> Seq<char> {
    if line.len() > 0 && line.last() == '\r' {
        line.drop_last()
    } else {
        line
    }
}

/// The lines of `s`. Each ends at a line feed or at a carriage return and a
/// line feed, neither of which belongs to it; the last may have no ending.
pub open spec fn lines_of(s: Seq<char>) -> Seq<Seq<char>>
    decreases s.len(),
{
    let n = chars::prefix_len(s, chars::other_than('\n'));
    if s.len() == 0 {
        Seq::empty()
    } else if n == s.len() {
        seq![s]
    } else {
        proof {
            chars::lemma_prefix_len(s, chars::other_than('\n'));
        }
        seq![without_carriage_return(s.take(n))] + lines_of(s.skip(n + 1))
    }
}

/// What stands before the first `c` of `s`; all of `s` where there is none.
pub open spec fn before(s: Seq<char>, c: char) -> Seq<char> {
    s.take(chars::prefix_len(s, chars::other_than(c)))
}

/// The runs of characters of `s` between its ASCII white space.
pub open spec fn words_of(s: Seq<char>) -> Seq<Seq<char>>
    decreases s.len(),
{
    let rest = s.skip(chars::prefix_len(s, chars::ascii_space()));
    let n = chars::prefix_len(rest, chars::not_ascii_space());
    if rest.len() == 0 {
        Seq::empty()
    } else {
        proof {
            chars::lemma_prefix_len(s, chars::ascii_space());
            chars::lemma_prefix_len(rest, chars::not_ascii_space());
            if n == 0 {
                assert(rest[0] == s[chars::prefix_len(s, chars::ascii_space())]);
            }
        }
        seq![rest.take(n)] + words_of(rest.skip(n))
    }
}

pub fn lines(s: &str) -> (result: Vec<String>)
    ensures
        texts(result@) == lines_of(s@),
{
    let all = chars_of(s);
    let mut out: Vec<String> = Vec::new();
    let mut from: usize = 0;
    assert(all@.skip(0) =~= s@);
    while from < all.len()
        invariant
            from <= all.len(),
            all@ == s@,
            texts(out@) + lines_of(s@.skip(from as int)) =~= lines_of(s@),
        decreases all.len() - from,
    {
        let ghost rest = s@.skip(from as int);
        let mut end: usize = from;
        while end < all.len() && all[end] != '\n'
            invariant
                from <= end <= all.len(),
                forall|j: int| from <= j < end ==> all@[j] != '\n',
            decreases all.len() - end,
        {
            end = end + 1;
        }
        proof {
            assert forall|j: int| 0 <= j < end - from implies chars::other_than('\n')(
                #[trigger] rest[j],
            ) by {
                assert(rest[j] == all@[j + from]);
            }
            chars::lemma_prefix_len_is(rest, chars::other_than('\n'), end - from);
        }
        let ghost before_push = texts(out@);
        if end == all.len() {
            out.push(string_from(&all, from, end));
            proof {
                assert(texts(out@) =~= before_push.push(rest));
                assert(s@.skip(end as int) =~= Seq::<char>::empty());
            }
            from = end;
        } else {
            let line_end: usize = if end > from && all[end - 1] == '\r' {
                end - 1
            } else {
                end
            };
            out.push(string_from(&all, from, line_end));
            proof {
                let line = rest.take(end - from);
                assert(all@.subrange(from as int, line_end as int) =~= without_carriage_return(
                    line,
                ));
                assert(texts(out@) =~= before_push.push(without_carriage_return(line)));
                assert(rest.skip(end - from + 1) =~= s@.skip(end + 1));
            }
            from = end + 1;
        }
    }
    assert(s@.skip(from as int) =~= Seq::<char>::empty());
    out
}

pub fn text_before(s: &str, c: char) -> (result: String)
    ensures
        result@ == before(s@, c),
{
    let all = chars_of(s);
    let mut end: usize = 0;
    while end < all.len() && all[end] != c
        invariant
            end <= all.len(),
            forall|j: int| 0 <= j < end ==> #[trigger] all@[j] != c,
        decreases all.len() - end,
    {
        end = end + 1;
    }
    proof {
        chars::lemma_prefix_len_is(s@, chars::other_than(c), end as int);
    }
    string_from(&all, 0, end)
}

pub fn split_ascii_whitespace(s: &str) -> (result: Vec<String>)
    ensures
        texts(result@) == words_of(s@),
{
    let all = chars_of(s);
    let mut out: Vec<String> = Vec::new();
    let mut at: usize = 0;
    assert(all@.skip(0) =~= s@);
    while at < all.len()
        invariant
            at <= all.len(),
            all@ == s@,
            texts(out@) + words_of(s@.skip(at as int)) =~= words_of(s@),
        decreases all.len() - at,
    {
        let ghost here = s@.skip(at as int);
        let mut from: usize = at;
        while from < all.len() && char_is_ascii_space(all[from])
            invariant
                at <= from <= all.len(),
                forall|j: int| at <= j < from ==> chars::is_ascii_space(#[trigger] all@[j]),
            decreases all.len() - from,
        {
            from = from + 1;
        }
        let mut to: usize = from;
        while to < all.len() && !char_is_ascii_space(all[to])
            invariant
                from <= to <= all.len(),
                forall|j: int| from <= j < to ==> !chars::is_ascii_space(#[trigger] all@[j]),
            decreases all.len() - to,
        {
            to = to + 1;
        }
        let ghost before_push = texts(out@);
        proof {
            assert forall|j: int| 0 <= j < from - at implies chars::ascii_space()(
                #[trigger] here[j],
            ) by {
                assert(here[j] == all@[j + at]);
            }
            chars::lemma_prefix_len_is(here, chars::ascii_space(), from - at);
            let rest = here.skip(from - at);
            assert(rest =~= s@.skip(from as int));
            assert forall|j: int| 0 <= j < to - from implies chars::not_ascii_space()(
                #[trigger] rest[j],
            ) by {
                assert(rest[j] == all@[j + from]);
            }
            chars::lemma_prefix_len_is(rest, chars::not_ascii_space(), to - from);
            assert(rest.skip(to - from) =~= s@.skip(to as int));
            assert(rest.take(to - from) =~= all@.subrange(from as int, to as int));
        }
        if from < to {
            out.push(string_from(&all, from, to));
            assert(texts(out@) =~= before_push.push(all@.subrange(from as int, to as int)));
        } else {
            assert(s@.skip(to as int) =~= Seq::<char>::empty());
        }
        at = to;
    }
    assert(s@.skip(at as int) =~= Seq::<char>::empty());
    out
}

// Joining.

/// `parts` in order, with `sep` between every two neighbours.
pub open spec fn joined(parts: Seq<Seq<char>>, sep: Seq<char>) -> Seq<char>
    decreases parts.len(),
{
    if parts.len() == 0 {
        Seq::empty()
    } else if parts.len() == 1 {
        parts[0]
    } else {
        parts[0] + sep + joined(parts.drop_first(), sep)
    }
}

proof fn lemma_joined_push(parts: Seq<Seq<char>>, part: Seq<char>, sep: Seq<char>)
    requires
        parts.len() > 0,
    ensures
        joined(parts.push(part), sep) == joined(parts, sep) + sep + part,
    decreases parts.len(),
{
    let longer = parts.push(part);
    assert(longer.drop_first() =~= parts.drop_first().push(part));
    if parts.len() == 1 {
        assert(longer.drop_first() =~= seq![part]);
        assert(joined(longer.drop_first(), sep) == part);
    } else {
        lemma_joined_push(parts.drop_first(), part, sep);
        assert(joined(longer, sep) =~= joined(parts, sep) + sep + part);
    }
}

pub fn join(parts: &Vec<String>, sep: &str) -> (result: String)
    ensures
        result@ == joined(texts(parts@), sep@),
{
    let mut out = String::new();
    let mut i: usize = 0;
    while i < parts.len()
        invariant
            i <= parts.len(),
            out@ == joined(texts(parts@).take(i as int), sep@),
        decreases parts.len() - i,
    {
        let ghost done = texts(parts@).take(i as int);
        if i > 0 {
            out.append(sep);
        }
        out.append(parts[i].as_str());
        proof {
            assert(texts(parts@).take(i + 1) =~= done.push(parts@[i as int]@));
            if i > 0 {
                lemma_joined_push(done, parts@[i as int]@, sep@);
            } else {
                assert(done.push(parts@[i as int]@) =~= seq![parts@[i as int]@]);
                assert(out@ =~= parts@[i as int]@);
            }
        }
        i = i + 1;
    }
    assert(texts(parts@).take(i as int) =~= texts(parts@));
    out
}

/// A text that `lines_of` takes for one line: not empty, without a line feed,
/// and without a carriage return at its end.
pub open spec fn is_line(s: Seq<char>) -> bool {
    &&& s.len() > 0
    &&& s.last() != '\r'
    &&& forall|i: int| 0 <= i < s.len() ==> #[trigger] s[i] != '\n'
}

/// Lines joined by line feeds come apart into the same lines.
pub proof fn law_lines_of_joined(lines: Seq<Seq<char>>)
    requires
        forall|i: int| 0 <= i < lines.len() ==> is_line(#[trigger] lines[i]),
    ensures
        lines_of(joined(lines, seq!['\n'])) == lines,
    decreases lines.len(),
{
    let s = joined(lines, seq!['\n']);
    if lines.len() > 0 {
        let first = lines[0];
        assert(is_line(first));
        assert forall|j: int| 0 <= j < first.len() implies chars::other_than('\n')(
            #[trigger] s[j],
        ) by {
            assert(s[j] == first[j]);
        }
        chars::lemma_prefix_len_is(s, chars::other_than('\n'), first.len() as int);
        if lines.len() == 1 {
            assert(lines =~= seq![s]);
        } else {
            let others = lines.drop_first();
            assert forall|i: int| 0 <= i < others.len() implies is_line(#[trigger] others[i]) by {
                assert(others[i] == lines[i + 1]);
            }
            law_lines_of_joined(others);
            assert(s.take(first.len() as int) =~= first);
            assert(s.skip(first.len() as int + 1) =~= joined(others, seq!['\n']));
            assert(lines =~= seq![first] + others);
        }
    } else {
        assert(lines =~= Seq::<Seq<char>>::empty());
    }
}

/// A text that was trimmed does not end in white space.
pub proof fn lemma_trimmed_end(s: Seq<char>)
    ensures
        trimmed(s).len() > 0 ==> !chars::is_white_space(trimmed(s).last()),
{
    let rest = s.skip(chars::prefix_len(s, chars::white_space()));
    chars::lemma_suffix_len(rest, chars::white_space());
}

/// A text that `words_of` cannot take apart: not empty, and without ASCII
/// white space.
pub open spec fn is_word(s: Seq<char>) -> bool {
    &&& s.len() > 0
    &&& forall|i: int| 0 <= i < s.len() ==> !chars::is_ascii_space(#[trigger] s[i])
}

/// Words joined by single spaces come apart into the same words.
pub proof fn law_words_of_joined(words: Seq<Seq<char>>)
    requires
        forall|i: int| 0 <= i < words.len() ==> is_word(#[trigger] words[i]),
    ensures
        words_of(joined(words, seq![' '])) == words,
    decreases words.len(),
{
    let s = joined(words, seq![' ']);
    if words.len() > 0 {
        let first = words[0];
        assert(is_word(first));
        assert(s.len() > 0 && s[0] == first[0]);
        chars::lemma_prefix_len_is(s, chars::ascii_space(), 0);
        assert(s.skip(0) =~= s);
        assert forall|j: int| 0 <= j < first.len() implies chars::not_ascii_space()(
            #[trigger] s[j],
        ) by {
            assert(s[j] == first[j]);
        }
        chars::lemma_prefix_len_is(s, chars::not_ascii_space(), first.len() as int);
        assert(s.take(first.len() as int) =~= first);
        let after = s.skip(first.len() as int);
        assert(words_of(s) == seq![first] + words_of(after));
        if words.len() == 1 {
            assert(after =~= Seq::<char>::empty());
            assert(after.skip(chars::prefix_len(after, chars::ascii_space())) =~= after);
            assert(words_of(after) =~= Seq::<Seq<char>>::empty());
            assert(words =~= seq![first]);
        } else {
            let others = words.drop_first();
            let tail = joined(others, seq![' ']);
            assert forall|i: int| 0 <= i < others.len() implies is_word(#[trigger] others[i]) by {
                assert(others[i] == words[i + 1]);
            }
            law_words_of_joined(others);
            assert(after =~= seq![' '] + tail);
            lemma_words_of_after_space(tail);
            assert(words =~= seq![first] + others);
        }
    } else {
        assert(s.skip(chars::prefix_len(s, chars::ascii_space())) =~= s);
        assert(words =~= Seq::<Seq<char>>::empty());
    }
}

proof fn lemma_words_of_after_space(s: Seq<char>)
    ensures
        words_of(seq![' '] + s) == words_of(s),
{
    let longer = seq![' '] + s;
    assert(longer.drop_first() =~= s);
    chars::lemma_prefix_len(s, chars::ascii_space());
    let n = chars::prefix_len(s, chars::ascii_space());
    assert(chars::prefix_len(longer, chars::ascii_space()) == n + 1);
    assert(longer.skip(n + 1) =~= s.skip(n));
}

/// Every word of a text is one that cannot be taken apart further.
pub proof fn lemma_words_of_are_words(s: Seq<char>)
    ensures
        forall|i: int| 0 <= i < words_of(s).len() ==> is_word(#[trigger] words_of(s)[i]),
    decreases s.len(),
{
    let rest = s.skip(chars::prefix_len(s, chars::ascii_space()));
    let n = chars::prefix_len(rest, chars::not_ascii_space());
    chars::lemma_prefix_len(s, chars::ascii_space());
    if rest.len() > 0 {
        chars::lemma_prefix_len(rest, chars::not_ascii_space());
        assert(rest[0] == s[chars::prefix_len(s, chars::ascii_space())]);
        let first = rest.take(n);
        assert forall|i: int| 0 <= i < first.len() implies !chars::is_ascii_space(
            #[trigger] first[i],
        ) by {
            assert(chars::not_ascii_space()(rest[i]));
        }
        lemma_words_of_are_words(rest.skip(n));
        let others = words_of(rest.skip(n));
        assert forall|i: int| 0 <= i < words_of(s).len() implies is_word(
            #[trigger] words_of(s)[i],
        ) by {
            if i > 0 {
                assert(words_of(s)[i] == others[i - 1]);
            }
        }
    }
}

}
