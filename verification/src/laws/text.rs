//! Laws of strings and numbers.

use vstd::prelude::*;

use crate::chars;
use crate::decimal;
use crate::text;

verus! {

/// Strings are read one for one, and every character of them.
pub proof fn law_strings_are_read_whole(strings: Seq<String>, optional: Option<String>)
    ensures
        text::texts(strings).len() == strings.len(),
        forall|i: int| 0 <= i < strings.len() ==> #[trigger] text::texts(strings)[i] == strings[i]@,
        text::text_of(optional) is Some <==> optional is Some,
        optional matches Some(s) ==> text::text_of(optional) == Some(s@),
{
}

/// A list of strings that may be missing is read where it is there.
pub proof fn law_optional_strings_are_read_whole(strings: Option<Vec<String>>)
    ensures
        text::texts_of(strings) is Some <==> strings is Some,
        strings matches Some(list) ==> text::texts_of(strings)->0.len() == list@.len()
            && forall|i: int|
            0 <= i < list@.len() ==> #[trigger] text::texts_of(strings)->0[i] == list@[i]@,
{
}

/// The classes of characters by their numbers in Unicode: the 25 characters of
/// white space, the 65 control characters, the five of ASCII white space and the
/// 62 letters and digits of ASCII.
pub proof fn law_classes_of_characters(c: char)
    ensures
        chars::is_white_space(c) <==> set![
            9u32, 10u32, 11u32, 12u32, 13u32, 32u32, 133u32, 160u32, 5760u32, 8192u32, 8193u32,
            8194u32, 8195u32, 8196u32, 8197u32, 8198u32, 8199u32, 8200u32, 8201u32, 8202u32,
            8232u32, 8233u32, 8239u32, 8287u32, 12288u32,
        ].contains(c as u32),
        chars::is_control_char(c) <==> (c as u32) < 32 || 127 <= (c as u32) < 160,
        chars::is_ascii_space(c) <==> set![9u32, 10u32, 12u32, 13u32, 32u32].contains(c as u32),
        chars::is_digit(c) <==> 48 <= (c as u32) < 58,
        chars::is_ascii_alphanumeric(c) <==> 48 <= (c as u32) < 58 || 65 <= (c as u32) < 91 || 97
            <= (c as u32) < 123,
        65 <= (c as u32) < 91 ==> chars::ascii_lower(c) as u32 == c as u32 + 32,
        !(65 <= (c as u32) < 91) ==> chars::ascii_lower(c) == c,
{
}

/// Trimming takes the white space around a text away, whatever it is, and
/// nothing else.
pub proof fn law_trimming_keeps_the_core(left: Seq<char>, core: Seq<char>, right: Seq<char>)
    requires
        forall|i: int| 0 <= i < left.len() ==> chars::is_white_space(#[trigger] left[i]),
        forall|i: int| 0 <= i < right.len() ==> chars::is_white_space(#[trigger] right[i]),
        core.len() > 0 ==> !chars::is_white_space(core[0]) && !chars::is_white_space(core.last()),
    ensures
        text::trimmed(left + core + right) == core,
{
    let s = left + core + right;
    if core.len() == 0 {
        assert forall|i: int| 0 <= i < s.len() implies chars::white_space()(#[trigger] s[i]) by {
            if i < left.len() {
                assert(s[i] == left[i]);
            } else {
                assert(s[i] == right[i - left.len()]);
            }
        }
        chars::lemma_prefix_len_is(s, chars::white_space(), s.len() as int);
        let rest = s.skip(s.len() as int);
        chars::lemma_suffix_len(rest, chars::white_space());
        assert(text::trimmed(s) =~= core);
    } else {
        assert forall|i: int| 0 <= i < left.len() implies chars::white_space()(#[trigger] s[i]) by {
            assert(s[i] == left[i]);
        }
        assert(s[left.len() as int] == core[0]);
        chars::lemma_prefix_len_is(s, chars::white_space(), left.len() as int);
        let rest = s.skip(left.len() as int);
        assert(rest =~= core + right);
        assert forall|i: int| core.len() <= i < rest.len() implies chars::white_space()(
            #[trigger] rest[i],
        ) by {
            assert(rest[i] == right[i - core.len()]);
        }
        assert(rest[core.len() - 1] == core.last());
        chars::lemma_suffix_len_is(rest, chars::white_space(), right.len() as int);
        assert(text::trimmed(s) =~= core);
    }
}

/// Every text is its trimmed text between white space, and the trimmed text has
/// none at its ends.
pub proof fn law_trimming_takes_only_white_space(s: Seq<char>)
    ensures
        exists|left: Seq<char>, right: Seq<char>|
            s == #[trigger] (left + text::trimmed(s) + right) && (forall|i: int|
                0 <= i < left.len() ==> chars::is_white_space(#[trigger] left[i])) && (forall|
                i: int,
            |
                0 <= i < right.len() ==> chars::is_white_space(#[trigger] right[i])),
        text::trimmed(s).len() > 0 ==> !chars::is_white_space(text::trimmed(s)[0])
            && !chars::is_white_space(text::trimmed(s).last()),
{
    let p = chars::prefix_len(s, chars::white_space());
    chars::lemma_prefix_len(s, chars::white_space());
    let rest = s.skip(p);
    let q = chars::suffix_len(rest, chars::white_space());
    chars::lemma_suffix_len(rest, chars::white_space());
    let left = s.take(p);
    let right = rest.skip(rest.len() - q);
    assert forall|i: int| 0 <= i < left.len() implies chars::is_white_space(#[trigger] left[i]) by {
        assert(chars::white_space()(s[i]));
    }
    assert forall|i: int| 0 <= i < right.len() implies chars::is_white_space(
        #[trigger] right[i],
    ) by {
        assert(chars::white_space()(rest[rest.len() - q + i]));
    }
    assert(s =~= left + text::trimmed(s) + right);
    if text::trimmed(s).len() > 0 {
        assert(text::trimmed(s)[0] == s[p]);
        assert(text::trimmed(s).last() == rest[rest.len() - q - 1]);
    }
}

/// What stands before a character is everything up to its first occurrence.
pub proof fn law_text_before_a_character(head: Seq<char>, c: char, tail: Seq<char>)
    requires
        !head.contains(c),
    ensures
        text::before(head + seq![c] + tail, c) == head,
        text::before(head, c) == head,
{
    let s = head + seq![c] + tail;
    assert forall|i: int| 0 <= i < head.len() implies head[i] != c by {
        assert(head.contains(head[i]));
    }
    assert forall|i: int| 0 <= i < head.len() implies chars::other_than(c)(#[trigger] s[i]) by {
        assert(s[i] == head[i]);
    }
    assert(s[head.len() as int] == c);
    chars::lemma_prefix_len_is(s, chars::other_than(c), head.len() as int);
    chars::lemma_prefix_len_is(head, chars::other_than(c), head.len() as int);
    assert(s.take(head.len() as int) =~= head);
    assert(head.take(head.len() as int) =~= head);
}

// Lines.

/// A line and its ending come off the start of a text; a carriage return before
/// the line feed belongs to the ending. What has no ending is one line.
pub proof fn law_first_line(line: Seq<char>, rest: Seq<char>)
    requires
        !line.contains('\n'),
    ensures
        line.len() == 0 || line.last() != '\r' ==> text::lines_of(line + seq!['\n'] + rest)
            == seq![line] + text::lines_of(rest),
        text::lines_of(line + seq!['\r', '\n'] + rest) == seq![line] + text::lines_of(rest),
        line.len() > 0 ==> text::lines_of(line) == seq![line],
        text::lines_of(Seq::<char>::empty()) == Seq::<Seq<char>>::empty(),
{
    assert forall|i: int| 0 <= i < line.len() implies line[i] != '\n' by {
        assert(line.contains(line[i]));
    }
    let s = line + seq!['\n'] + rest;
    assert forall|i: int| 0 <= i < line.len() implies chars::other_than('\n')(#[trigger] s[i]) by {
        assert(s[i] == line[i]);
    }
    chars::lemma_prefix_len_is(s, chars::other_than('\n'), line.len() as int);
    assert(s.take(line.len() as int) =~= line);
    assert(s.skip(line.len() as int + 1) =~= rest);
    let t = line + seq!['\r', '\n'] + rest;
    let n = line.len() as int + 1;
    assert forall|i: int| 0 <= i < n implies chars::other_than('\n')(#[trigger] t[i]) by {
        if i < line.len() {
            assert(t[i] == line[i]);
        }
    }
    chars::lemma_prefix_len_is(t, chars::other_than('\n'), n);
    assert(t.take(n) =~= line.push('\r'));
    assert(line.push('\r').drop_last() =~= line);
    assert(t.skip(n + 1) =~= rest);
    chars::lemma_prefix_len_is(line, chars::other_than('\n'), line.len() as int);
}

/// Texts one after the other, the first of which ends with a line feed, have the
/// lines of the first and then those of the second.
pub proof fn law_lines_add_up(first: Seq<char>, second: Seq<char>)
    requires
        first.len() > 0 ==> first.last() == '\n',
    ensures
        text::lines_of(first + second) == text::lines_of(first) + text::lines_of(second),
    decreases first.len(),
{
    if first.len() == 0 {
        assert(first + second =~= second);
        assert(text::lines_of(first) + text::lines_of(second) =~= text::lines_of(second));
    } else {
        let p = chars::other_than('\n');
        let n = chars::prefix_len(first, p);
        chars::lemma_prefix_len(first, p);
        if n == first.len() {
            assert(p(first[n - 1]));
        }
        let all = first + second;
        assert forall|j: int| 0 <= j < n implies p(#[trigger] all[j]) by {
            assert(all[j] == first[j]);
        }
        assert(all[n] == first[n]);
        chars::lemma_prefix_len_is(all, p, n);
        assert(all.take(n) =~= first.take(n));
        assert(all.skip(n + 1) =~= first.skip(n + 1) + second);
        law_lines_add_up(first.skip(n + 1), second);
        assert(text::lines_of(all) =~= text::lines_of(first) + text::lines_of(second));
    }
}

/// A line that stands between lines is among the lines of the text.
pub proof fn lemma_line_between(head: Seq<char>, line: Seq<char>, tail: Seq<char>)
    requires
        head.len() > 0 ==> head.last() == '\n',
        !line.contains('\n'),
        line.len() == 0 || line.last() != '\r',
    ensures
        text::lines_of(head + line + seq!['\n'] + tail) == text::lines_of(head) + seq![line]
            + text::lines_of(tail),
{
    assert(head + line + seq!['\n'] + tail =~= head + (line + seq!['\n'] + tail));
    law_lines_add_up(head, line + seq!['\n'] + tail);
    law_first_line(line, tail);
    assert(text::lines_of(head) + (seq![line] + text::lines_of(tail)) =~= text::lines_of(head)
        + seq![line] + text::lines_of(tail));
}

// Words.

/// A word is at least one character and no ASCII white space.
pub proof fn law_words_hold_no_space(s: Seq<char>)
    ensures
        text::is_word(s) <==> s.len() > 0 && !s.contains(' ') && !s.contains('\t') && !s.contains(
            '\n',
        ) && !s.contains('\u{c}') && !s.contains('\r'),
{
    if text::is_word(s) {
        assert forall|c: char| #[trigger] s.contains(c) implies !chars::is_ascii_space(c) by {
            let i = choose|i: int| 0 <= i < s.len() && s[i] == c;
            assert(!chars::is_ascii_space(s[i]));
        }
    }
    if s.len() > 0 && !s.contains(' ') && !s.contains('\t') && !s.contains('\n') && !s.contains(
        '\u{c}',
    ) && !s.contains('\r') {
        assert forall|i: int| 0 <= i < s.len() implies !chars::is_ascii_space(#[trigger] s[i]) by {
            assert(s.contains(s[i]));
        }
    }
}

/// Texts with ASCII white space between them have the words of both; a word has
/// itself, and nothing has none.
pub proof fn law_words_add_up(first: Seq<char>, space: char, second: Seq<char>)
    requires
        chars::is_ascii_space(space),
    ensures
        text::words_of(first + seq![space] + second) == text::words_of(first) + text::words_of(
            second,
        ),
        text::is_word(first) ==> text::words_of(first) == seq![first],
        text::words_of(Seq::<char>::empty()) == Seq::<Seq<char>>::empty(),
    decreases first.len(),
{
    let sp = chars::ascii_space();
    let ns = chars::not_ascii_space();
    let none = Seq::<char>::empty();
    assert(none.skip(chars::prefix_len(none, sp)) =~= none);
    assert(text::words_of(none) =~= Seq::<Seq<char>>::empty());
    let all = first + seq![space] + second;
    let k = chars::prefix_len(first, sp);
    chars::lemma_prefix_len(first, sp);
    let rest = first.skip(k);
    if rest.len() == 0 {
        // The first text is all white space.
        let m = chars::prefix_len(second, sp);
        chars::lemma_prefix_len(second, sp);
        let skipped = first.len() + 1 + m;
        assert forall|j: int| 0 <= j < skipped implies sp(#[trigger] all[j]) by {
            if j < first.len() {
                assert(all[j] == first[j]);
            } else if j > first.len() {
                assert(all[j] == second[j - first.len() - 1]);
            }
        }
        if skipped < all.len() {
            assert(all[skipped] == second[m]);
        }
        chars::lemma_prefix_len_is(all, sp, skipped);
        assert(all.skip(skipped) =~= second.skip(m));
        assert(text::words_of(first) =~= Seq::<Seq<char>>::empty());
        assert(text::words_of(first) + text::words_of(second) =~= text::words_of(second));
        if text::is_word(first) {
            assert(!chars::is_ascii_space(first[0]));
        }
    } else {
        let n = chars::prefix_len(rest, ns);
        chars::lemma_prefix_len(rest, ns);
        assert(rest[0] == first[k]);
        assert(n > 0);
        let word = rest.take(n);
        let later = rest.skip(n);
        assert(text::words_of(first) == seq![word] + text::words_of(later));
        assert forall|j: int| 0 <= j < k implies sp(#[trigger] all[j]) by {
            assert(all[j] == first[j]);
        }
        assert(all[k] == first[k]);
        chars::lemma_prefix_len_is(all, sp, k);
        let all_rest = all.skip(k);
        assert(all_rest =~= rest + seq![space] + second);
        assert forall|j: int| 0 <= j < n implies ns(#[trigger] all_rest[j]) by {
            assert(all_rest[j] == rest[j]);
        }
        if n < rest.len() {
            assert(all_rest[n] == rest[n]);
        } else {
            assert(all_rest[n] == space);
        }
        chars::lemma_prefix_len_is(all_rest, ns, n);
        assert(all_rest.take(n) =~= word);
        assert(all_rest.skip(n) =~= later + seq![space] + second);
        assert(text::words_of(all) == seq![word] + text::words_of(later + seq![space] + second));
        law_words_add_up(later, space, second);
        assert(text::words_of(all) =~= text::words_of(first) + text::words_of(second));
        if text::is_word(first) {
            chars::lemma_prefix_len_is(first, sp, 0);
            assert(rest =~= first);
            assert forall|j: int| 0 <= j < first.len() implies ns(#[trigger] rest[j]) by {
                assert(rest[j] == first[j]);
            }
            chars::lemma_prefix_len_is(rest, ns, first.len() as int);
            assert(word =~= first);
            assert(later =~= none);
            assert(text::words_of(first) =~= seq![first]);
        }
    }
}

/// Joining two lists of texts puts the separator between what each of them
/// joins to; one text joins to itself.
pub proof fn law_joining_adds_up(first: Seq<Seq<char>>, second: Seq<Seq<char>>, sep: Seq<char>)
    ensures
        first.len() > 0 && second.len() > 0 ==> text::joined(first + second, sep) == text::joined(
            first,
            sep,
        ) + sep + text::joined(second, sep),
        first.len() == 1 ==> text::joined(first, sep) == first[0],
        first.len() == 0 ==> text::joined(first, sep) == Seq::<char>::empty(),
    decreases first.len(),
{
    if first.len() > 0 && second.len() > 0 {
        let all = first + second;
        assert(all.drop_first() =~= first.drop_first() + second);
        if first.len() == 1 {
            assert(first.drop_first() + second =~= second);
        } else {
            law_joining_adds_up(first.drop_first(), second, sep);
            assert(text::joined(all, sep) =~= text::joined(first, sep) + sep + text::joined(
                second,
                sep,
            ));
        }
    }
}

/// Texts are the same but for case where every character is the same, or one
/// the lower-case letter of the other.
pub proof fn law_case_is_ignored_letter_by_letter(a: Seq<char>, b: Seq<char>)
    ensures
        text::same_ignoring_ascii_case(a, b) <==> a.len() == b.len() && forall|i: int|
            0 <= i < a.len() ==> (#[trigger] a[i] == b[i] || ('A' <= a[i] <= 'Z' && b[i] as u32
                == a[i] as u32 + 32) || ('A' <= b[i] <= 'Z' && a[i] as u32 == b[i] as u32 + 32)),
{
    if text::same_ignoring_ascii_case(a, b) {
        assert forall|i: int| 0 <= i < a.len() implies (#[trigger] a[i] == b[i] || ('A' <= a[i]
            <= 'Z' && b[i] as u32 == a[i] as u32 + 32) || ('A' <= b[i] <= 'Z' && a[i] as u32
            == b[i] as u32 + 32)) by {
            assert(chars::ascii_lower(a[i]) == chars::ascii_lower(b[i]));
        }
    }
}

// Numbers.

/// A text is a number exactly where it is one digit or more, with at most a plus
/// sign before them.
pub proof fn law_numbers_are_digits(s: Seq<char>)
    ensures
        decimal::number_of(s) is Some <==> {
            let from: int = if s.len() > 0 && s[0] == '+' {
                1
            } else {
                0
            };
            s.len() > from && forall|i: int| from <= i < s.len() ==> '0' <= #[trigger] s[i] <= '9'
        },
{
    let digits = decimal::unsigned(s);
    let from: int = if s.len() > 0 && s[0] == '+' {
        1
    } else {
        0
    };
    assert(digits =~= s.skip(from));
    if decimal::number_of(s) is Some {
        assert forall|i: int| from <= i < s.len() implies '0' <= #[trigger] s[i] <= '9' by {
            assert(chars::is_digit(digits[i - from]));
        }
    } else if s.len() > from {
        let i = choose|i: int| 0 <= i < digits.len() && !chars::is_digit(#[trigger] digits[i]);
        assert(s[i + from] == digits[i]);
    }
}

/// One more digit multiplies a number by ten and adds the digit; a single digit
/// is its distance from zero. A plus sign changes nothing.
pub proof fn law_digits_count_in_tens(digits: Seq<char>, digit: char)
    requires
        '0' <= digit <= '9',
        forall|i: int| 0 <= i < digits.len() ==> '0' <= #[trigger] digits[i] <= '9',
    ensures
        decimal::number_of(seq![digit]) == Some((digit as u32 - '0' as u32) as nat),
        digits.len() > 0 ==> decimal::number_of(digits.push(digit)) == Some(
            (10 * decimal::number_of(digits)->0 + (digit as u32 - '0' as u32)) as nat,
        ),
        digits.len() > 0 ==> decimal::number_of(seq!['+'] + digits) == decimal::number_of(digits),
{
    let one = seq![digit];
    assert(decimal::unsigned(one) =~= one);
    assert(one.drop_last() =~= Seq::<char>::empty());
    assert(decimal::digits_value(one) == 10 * decimal::digits_value(one.drop_last())
        + decimal::digit_value(digit));
    assert(decimal::are_digits(one));
    if digits.len() > 0 {
        let more = digits.push(digit);
        assert(digits[0] != '+');
        assert(more[0] == digits[0]);
        assert(decimal::are_digits(digits));
        assert forall|i: int| 0 <= i < more.len() implies chars::is_digit(#[trigger] more[i]) by {
            if i < digits.len() {
                assert(more[i] == digits[i]);
            }
        }
        assert(more.drop_last() =~= digits);
        assert((seq!['+'] + digits).drop_first() =~= digits);
    }
}

/// The notation of a number is digits alone, the first of which is zero only
/// where the number is.
pub proof fn law_decimal_notation_is_shortest(n: nat)
    ensures
        decimal::number_of(decimal::decimal(n)) == Some(n),
        forall|i: int|
            0 <= i < decimal::decimal(n).len() ==> '0' <= #[trigger] decimal::decimal(n)[i] <= '9',
        n > 0 ==> decimal::decimal(n)[0] != '0',
        n == 0 ==> decimal::decimal(n) == seq!['0'],
    decreases n,
{
    decimal::law_number_of_decimal(n);
    if n >= 10 {
        law_decimal_notation_is_shortest(n / 10);
        decimal::law_number_of_decimal(n / 10);
        assert(decimal::decimal(n / 10).len() > 0);
    }
}

}
