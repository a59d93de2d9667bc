//! Reading text: searching, trimming, splitting, and decimal numbers.
//!
//! Text is a sequence of characters. The executable functions work on the
//! characters of a string, collected once with [`chars_of`].

use vstd::prelude::*;
use vstd::string::StrSliceExecFns;
use vstd::string::StringExecFns;

use crate::command::texts;

verus! {

/// Whether `pattern` stands in `text` at position `at`.
pub open spec fn occurs_at(text: Seq<char>, pattern: Seq<char>, at: int) -> bool {
    0 <= at && at + pattern.len() <= text.len() && text.subrange(at, at + pattern.len())
        == pattern
}

/// Whether `pattern` stands somewhere in `text`.
pub open spec fn contains(text: Seq<char>, pattern: Seq<char>) -> bool {
    exists|at: int| occurs_at(text, pattern, at)
}

/// Whether `text` begins with `pattern`.
pub open spec fn starts_with(text: Seq<char>, pattern: Seq<char>) -> bool {
    occurs_at(text, pattern, 0)
}

/// The lowercase form of a text, as the standard library computes it from the
/// Unicode character database.
pub uninterp spec fn lowercase(text: Seq<char>) -> Seq<char>;

/// Calls `str::to_lowercase`. The contract only names the result: the
/// lowercase form of a text is a function of the text alone.
#[verifier::external_body]
pub(crate) fn to_lowercase(text: &str) -> (lowered: String)
    ensures
        lowered@ == lowercase(text@),
{
    text.to_lowercase()
}

/// The characters of a string.
pub fn chars_of(text: &str) -> (chars: Vec<char>)
    ensures
        chars@ == text@,
{
    let mut chars: Vec<char> = Vec::new();
    for c in it: text.chars()
        invariant
            it.seq() == text@,
            chars@ == it.seq().take(it.index() as int),
    {
        chars.push(c);
    }
    chars
}

/// Whether two strings hold the same text.
pub fn same_text(a: &str, b: &str) -> (same: bool)
    ensures
        same == (a@ == b@),
{
    let x = String::from_str(a);
    let y = String::from_str(b);
    x == y
}

/// One text after the other.
pub fn glue(a: &str, b: &str) -> (joined: String)
    ensures
        joined@ == a@ + b@,
{
    let mut joined = String::from_str(a);
    joined.append(b);
    joined
}

/// Three texts in a row.
pub fn glue3(a: &str, b: &str, c: &str) -> (joined: String)
    ensures
        joined@ == a@ + b@ + c@,
{
    let mut joined = String::from_str(a);
    joined.append(b);
    joined.append(c);
    joined
}

/// Whether `pattern` stands in `text` at position `at`.
pub fn matches_at(text: &Vec<char>, pattern: &Vec<char>, at: usize) -> (found: bool)
    ensures
        found == occurs_at(text@, pattern@, at as int),
{
    if pattern.len() > text.len() || at > text.len() - pattern.len() {
        return false;
    }
    let size: usize = text.len();
    let mut k: usize = 0;
    while k < pattern.len()
        invariant
            k <= pattern@.len(),
            size == text@.len(),
            at + pattern@.len() <= text@.len(),
            forall|j: int| 0 <= j < k ==> text@[at + j] == pattern@[j],
        decreases pattern@.len() - k,
    {
        if text[at + k] != pattern[k] {
            return false;
        }
        k += 1;
    }
    assert(text@.subrange(at as int, at + pattern@.len()) =~= pattern@);
    true
}

/// Whether `pattern` stands somewhere in `text`.
pub fn holds(text: &Vec<char>, pattern: &str) -> (found: bool)
    ensures
        found == contains(text@, pattern@),
{
    let sought = chars_of(pattern);
    if sought.len() > text.len() {
        return false;
    }
    if sought.len() == 0 {
        assert(text@.subrange(0, 0) =~= sought@);
        assert(occurs_at(text@, pattern@, 0));
        return true;
    }
    let size: usize = text.len();
    let last: usize = size - sought.len();
    let mut at: usize = 0;
    while at <= last
        invariant
            at <= last + 1,
            size == text@.len(),
            sought@ == pattern@,
            0 < sought@.len() <= text@.len(),
            last == text@.len() - sought@.len(),
            forall|j: int| 0 <= j < at ==> !occurs_at(text@, pattern@, j),
        decreases last + 1 - at,
    {
        if matches_at(text, &sought, at) {
            return true;
        }
        at += 1;
    }
    false
}

/// Whether `pattern` stands somewhere in `text`.
pub fn str_contains(text: &str, pattern: &str) -> (found: bool)
    ensures
        found == contains(text@, pattern@),
{
    let chars = chars_of(text);
    holds(&chars, pattern)
}

/// Whether `text` begins with `pattern`.
pub fn str_starts_with(text: &str, pattern: &str) -> (found: bool)
    ensures
        found == starts_with(text@, pattern@),
{
    let chars = chars_of(text);
    let sought = chars_of(pattern);
    matches_at(&chars, &sought, 0)
}

/// Whether the character is white space: the characters to which the Unicode
/// character database gives the property White_Space.
pub open spec fn is_space(c: char) -> bool {
    let code = c as u32;
    ||| 0x09 <= code <= 0x0D
    ||| code == 0x20
    ||| code == 0x85
    ||| code == 0xA0
    ||| code == 0x1680
    ||| 0x2000 <= code <= 0x200A
    ||| code == 0x2028
    ||| code == 0x2029
    ||| code == 0x202F
    ||| code == 0x205F
    ||| code == 0x3000
}

/// Whether the character is white space.
pub fn space(c: char) -> (yes: bool)
    ensures
        yes == is_space(c),
{
    let code: u32 = c as u32;
    (0x09 <= code && code <= 0x0D) || code == 0x20 || code == 0x85 || code == 0xA0 || code
        == 0x1680 || (0x2000 <= code && code <= 0x200A) || code == 0x2028 || code == 0x2029
        || code == 0x202F || code == 0x205F || code == 0x3000
}

/// How many characters of white space `text` begins with.
pub open spec fn leading_spaces(text: Seq<char>) -> nat
    decreases text.len(),
{
    if text.len() > 0 && is_space(text[0]) {
        1 + leading_spaces(text.skip(1))
    } else {
        0
    }
}

/// How many characters of white space `text` ends with.
pub open spec fn trailing_spaces(text: Seq<char>) -> nat
    decreases text.len(),
{
    if text.len() > 0 && is_space(text.last()) {
        1 + trailing_spaces(text.drop_last())
    } else {
        0
    }
}

/// `text` without the white space it begins and ends with.
pub open spec fn trim(text: Seq<char>) -> Seq<char> {
    let rest = text.skip(leading_spaces(text) as int);
    rest.take(rest.len() - trailing_spaces(rest))
}

/// The white space that `text` begins with is white space, and what
/// follows it is none.
pub proof fn lemma_leading_spaces(text: Seq<char>)
    ensures
        leading_spaces(text) <= text.len(),
        forall|i: int| 0 <= i < leading_spaces(text) ==> is_space(#[trigger] text[i]),
        leading_spaces(text) < text.len() ==> !is_space(text[leading_spaces(text) as int]),
    decreases text.len(),
{
    if text.len() > 0 && is_space(text[0]) {
        let rest = text.skip(1);
        lemma_leading_spaces(rest);
        assert forall|i: int| 0 <= i < leading_spaces(text) implies is_space(
            #[trigger] text[i],
        ) by {
            if i > 0 {
                assert(text[i] == rest[i - 1]);
            }
        }
        if leading_spaces(text) < text.len() {
            assert(text[leading_spaces(text) as int] == rest[leading_spaces(rest) as int]);
        }
    }
}

/// The white space that `text` ends with is white space, and what stands
/// before it is none.
pub proof fn lemma_trailing_spaces(text: Seq<char>)
    ensures
        trailing_spaces(text) <= text.len(),
        forall|i: int|
            text.len() - trailing_spaces(text) <= i < text.len() ==> is_space(#[trigger] text[i]),
        trailing_spaces(text) < text.len() ==> !is_space(
            text[text.len() - trailing_spaces(text) - 1],
        ),
    decreases text.len(),
{
    if text.len() > 0 && is_space(text.last()) {
        let rest = text.drop_last();
        lemma_trailing_spaces(rest);
        assert forall|i: int|
            text.len() - trailing_spaces(text) <= i < text.len() implies is_space(
            #[trigger] text[i],
        ) by {
            if i < text.len() - 1 {
                assert(text[i] == rest[i]);
            }
        }
        if trailing_spaces(text) < text.len() {
            assert(text[text.len() - trailing_spaces(text) - 1] == rest[rest.len()
                - trailing_spaces(rest) - 1]);
        }
    }
}

/// A trimmed text is a part of the text, between white space on both sides,
/// that neither begins nor ends with white space.
pub proof fn lemma_trim_has_no_margin(text: Seq<char>)
    ensures
        trim(text).len() > 0 ==> !is_space(trim(text)[0]) && !is_space(trim(text).last()),
        exists|from: int, to: int|
            0 <= from <= to <= text.len() && trim(text) == #[trigger] text.subrange(from, to) && (
            forall|i: int| 0 <= i < from ==> is_space(#[trigger] text[i])) && (forall|i: int|
                to <= i < text.len() ==> is_space(#[trigger] text[i])),
{
    lemma_leading_spaces(text);
    let from = leading_spaces(text) as int;
    let rest = text.skip(from);
    lemma_trailing_spaces(rest);
    let to = text.len() - trailing_spaces(rest);
    assert(trim(text) =~= text.subrange(from, to));
    assert forall|i: int| to <= i < text.len() implies is_space(#[trigger] text[i]) by {
        assert(text[i] == rest[i - from]);
    }
    if trim(text).len() > 0 {
        assert(trim(text)[0] == text[from]);
        assert(trim(text).last() == rest[rest.len() - trailing_spaces(rest) - 1]);
    }
}

/// A run of white space from the start that stops at a character that is
/// none, or at the end, is the white space that `text` begins with.
pub proof fn lemma_leading_spaces_found(text: Seq<char>, n: int)
    requires
        0 <= n <= text.len(),
        forall|i: int| 0 <= i < n ==> is_space(#[trigger] text[i]),
        n < text.len() ==> !is_space(text[n]),
    ensures
        leading_spaces(text) == n,
    decreases text.len(),
{
    if n > 0 {
        assert(is_space(text[0]));
        let rest = text.skip(1);
        assert forall|i: int| 0 <= i < n - 1 implies is_space(#[trigger] rest[i]) by {
            assert(rest[i] == text[i + 1]);
        }
        if n - 1 < rest.len() {
            assert(rest[n - 1] == text[n]);
        }
        lemma_leading_spaces_found(rest, n - 1);
    }
}

/// A run of white space up to the end that starts after a character that is
/// none, or at the start, is the white space that `text` ends with.
pub proof fn lemma_trailing_spaces_found(text: Seq<char>, n: int)
    requires
        0 <= n <= text.len(),
        forall|i: int| text.len() - n <= i < text.len() ==> is_space(#[trigger] text[i]),
        n < text.len() ==> !is_space(text[text.len() - n - 1]),
    ensures
        trailing_spaces(text) == n,
    decreases text.len(),
{
    if n > 0 {
        assert(is_space(text[text.len() - 1]));
        let rest = text.drop_last();
        assert forall|i: int| rest.len() - (n - 1) <= i < rest.len() implies is_space(
            #[trigger] rest[i],
        ) by {
            assert(rest[i] == text[i]);
        }
        if n - 1 < rest.len() {
            assert(rest[rest.len() - (n - 1) - 1] == text[text.len() - n - 1]);
        }
        lemma_trailing_spaces_found(rest, n - 1);
    }
}

/// Where the trimmed part of `text[from..to]` starts and ends.
pub fn trim_bounds(text: &Vec<char>, from: usize, to: usize) -> (bounds: (usize, usize))
    requires
        from <= to <= text@.len(),
    ensures
        from <= bounds.0 <= bounds.1 <= to,
        text@.subrange(bounds.0 as int, bounds.1 as int) == trim(
            text@.subrange(from as int, to as int),
        ),
{
    let ghost part = text@.subrange(from as int, to as int);
    let mut start: usize = from;
    while start < to && space(text[start])
        invariant
            from <= start <= to <= text@.len(),
            forall|i: int| from <= i < start ==> is_space(#[trigger] text@[i]),
        decreases to - start,
    {
        start += 1;
    }
    let mut end: usize = to;
    while end > start && space(text[end - 1])
        invariant
            start <= end <= to <= text@.len(),
            forall|i: int| end <= i < to ==> is_space(#[trigger] text@[i]),
        decreases end - start,
    {
        end -= 1;
    }
    proof {
        assert forall|i: int| 0 <= i < start - from implies is_space(#[trigger] part[i]) by {}
        lemma_leading_spaces_found(part, start - from);
        let rest = part.skip(start - from);
        assert forall|i: int| rest.len() - (to - end) <= i < rest.len() implies is_space(
            #[trigger] rest[i],
        ) by {}
        lemma_trailing_spaces_found(rest, to - end);
    }
    (start, end)
}

/// `text` without the white space it begins and ends with.
pub fn trimmed(text: &str) -> (result: String)
    ensures
        result@ == trim(text@),
{
    let chars = chars_of(text);
    let (start, end) = trim_bounds(&chars, 0, chars.len());
    assert(chars@.subrange(0, chars@.len() as int) =~= chars@);
    String::from_str(text.substring_char(start, end))
}

/// The pieces of `text` between the occurrences of `sep`: one more piece than
/// there are occurrences.
pub open spec fn fields(text: Seq<char>, sep: char) -> Seq<Seq<char>>
    decreases text.len(),
{
    if text.len() == 0 {
        seq![Seq::empty()]
    } else {
        let before = fields(text.drop_last(), sep);
        if text.last() == sep {
            before.push(Seq::empty())
        } else {
            before.drop_last().push(before.last().push(text.last()))
        }
    }
}

/// The pieces of `text` between the occurrences of `sep`.
pub fn split(text: &str, sep: char) -> (pieces: Vec<String>)
    ensures
        texts(pieces@) == fields(text@, sep),
{
    let chars = chars_of(text);
    let size: usize = chars.len();
    let mut pieces: Vec<String> = Vec::new();
    let mut start: usize = 0;
    let mut i: usize = 0;
    assert(chars@.take(0) =~= Seq::<char>::empty());
    while i < size
        invariant
            start <= i <= size,
            size == chars@.len(),
            chars@ == text@,
            fields(chars@.take(i as int), sep) == texts(pieces@).push(
                chars@.subrange(start as int, i as int),
            ),
        decreases size - i,
    {
        let ghost open = chars@.subrange(start as int, i as int);
        let ghost next = chars@.take(i + 1);
        assert(next.drop_last() =~= chars@.take(i as int));
        if chars[i] == sep {
            pieces.push(String::from_str(text.substring_char(start, i)));
            start = i + 1;
            assert(chars@.subrange(start as int, start as int) =~= Seq::<char>::empty());
        } else {
            assert(open.push(chars@[i as int]) =~= chars@.subrange(start as int, i + 1));
        }
        i += 1;
    }
    assert(chars@.take(size as int) =~= chars@);
    pieces.push(String::from_str(text.substring_char(start, size)));
    pieces
}

/// The words of `text`: its longest runs of characters that are not white
/// space.
pub open spec fn tokens(text: Seq<char>) -> Seq<Seq<char>>
    decreases text.len(),
{
    if text.len() == 0 {
        Seq::empty()
    } else {
        let before = tokens(text.drop_last());
        if is_space(text.last()) {
            before
        } else if text.len() >= 2 && !is_space(text[text.len() - 2]) {
            before.drop_last().push(before.last().push(text.last()))
        } else {
            before.push(seq![text.last()])
        }
    }
}

/// The words of `text`.
pub fn split_words(text: &str) -> (found: Vec<String>)
    ensures
        texts(found@) == tokens(text@),
{
    let chars = chars_of(text);
    let size: usize = chars.len();
    let mut found: Vec<String> = Vec::new();
    let mut start: usize = 0;
    let mut inside: bool = false;
    let mut i: usize = 0;
    while i < size
        invariant
            start <= i <= size,
            size == chars@.len(),
            chars@ == text@,
            inside <==> (i > 0 && !is_space(chars@[i - 1])),
            inside ==> start < i && tokens(chars@.take(i as int)) == texts(found@).push(
                chars@.subrange(start as int, i as int),
            ),
            !inside ==> tokens(chars@.take(i as int)) == texts(found@),
        decreases size - i,
    {
        let ghost open = chars@.subrange(start as int, i as int);
        let ghost next = chars@.take(i + 1);
        assert(next.drop_last() =~= chars@.take(i as int));
        if space(chars[i]) {
            if inside {
                found.push(String::from_str(text.substring_char(start, i)));
                inside = false;
            }
        } else {
            if inside {
                assert(open.push(chars@[i as int]) =~= chars@.subrange(start as int, i + 1));
            } else {
                start = i;
                inside = true;
                assert(seq![chars@[i as int]] =~= chars@.subrange(i as int, i + 1));
            }
        }
        i += 1;
    }
    assert(chars@.take(size as int) =~= chars@);
    if inside {
        found.push(String::from_str(text.substring_char(start, size)));
    }
    found
}

/// The texts of `parts` in a row, with `sep` between neighbours.
pub open spec fn join(parts: Seq<Seq<char>>, sep: Seq<char>) -> Seq<char>
    decreases parts.len(),
{
    if parts.len() == 0 {
        Seq::empty()
    } else if parts.len() == 1 {
        parts[0]
    } else {
        join(parts.drop_last(), sep) + sep + parts.last()
    }
}

/// The pieces of a text are what the text is made of: none of them holds
/// the separator, and in a row, with the separator between neighbours, they
/// are the text.
pub proof fn lemma_fields_make_the_text(text: Seq<char>, sep: char)
    ensures
        fields(text, sep).len() > 0,
        forall|k: int| 0 <= k < fields(text, sep).len() ==> !(#[trigger] fields(text, sep)[k]).contains(
            sep,
        ),
        join(fields(text, sep), seq![sep]) == text,
    decreases text.len(),
{
    let pieces = fields(text, sep);
    if text.len() == 0 {
        assert(join(pieces, seq![sep]) =~= text);
    } else {
        let init = text.drop_last();
        let c = text.last();
        let before = fields(init, sep);
        lemma_fields_make_the_text(init, sep);
        assert(text =~= init.push(c));
        if c == sep {
            assert(pieces.drop_last() =~= before);
            assert(join(pieces, seq![sep]) =~= join(before, seq![sep]) + seq![sep]);
            assert forall|k: int| 0 <= k < pieces.len() implies !(#[trigger] pieces[k]).contains(
                sep,
            ) by {
                if k < before.len() {
                    assert(pieces[k] == before[k]);
                }
            }
        } else {
            let last = before.last().push(c);
            assert(pieces.drop_last() =~= before.drop_last());
            assert(pieces.last() == last);
            if before.len() == 1 {
                assert(join(pieces, seq![sep]) =~= before[0].push(c));
            } else {
                assert(join(pieces, seq![sep]) =~= (join(before.drop_last(), seq![sep]) + seq![
                    sep,
                ] + before.last()).push(c));
            }
            assert forall|k: int| 0 <= k < pieces.len() implies !(#[trigger] pieces[k]).contains(
                sep,
            ) by {
                if k < before.len() - 1 {
                    assert(pieces[k] == before[k]);
                } else {
                    assert(!before.last().contains(sep));
                    if last.contains(sep) {
                        let j = choose|j: int| 0 <= j < last.len() && last[j] == sep;
                        if j < before.last().len() {
                            assert(before.last()[j] == sep);
                        }
                    }
                }
            }
        }
    }
}

/// The strings `parts[from..to]` in a row, with `sep` between neighbours.
pub fn join_range(parts: &Vec<String>, from: usize, to: usize, sep: &str) -> (joined: String)
    requires
        from <= to <= parts@.len(),
    ensures
        joined@ == join(texts(parts@).subrange(from as int, to as int), sep@),
{
    let mut joined = String::new();
    let ghost all = texts(parts@);
    let mut i: usize = from;
    while i < to
        invariant
            from <= i <= to <= parts@.len(),
            all == texts(parts@),
            joined@ == join(all.subrange(from as int, i as int), sep@),
        decreases to - i,
    {
        let ghost sofar = all.subrange(from as int, i as int);
        let ghost next = all.subrange(from as int, i + 1);
        assert(next.drop_last() =~= sofar);
        if i > from {
            joined.append(sep);
        }
        joined.append(parts[i].as_str());
        i += 1;
    }
    joined
}

/// The character for a decimal digit.
pub open spec fn digit(d: int) -> char {
    if d == 0 {
        '0'
    } else if d == 1 {
        '1'
    } else if d == 2 {
        '2'
    } else if d == 3 {
        '3'
    } else if d == 4 {
        '4'
    } else if d == 5 {
        '5'
    } else if d == 6 {
        '6'
    } else if d == 7 {
        '7'
    } else if d == 8 {
        '8'
    } else {
        '9'
    }
}

/// A number written in decimal digits, without leading zeros.
pub open spec fn decimal(n: nat) -> Seq<char>
    decreases n,
{
    if n < 10 {
        seq![digit(n as int)]
    } else {
        decimal(n / 10).push(digit((n % 10) as int))
    }
}

fn digit_text(d: u64) -> (text: &'static str)
    requires
        d < 10,
    ensures
        text@ == seq![digit(d as int)],
{
    proof {
        reveal_strlit("0");
        reveal_strlit("1");
        reveal_strlit("2");
        reveal_strlit("3");
        reveal_strlit("4");
        reveal_strlit("5");
        reveal_strlit("6");
        reveal_strlit("7");
        reveal_strlit("8");
        reveal_strlit("9");
    }
    let text = if d == 0 {
        "0"
    } else if d == 1 {
        "1"
    } else if d == 2 {
        "2"
    } else if d == 3 {
        "3"
    } else if d == 4 {
        "4"
    } else if d == 5 {
        "5"
    } else if d == 6 {
        "6"
    } else if d == 7 {
        "7"
    } else if d == 8 {
        "8"
    } else {
        "9"
    };
    text
}

/// A number written in decimal digits.
pub fn decimal_text(n: u64) -> (text: String)
    ensures
        text@ == decimal(n as nat),
    decreases n,
{
    if n < 10 {
        String::from_str(digit_text(n))
    } else {
        let mut text = decimal_text(n / 10);
        text.append(digit_text(n % 10));
        text
    }
}

/// Whether the character is a decimal digit.
pub open spec fn is_digit(c: char) -> bool {
    '0' <= c <= '9'
}

/// The number that a decimal digit stands for.
pub open spec fn digit_value(c: char) -> nat {
    (c as u32 - '0' as u32) as nat
}

/// The number that a run of decimal digits stands for.
pub open spec fn digits_value(text: Seq<char>) -> nat
    decreases text.len(),
{
    if text.len() == 0 {
        0
    } else {
        digits_value(text.drop_last()) * 10 + digit_value(text.last())
    }
}

/// Whether the text holds decimal digits only.
pub open spec fn all_digits(text: Seq<char>) -> bool {
    forall|i: int| 0 <= i < text.len() ==> is_digit(#[trigger] text[i])
}

/// The 64-bit number that a run of decimal digits stands for; none where the
/// run is empty, holds another character, or stands for too large a number.
pub open spec fn digits_number(text: Seq<char>) -> Option<u64> {
    if text.len() > 0 && all_digits(text) && digits_value(text) <= u64::MAX {
        Some(digits_value(text) as u64)
    } else {
        None
    }
}

/// The 64-bit number that `text` denotes: decimal digits, at least one, after
/// an optional plus sign. Anything else, and a number too large, denotes none.
pub open spec fn number(text: Seq<char>) -> Option<u64> {
    if text.len() > 0 && text[0] == '+' {
        digits_number(text.skip(1))
    } else {
        digits_number(text)
    }
}

/// The number of a run of digits is at least the number of each run that it
/// begins with.
pub proof fn lemma_digits_value_grows(text: Seq<char>, k: int)
    requires
        0 <= k <= text.len(),
    ensures
        digits_value(text.take(k)) <= digits_value(text),
    decreases text.len() - k,
{
    if k == text.len() {
        assert(text.take(k) =~= text);
    } else {
        lemma_digits_value_grows(text, k + 1);
        assert(text.take(k + 1).drop_last() =~= text.take(k));
    }
}

/// Whether the character is a decimal digit.
pub fn digit_char(c: char) -> (yes: bool)
    ensures
        yes == is_digit(c),
{
    '0' <= c && c <= '9'
}

/// The 64-bit number that the digits `text[from..to]` stand for.
pub fn parse_digits(text: &Vec<char>, from: usize, to: usize) -> (parsed: Option<u64>)
    requires
        from <= to <= text@.len(),
    ensures
        parsed == digits_number(text@.subrange(from as int, to as int)),
{
    let ghost body = text@.subrange(from as int, to as int);
    if from == to {
        return None;
    }
    let mut value: u64 = 0;
    let mut i: usize = from;
    while i < to
        invariant
            from <= i <= to <= text@.len(),
            from < to,
            body == text@.subrange(from as int, to as int),
            all_digits(body.take(i - from)),
            value == digits_value(body.take(i - from)),
        decreases to - i,
    {
        let c = text[i];
        let ghost next = body.take(i + 1 - from);
        assert(next.drop_last() =~= body.take(i - from));
        if !digit_char(c) {
            assert(!is_digit(body[i - from]));
            return None;
        }
        let d: u64 = (c as u32 - '0' as u32) as u64;
        if value > (u64::MAX - d) / 10 {
            proof {
                lemma_digits_value_grows(body, i + 1 - from);
            }
            return None;
        }
        value = value * 10 + d;
        assert forall|j: int| 0 <= j < next.len() implies is_digit(#[trigger] next[j]) by {}
        i += 1;
    }
    assert(body.take(to - from) =~= body);
    Some(value)
}

/// The 64-bit number that `text[from..to]` denotes.
pub fn parse_number(text: &Vec<char>, from: usize, to: usize) -> (parsed: Option<u64>)
    requires
        from <= to <= text@.len(),
    ensures
        parsed == number(text@.subrange(from as int, to as int)),
{
    let ghost whole = text@.subrange(from as int, to as int);
    if from < to && text[from] == '+' {
        assert(whole.skip(1) =~= text@.subrange(from + 1, to as int));
        parse_digits(text, from + 1, to)
    } else {
        parse_digits(text, from, to)
    }
}

/// A number written in decimal digits is made of digits, at least one, and
/// stands for the number.
pub proof fn lemma_decimal_is_digits(n: nat)
    ensures
        decimal(n).len() > 0,
        all_digits(decimal(n)),
        digits_value(decimal(n)) == n,
    decreases n,
{
    if n < 10 {
        assert(decimal(n).drop_last() =~= Seq::<char>::empty());
        assert(digits_value(decimal(n).drop_last()) == 0);
    } else {
        lemma_decimal_is_digits(n / 10);
        let head = decimal(n / 10);
        assert(decimal(n).drop_last() =~= head);
        assert forall|i: int| 0 <= i < decimal(n).len() implies is_digit(
            #[trigger] decimal(n)[i],
        ) by {
            if i < head.len() {
                assert(decimal(n)[i] == head[i]);
            }
        }
    }
}

/// What is written is read back: the text of a 64-bit number denotes the
/// number.
pub proof fn lemma_number_of_decimal(n: u64)
    ensures
        number(decimal(n as nat)) == Some(n),
{
    lemma_decimal_is_digits(n as nat);
    assert(is_digit(decimal(n as nat)[0]));
}

} // verus!
