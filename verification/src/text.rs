//! Characters, whitespace-separated words, separator-delimited fields and
//! decimal indices.

use vstd::prelude::*;

verus! {

/// The characters that separate words: those with the Unicode property
/// `White_Space`.
pub open spec fn is_whitespace(c: char) -> bool {
    let n = c as u32;
    ||| 0x09 <= n <= 0x0D
    ||| n == 0x20
    ||| n == 0x85
    ||| n == 0xA0
    ||| n == 0x1680
    ||| 0x2000 <= n <= 0x200A
    ||| n == 0x2028
    ||| n == 0x2029
    ||| n == 0x202F
    ||| n == 0x205F
    ||| n == 0x3000
}

/// Whether `c` separates words.
pub fn char_is_whitespace(c: char) -> (r: bool)
    ensures
        r == is_whitespace(c),
{
    let n: u32 = c as u32;
    (0x09 <= n && n <= 0x0D) || n == 0x20 || n == 0x85 || n == 0xA0 || n == 0x1680 || (0x2000 <= n
        && n <= 0x200A) || n == 0x2028 || n == 0x2029 || n == 0x202F || n == 0x205F || n == 0x3000
}

/// Copies the characters of `text` into a vector.
pub fn chars_of(text: &str) -> (chars: Vec<char>)
    ensures
        chars@ == text@,
{
    broadcast use vstd::string::group_string_axioms;

    let mut chars: Vec<char> = Vec::new();
    for c in it: text.chars()
        invariant
            it.seq() == text@,
            chars@ == it.seq().take(it.index()),
    {
        chars.push(c);
    }
    chars
}

/// A copy of `chars`.
pub fn copy_chars(chars: &Vec<char>) -> (copy: Vec<char>)
    ensures
        copy@ == chars@,
{
    let mut copy: Vec<char> = Vec::new();
    let mut i: usize = 0;
    while i < chars.len()
        invariant
            i <= chars.len(),
            copy@ == chars@.subrange(0, i as int),
        decreases chars.len() - i,
    {
        copy.push(chars[i]);
        i += 1;
    }
    assert(chars@.subrange(0, chars.len() as int) =~= chars@);
    copy
}

/// What a vector of lines holds, as sequences of characters.
pub open spec fn line_texts(lines: Seq<String>) -> Seq<Seq<char>> {
    Seq::new(lines.len(), |i: int| lines[i]@)
}

/// The first position at or after `from` that holds no whitespace, or the
/// length of `s` when only whitespace is left.
pub open spec fn word_start(s: Seq<char>, from: int) -> int
    decreases s.len() - from,
{
    if 0 <= from < s.len() && is_whitespace(s[from]) {
        word_start(s, from + 1)
    } else {
        from
    }
}

/// The first position at or after `from` that holds whitespace, or the length
/// of `s` when none is left.
pub open spec fn word_end(s: Seq<char>, from: int) -> int
    decreases s.len() - from,
{
    if 0 <= from < s.len() && !is_whitespace(s[from]) {
        word_end(s, from + 1)
    } else {
        from
    }
}

/// The words of `s` that begin at or after `from`, in order: each is a
/// maximal run of characters that are not whitespace.
pub open spec fn words_from(s: Seq<char>, from: int) -> Seq<Seq<char>>
    decreases s.len() - from,
{
    let start = word_start(s, from);
    let end = word_end(s, start);
    if 0 <= from <= start < end <= s.len() {
        seq![s.subrange(start, end)] + words_from(s, end)
    } else {
        Seq::empty()
    }
}

/// The words of `s`: its maximal runs of characters that are not whitespace,
/// from left to right.
pub open spec fn words(s: Seq<char>) -> Seq<Seq<char>> {
    words_from(s, 0)
}

/// What a vector of character vectors holds, as sequences.
pub open spec fn texts(v: Seq<Vec<char>>) -> Seq<Seq<char>> {
    Seq::new(v.len(), |i: int| v[i]@)
}

/// Splits `text` into its words.
pub fn split_whitespace(text: &Vec<char>) -> (tokens: Vec<Vec<char>>)
    ensures
        texts(tokens@) == words(text@),
{
    let n = text.len();
    let mut tokens: Vec<Vec<char>> = Vec::new();
    let mut i: usize = 0;
    while i < n
        invariant
            n == text.len(),
            i <= n,
            words(text@) == texts(tokens@) + words_from(text@, i as int),
        decreases n - i,
    {
        if char_is_whitespace(text[i]) {
            i += 1;
        } else {
            let start = i;
            let mut word: Vec<char> = Vec::new();
            while i < n && !char_is_whitespace(text[i])
                invariant
                    n == text.len(),
                    start <= i <= n,
                    start < n,
                    !is_whitespace(text@[start as int]),
                    word@ == text@.subrange(start as int, i as int),
                    word_end(text@, start as int) == word_end(text@, i as int),
                decreases n - i,
            {
                word.push(text[i]);
                i += 1;
            }
            let ghost before = texts(tokens@);
            tokens.push(word);
            proof {
                assert(word_end(text@, i as int) == i);
                assert(start < i);
                assert(texts(tokens@) =~= before + seq![text@.subrange(start as int, i as int)]);
            }
        }
    }
    tokens
}

/// A word: one character or more, none of them whitespace.
pub open spec fn is_word(w: Seq<char>) -> bool {
    w.len() > 0 && forall|j: int| 0 <= j < w.len() ==> !is_whitespace(#[trigger] w[j])
}

/// Between `from` and the start of the next word there is only whitespace,
/// and a word starts with a character that is none.
pub proof fn lemma_word_start(s: Seq<char>, from: int)
    requires
        0 <= from <= s.len(),
    ensures
        from <= word_start(s, from) <= s.len(),
        forall|j: int| from <= j < word_start(s, from) ==> is_whitespace(#[trigger] s[j]),
        word_start(s, from) < s.len() ==> !is_whitespace(s[word_start(s, from)]),
    decreases s.len() - from,
{
    if from < s.len() && is_whitespace(s[from]) {
        lemma_word_start(s, from + 1);
    }
}

/// Between `from` and the end of the word there is no whitespace, and a
/// word ends at whitespace or at the end of the text.
pub proof fn lemma_word_end(s: Seq<char>, from: int)
    requires
        0 <= from <= s.len(),
    ensures
        from <= word_end(s, from) <= s.len(),
        forall|j: int| from <= j < word_end(s, from) ==> !is_whitespace(#[trigger] s[j]),
        word_end(s, from) < s.len() ==> is_whitespace(s[word_end(s, from)]),
    decreases s.len() - from,
{
    if from < s.len() && !is_whitespace(s[from]) {
        lemma_word_end(s, from + 1);
    }
}

/// Each of the words of a text is a word: it is not empty and holds no
/// whitespace.
pub proof fn lemma_words_are_words(s: Seq<char>, from: int)
    requires
        0 <= from <= s.len(),
    ensures
        forall|k: int|
            0 <= k < words_from(s, from).len() ==> is_word(#[trigger] words_from(s, from)[k]),
    decreases s.len() - from,
{
    let start = word_start(s, from);
    let end = word_end(s, start);
    lemma_word_start(s, from);
    if start < s.len() {
        lemma_word_end(s, start);
        if start < end {
            lemma_words_are_words(s, end);
            let first = s.subrange(start, end);
            let rest = words_from(s, end);
            assert(is_word(first)) by {
                assert forall|j: int| 0 <= j < first.len() implies !is_whitespace(
                    #[trigger] first[j],
                ) by {
                    assert(first[j] == s[start + j]);
                }
            }
            assert forall|k: int| 0 <= k < words_from(s, from).len() implies is_word(
                #[trigger] words_from(s, from)[k],
            ) by {
                if k > 0 {
                    assert(words_from(s, from)[k] == rest[k - 1]);
                }
            }
        }
    }
}

/// A word is the one word of itself.
pub proof fn lemma_word_alone(w: Seq<char>)
    requires
        is_word(w),
    ensures
        words(w) == seq![w],
{
    lemma_word_start(w, 0);
    lemma_word_end(w, 0);
    let end = word_end(w, 0);
    assert(end == w.len()) by {
        if end < w.len() {
            assert(is_whitespace(w[end]));
        }
    }
    assert(w.subrange(0, end) =~= w);
    assert(words_from(w, end) =~= Seq::<Seq<char>>::empty());
    assert(words(w) =~= seq![w]);
}

/// The first position at or after `from` that holds `sep`, or the length of
/// `s` when none is left.
pub open spec fn field_end(s: Seq<char>, sep: char, from: int) -> int
    decreases s.len() - from,
{
    if 0 <= from < s.len() && s[from] != sep {
        field_end(s, sep, from + 1)
    } else {
        from
    }
}

/// The fields of `s` from position `from` on: the stretches between
/// occurrences of `sep`. The last one runs to the end of `s`; any of them may
/// be empty.
pub open spec fn fields_from(s: Seq<char>, sep: char, from: int) -> Seq<Seq<char>>
    decreases s.len() - from,
{
    let end = field_end(s, sep, from);
    if 0 <= from <= end < s.len() {
        seq![s.subrange(from, end)] + fields_from(s, sep, end + 1)
    } else if 0 <= from <= end == s.len() {
        seq![s.subrange(from, end)]
    } else {
        Seq::empty()
    }
}

/// The fields that the occurrences of `sep` cut `s` into. There is always at
/// least one: a text without `sep` is its own single field.
pub open spec fn fields(s: Seq<char>, sep: char) -> Seq<Seq<char>> {
    fields_from(s, sep, 0)
}

/// Cuts `text` at every occurrence of `sep`.
pub fn split_fields(text: &Vec<char>, sep: char) -> (parts: Vec<Vec<char>>)
    ensures
        texts(parts@) == fields(text@, sep),
{
    let n = text.len();
    let mut parts: Vec<Vec<char>> = Vec::new();
    let mut part: Vec<char> = Vec::new();
    let mut start: usize = 0;
    let mut i: usize = 0;
    while i < n
        invariant
            n == text.len(),
            start <= i <= n,
            part@ == text@.subrange(start as int, i as int),
            field_end(text@, sep, start as int) == field_end(text@, sep, i as int),
            fields(text@, sep) == texts(parts@) + fields_from(text@, sep, start as int),
        decreases n - i,
    {
        let c = text[i];
        i += 1;
        if c == sep {
            let ghost before = texts(parts@);
            parts.push(part);
            proof {
                assert(field_end(text@, sep, start as int) == i - 1);
                assert(texts(parts@) =~= before + seq![text@.subrange(start as int, i - 1)]);
            }
            part = Vec::new();
            start = i;
        } else {
            part.push(c);
        }
    }
    let ghost before = texts(parts@);
    parts.push(part);
    proof {
        assert(field_end(text@, sep, start as int) == n);
        assert(texts(parts@) =~= before + seq![text@.subrange(start as int, n as int)]);
    }
    parts
}

/// The decimal digits.
pub open spec fn is_digit(c: char) -> bool {
    '0' <= c <= '9'
}

/// What a digit counts for; zero for any other character.
pub open spec fn digit_value(c: char) -> nat {
    if is_digit(c) {
        (c as u32 - '0' as u32) as nat
    } else {
        0
    }
}

/// The number that the digits of `s` write in base ten, the leftmost digit
/// weighing most.
pub open spec fn decimal_value(s: Seq<char>) -> nat
    decreases s.len(),
{
    if s.len() == 0 {
        0
    } else {
        decimal_value(s.drop_last()) * 10 + digit_value(s.last())
    }
}

/// Whether `s` holds decimal digits only.
pub open spec fn all_digits(s: Seq<char>) -> bool {
    forall|i: int| 0 <= i < s.len() ==> is_digit(#[trigger] s[i])
}

/// `s` without the plus sign that may stand in front of an index.
pub open spec fn without_sign(s: Seq<char>) -> Seq<char> {
    if s.len() > 0 && s[0] == '+' {
        s.subrange(1, s.len() as int)
    } else {
        s
    }
}

/// The index that `s` writes, if it writes one: after an optional `+`, one or
/// more decimal digits whose value fits the machine's index type.
pub open spec fn parsed_index(s: Seq<char>) -> Option<usize> {
    let digits = without_sign(s);
    if digits.len() > 0 && all_digits(digits) && decimal_value(digits) <= usize::MAX {
        Some(decimal_value(digits) as usize)
    } else {
        None
    }
}

/// Dropping digits from the end never makes the value larger.
pub proof fn lemma_decimal_value_prefix(s: Seq<char>, k: int)
    requires
        0 <= k <= s.len(),
    ensures
        decimal_value(s.subrange(0, k)) <= decimal_value(s),
    decreases s.len(),
{
    if k == s.len() {
        assert(s.subrange(0, k) =~= s);
    } else {
        lemma_decimal_value_prefix(s.drop_last(), k);
        assert(s.drop_last().subrange(0, k) =~= s.subrange(0, k));
        assert(decimal_value(s) >= decimal_value(s.drop_last())) by (nonlinear_arith)
            requires
                decimal_value(s) == decimal_value(s.drop_last()) * 10 + digit_value(s.last()),
        ;
    }
}

/// Reads `text` as an index.
pub fn parse_index(text: &Vec<char>) -> (r: Option<usize>)
    ensures
        r == parsed_index(text@),
{
    let n = text.len();
    let first: usize = if n > 0 && text[0] == '+' {
        1
    } else {
        0
    };
    if first == n {
        return None;
    }
    let ghost digits = without_sign(text@);
    assert(digits == text@.subrange(first as int, n as int));
    let mut value: usize = 0;
    let mut i: usize = first;
    while i < n
        invariant
            n == text.len(),
            first <= i <= n,
            digits == without_sign(text@),
            digits == text@.subrange(first as int, n as int),
            all_digits(digits.subrange(0, i - first)),
            value == decimal_value(digits.subrange(0, i - first)),
        decreases n - i,
    {
        let c = text[i];
        let ghost seen = digits.subrange(0, i - first);
        let ghost next = digits.subrange(0, i - first + 1);
        proof {
            assert(next.drop_last() =~= seen);
            assert(next.last() == c);
            lemma_decimal_value_prefix(digits, i - first + 1);
        }
        if !('0' <= c && c <= '9') {
            assert(!is_digit(digits[i - first]));
            return None;
        }
        let digit: usize = (c as u32 - '0' as u32) as usize;
        assert(decimal_value(next) == value * 10 + digit);
        let shifted = match value.checked_mul(10) {
            Some(v) => v,
            None => {
                return None;
            },
        };
        value = match shifted.checked_add(digit) {
            Some(v) => v,
            None => {
                return None;
            },
        };
        i += 1;
        proof {
            assert forall|j: int| 0 <= j < next.len() implies is_digit(#[trigger] next[j]) by {
                if j < seen.len() {
                    assert(next[j] == seen[j]);
                }
            }
        }
    }
    assert(digits.subrange(0, n - first) =~= digits);
    Some(value)
}

/// A text is cut into at least one field, and no field holds the separator.
pub proof fn lemma_fields(s: Seq<char>, sep: char, from: int)
    requires
        0 <= from <= s.len(),
    ensures
        fields_from(s, sep, from).len() >= 1,
        forall|k: int, j: int|
            0 <= k < fields_from(s, sep, from).len() && 0 <= j < fields_from(s, sep, from)[k].len()
                ==> #[trigger] fields_from(s, sep, from)[k][j] != sep,
    decreases s.len() - from,
{
    lemma_field_end(s, sep, from);
    let end = field_end(s, sep, from);
    let first = s.subrange(from, end);
    assert forall|j: int| 0 <= j < first.len() implies first[j] != sep by {
        assert(first[j] == s[from + j]);
    }
    if end < s.len() {
        lemma_fields(s, sep, end + 1);
        let rest = fields_from(s, sep, end + 1);
        assert forall|k: int, j: int|
            0 <= k < fields_from(s, sep, from).len() && 0 <= j < fields_from(s, sep, from)[k].len()
            implies #[trigger] fields_from(s, sep, from)[k][j] != sep by {
            if k > 0 {
                assert(fields_from(s, sep, from)[k] == rest[k - 1]);
            }
        }
    }
}

/// Between `from` and the end of the field the separator does not occur,
/// and a field ends at a separator or at the end of the text.
pub proof fn lemma_field_end(s: Seq<char>, sep: char, from: int)
    requires
        0 <= from <= s.len(),
    ensures
        from <= field_end(s, sep, from) <= s.len(),
        forall|j: int| from <= j < field_end(s, sep, from) ==> #[trigger] s[j] != sep,
        field_end(s, sep, from) < s.len() ==> s[field_end(s, sep, from)] == sep,
    decreases s.len() - from,
{
    if from < s.len() && s[from] != sep {
        lemma_field_end(s, sep, from + 1);
    }
}

} // verus!
