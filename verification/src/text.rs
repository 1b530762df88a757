//! Character level helpers for chat text: the characters of a string,
//! whitespace, and the words that whitespace separates.

use vstd::prelude::*;

verus! {

/// Whether `c` is a whitespace character, that is, has the Unicode property
/// `White_Space`.
pub open spec fn spec_is_whitespace(c: char) -> bool {
    let code = c as u32;
    ||| 0x09 <= code <= 0x0D
    ||| code == 0x20
    ||| code == 0x85
    ||| code == 0xA0
    ||| code == 0x1680
    ||| 0x2000 <= code <= 0x200A
    ||| code == 0x2028
    ||| code == 0x2029
    ||| code == 0x202F
    ||| code == 0x205F
    ||| code == 0x3000
}

/// Whether `c` is a whitespace character.
#[verifier::when_used_as_spec(spec_is_whitespace)]
pub fn is_whitespace(c: char) -> (b: bool)
    ensures
        b == spec_is_whitespace(c),
{
    let code = c as u32;
    (0x09 <= code && code <= 0x0D) || code == 0x20 || code == 0x85 || code == 0xA0 || code == 0x1680
        || (0x2000 <= code && code <= 0x200A) || code == 0x2028 || code == 0x2029 || code == 0x202F
        || code == 0x205F || code == 0x3000
}

/// The characters of an optional text.
pub open spec fn text_of(value: Option<String>) -> Option<Seq<char>> {
    match value {
        Some(text) => Some(text@),
        None => None,
    }
}

/// The characters of `text`, in order.
pub fn chars_of(text: &str) -> (chars: Vec<char>)
    ensures
        chars@ == text@,
{
    let mut chars: Vec<char> = Vec::new();
    for c in it: text.chars()
        invariant
            it.seq() == text@,
            chars@ == it.seq().take(it.index()),
    {
        chars.push(c);
    }
    chars
}

/// Whether `a` and `b` hold the same characters.
pub fn same_chars(a: &[char], b: &[char]) -> (same: bool)
    ensures
        same == (a@ == b@),
{
    if a.len() != b.len() {
        return false;
    }
    let mut at: usize = 0;
    while at < a.len()
        invariant
            a@.len() == b@.len(),
            at <= a@.len(),
            forall|i: int| 0 <= i < at ==> a@[i] == b@[i],
        decreases a@.len() - at,
    {
        if a[at] != b[at] {
            return false;
        }
        at += 1;
    }
    assert(a@ =~= b@);
    true
}

/// Whether `a` and `b` are the same text.
pub fn same_text(a: &str, b: &str) -> (same: bool)
    ensures
        same == (a@ == b@),
{
    let left = chars_of(a);
    let right = chars_of(b);
    same_chars(left.as_slice(), right.as_slice())
}

/// The first position at or after `from` that holds no whitespace, or the
/// length of `s` where whitespace runs to the end.
pub open spec fn skip_spaces(s: Seq<char>, from: int) -> int
    decreases s.len() - from,
{
    if 0 <= from < s.len() && is_whitespace(s[from]) {
        skip_spaces(s, from + 1)
    } else {
        from
    }
}

/// The first position at or after `from` that holds whitespace, or the
/// length of `s` where there is none.
pub open spec fn skip_word(s: Seq<char>, from: int) -> int
    decreases s.len() - from,
{
    if 0 <= from < s.len() && !is_whitespace(s[from]) {
        skip_word(s, from + 1)
    } else {
        from
    }
}

/// The first word of `s` at or after `from`, as the position of its first
/// character and the position behind its last; `None` where only
/// whitespace follows. Words are what whitespace separates.
pub open spec fn spec_next_word(s: Seq<char>, from: int) -> Option<(int, int)> {
    let start = skip_spaces(s, from);
    if start < s.len() {
        Some((start, skip_word(s, start)))
    } else {
        None
    }
}

/// `skip_spaces` passes over whitespace only, and all of it.
pub proof fn lemma_skip_spaces(s: Seq<char>, from: int)
    requires
        0 <= from <= s.len(),
    ensures
        from <= skip_spaces(s, from) <= s.len(),
        forall|i: int| from <= i < skip_spaces(s, from) ==> is_whitespace(#[trigger] s[i]),
        skip_spaces(s, from) < s.len() ==> !is_whitespace(s[skip_spaces(s, from)]),
    decreases s.len() - from,
{
    if from < s.len() && is_whitespace(s[from]) {
        lemma_skip_spaces(s, from + 1);
    }
}

/// `skip_word` passes over characters other than whitespace only, and all
/// of them.
pub proof fn lemma_skip_word(s: Seq<char>, from: int)
    requires
        0 <= from <= s.len(),
    ensures
        from <= skip_word(s, from) <= s.len(),
        forall|i: int| from <= i < skip_word(s, from) ==> !is_whitespace(#[trigger] s[i]),
        skip_word(s, from) < s.len() ==> is_whitespace(s[skip_word(s, from)]),
    decreases s.len() - from,
{
    if from < s.len() && !is_whitespace(s[from]) {
        lemma_skip_word(s, from + 1);
    }
}

/// A word is not empty, lies inside the text behind `from`, holds no
/// whitespace, and is bounded by whitespace or by the end of the text.
pub proof fn lemma_next_word(s: Seq<char>, from: int)
    requires
        0 <= from <= s.len(),
    ensures
        spec_next_word(s, from) matches Some((start, end)) ==> {
            &&& from <= start < end <= s.len()
            &&& forall|i: int| from <= i < start ==> is_whitespace(#[trigger] s[i])
            &&& forall|i: int| start <= i < end ==> !is_whitespace(#[trigger] s[i])
            &&& end < s.len() ==> is_whitespace(s[end])
        },
        spec_next_word(s, from) is None ==> forall|i: int|
            from <= i < s.len() ==> is_whitespace(#[trigger] s[i]),
{
    lemma_skip_spaces(s, from);
    let start = skip_spaces(s, from);
    if start < s.len() {
        lemma_skip_word(s, start);
        assert(skip_word(s, start) == skip_word(s, start + 1));
    }
}

/// The first word of `chars` at or after `from`.
pub fn next_word(chars: &[char], from: usize) -> (word: Option<(usize, usize)>)
    requires
        from <= chars@.len(),
    ensures
        match word {
            Some((start, end)) => spec_next_word(chars@, from as int) == Some(
                (start as int, end as int),
            ) && from <= start < end <= chars@.len(),
            None => spec_next_word(chars@, from as int) is None,
        },
{
    let mut start: usize = from;
    while start < chars.len() && is_whitespace(chars[start])
        invariant
            from <= start <= chars@.len(),
            skip_spaces(chars@, start as int) == skip_spaces(chars@, from as int),
        decreases chars@.len() - start,
    {
        start += 1;
    }
    if start >= chars.len() {
        return None;
    }
    let mut end: usize = start + 1;
    while end < chars.len() && !is_whitespace(chars[end])
        invariant
            start < end <= chars@.len(),
            skip_word(chars@, end as int) == skip_word(chars@, start as int),
        decreases chars@.len() - end,
    {
        end += 1;
    }
    Some((start, end))
}

} // verus!
