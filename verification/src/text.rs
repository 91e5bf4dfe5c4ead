//! Building and searching text: the helpers shared by the other modules.

use vstd::prelude::*;

verus! {

/// What a sequence of strings holds.
pub open spec fn string_views(texts: Seq<String>) -> Seq<Seq<char>> {
    texts.map_values(|text: String| text@)
}

/// What a sequence of string slices holds.
pub open spec fn str_views(texts: Seq<&str>) -> Seq<Seq<char>> {
    texts.map_values(|text: &str| text@)
}

/// What an optional string slice holds.
pub open spec fn optional_str_view(text: Option<&str>) -> Option<Seq<char>> {
    match text {
        Some(text) => Some(text@),
        None => None,
    }
}

/// What an optional string holds.
pub open spec fn optional_string_view(text: Option<String>) -> Option<Seq<char>> {
    match text {
        Some(text) => Some(text@),
        None => None,
    }
}

/// `String::push`: appends the one character `c` to `text` and changes nothing else.
#[verifier::external_body]
pub(crate) fn push_char(text: &mut String, c: char)
    ensures
        final(text)@ == old(text)@.push(c),
{
    text.push(c)
}

/// The ASCII character with the code `b`.
pub open spec fn ascii_char(b: u8) -> char
    recommends
        b < 128,
{
    b as char
}

/// The decimal digits of `n`, most significant first, without leading zeros.
pub open spec fn decimal(n: nat) -> Seq<char>
    decreases n,
{
    if n < 10 {
        seq![ascii_char((0x30 + n) as u8)]
    } else {
        decimal(n / 10).push(ascii_char((0x30 + n % 10) as u8))
    }
}

/// Append the decimal digits of `n` to `text`.
pub fn push_decimal(text: &mut String, n: u32)
    ensures
        final(text)@ == old(text)@ + decimal(n as nat),
    decreases n,
{
    if n >= 10 {
        push_decimal(text, n / 10);
    }
    let digit: u8 = 0x30 + (n % 10) as u8;
    push_char(text, digit as char);
    proof {
        assert(text@ =~= old(text)@ + decimal(n as nat));
    }
}

/// The UTF-8 encoding of a text.
pub open spec fn utf8(text: Seq<char>) -> Seq<u8> {
    vstd::utf8::encode_utf8(text)
}

/// Two texts with the same UTF-8 encoding are the same text.
pub proof fn utf8_is_injective(a: Seq<char>, b: Seq<char>)
    requires
        utf8(a) == utf8(b),
    ensures
        a == b,
{
    vstd::utf8::encode_utf8_decode_utf8(a);
    vstd::utf8::encode_utf8_decode_utf8(b);
}

/// Whether two byte strings are equal.
pub fn bytes_eq(a: &[u8], b: &[u8]) -> (equal: bool)
    ensures
        equal == (a@ == b@),
{
    if a.len() != b.len() {
        return false;
    }
    let mut i: usize = 0;
    while i < a.len()
        invariant
            i <= a.len(),
            a.len() == b.len(),
            forall|j: int| 0 <= j < i ==> a@[j] == b@[j],
        decreases a.len() - i,
    {
        if a[i] != b[i] {
            return false;
        }
        i += 1;
    }
    assert(a@ =~= b@);
    true
}

/// Whether two texts are equal.
pub fn str_eq(a: &str, b: &str) -> (equal: bool)
    ensures
        equal == (a@ == b@),
{
    let equal = bytes_eq(a.as_bytes(), b.as_bytes());
    proof {
        if equal {
            utf8_is_injective(a@, b@);
        }
    }
    equal
}

/// The lower-case form of a text, as `str::to_lowercase` defines it by the Unicode
/// property `Lowercase`.
pub uninterp spec fn lowercase(text: Seq<char>) -> Seq<char>;

/// `str::to_lowercase`: the result is the lower-case form of `text`, which depends on
/// nothing but `text`.
#[verifier::external_body]
pub(crate) fn to_lowercase(text: &str) -> (lower: String)
    ensures
        lower@ == lowercase(text@),
{
    text.to_lowercase()
}

/// Whether `needle` stands in `hay` at the index `at`.
pub open spec fn occurs_at(hay: Seq<u8>, needle: Seq<u8>, at: int) -> bool {
    &&& 0 <= at
    &&& at + needle.len() <= hay.len()
    &&& hay.subrange(at, at + needle.len()) == needle
}

/// Whether `needle` stands somewhere in `hay`.
pub open spec fn occurs(hay: Seq<u8>, needle: Seq<u8>) -> bool {
    exists|at: int| occurs_at(hay, needle, at)
}

/// Whether `at` is the index at which `needle` stands in `hay` for the last time.
pub open spec fn is_last_occurrence(hay: Seq<u8>, needle: Seq<u8>, at: int) -> bool {
    &&& occurs_at(hay, needle, at)
    &&& forall|other: int| occurs_at(hay, needle, other) ==> other <= at
}

/// The index at which `needle` stands in `hay` for the last time, if it stands there at all.
pub open spec fn last_index_of(hay: Seq<u8>, needle: Seq<u8>) -> Option<int> {
    if occurs(hay, needle) {
        Some(choose|at: int| is_last_occurrence(hay, needle, at))
    } else {
        None
    }
}

proof fn last_occurrence_up_to(hay: Seq<u8>, needle: Seq<u8>, limit: int) -> (found: Option<int>)
    requires
        limit >= -1,
    ensures
        match found {
            Some(at) => occurs_at(hay, needle, at) && at <= limit && forall|other: int|
                at < other <= limit ==> !occurs_at(hay, needle, other),
            None => forall|other: int| other <= limit ==> !occurs_at(hay, needle, other),
        },
    decreases limit + 1,
{
    if limit < 0 {
        None
    } else if occurs_at(hay, needle, limit) {
        Some(limit)
    } else {
        last_occurrence_up_to(hay, needle, limit - 1)
    }
}

/// Where `needle` stands in `hay`, the last index is its last occurrence.
pub proof fn last_index_is_last_occurrence(hay: Seq<u8>, needle: Seq<u8>)
    ensures
        match last_index_of(hay, needle) {
            Some(at) => is_last_occurrence(hay, needle, at),
            None => !occurs(hay, needle),
        },
{
    if occurs(hay, needle) {
        let found = last_occurrence_up_to(hay, needle, hay.len() as int);
        let any = choose|at: int| occurs_at(hay, needle, at);
        assert(found is Some);
        assert(is_last_occurrence(hay, needle, found->0));
    }
}

/// A last occurrence is the last index, whatever `choose` picks.
pub proof fn last_occurrence_is_last_index(hay: Seq<u8>, needle: Seq<u8>, at: int)
    requires
        is_last_occurrence(hay, needle, at),
    ensures
        last_index_of(hay, needle) == Some(at),
{
    let chosen = choose|at: int| is_last_occurrence(hay, needle, at);
    assert(is_last_occurrence(hay, needle, chosen));
    assert(chosen <= at);
    assert(at <= chosen);
}

fn matches_at(hay: &[u8], needle: &[u8], at: usize) -> (found: bool)
    requires
        at + needle.len() <= hay.len(),
    ensures
        found == occurs_at(hay@, needle@, at as int),
{
    let mut i: usize = 0;
    while i < needle.len()
        invariant
            i <= needle.len(),
            at + needle.len() <= hay.len(),
            forall|j: int| 0 <= j < i ==> hay@[at + j] == needle@[j],
        decreases needle.len() - i,
    {
        if hay[at + i] != needle[i] {
            assert(hay@.subrange(at as int, at + needle.len())[i as int] != needle@[i as int]);
            return false;
        }
        i += 1;
    }
    assert(hay@.subrange(at as int, at + needle.len()) =~= needle@);
    true
}

/// Find the index at which `needle` stands in `hay` for the last time.
pub fn find_last(hay: &[u8], needle: &[u8]) -> (found: Option<usize>)
    ensures
        match found {
            Some(at) => last_index_of(hay@, needle@) == Some(at as int),
            None => last_index_of(hay@, needle@) is None,
        },
{
    if needle.len() > hay.len() {
        return None;
    }
    let mut at: usize = hay.len() - needle.len();
    loop
        invariant
            at + needle.len() <= hay.len(),
            forall|other: int| at < other ==> !occurs_at(hay@, needle@, other),
        decreases at,
    {
        if matches_at(hay, needle, at) {
            proof {
                last_occurrence_is_last_index(hay@, needle@, at as int);
            }
            return Some(at);
        }
        if at == 0 {
            return None;
        }
        at -= 1;
    }
}

/// Whether `needle` stands somewhere in `hay`.
pub fn contains(hay: &[u8], needle: &[u8]) -> (found: bool)
    ensures
        found == occurs(hay@, needle@),
{
    find_last(hay, needle).is_some()
}

} // verus!
