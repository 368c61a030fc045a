//! Comparisons of strings and byte strings.
//!
//! Strings are compared through their UTF-8 bytes, while the contracts speak
//! of their characters. The lemmas of this module carry a fact about the
//! bytes over to the characters.

use vstd::prelude::*;
use vstd::string::StringSliceAdditionalSpecFns;
use vstd::utf8::*;

verus! {

/// Encoding a concatenation gives the concatenation of the encodings.
pub proof fn lemma_encode_utf8_concat(a: Seq<char>, b: Seq<char>)
    ensures
        encode_utf8(a + b) == encode_utf8(a) + encode_utf8(b),
    decreases a.len(),
{
    if a.len() == 0 {
        assert(a + b =~= b);
        assert(encode_utf8(a) + encode_utf8(b) =~= encode_utf8(b));
    } else {
        lemma_encode_utf8_concat(a.drop_first(), b);
        assert((a + b).drop_first() =~= a.drop_first() + b);
        assert((a + b)[0] == a[0]);
        assert(encode_utf8(a + b) =~= encode_utf8(a) + encode_utf8(b));
    }
}

/// Two strings are equal exactly when their UTF-8 encodings are.
pub proof fn lemma_encode_utf8_injective(a: Seq<char>, b: Seq<char>)
    ensures
        encode_utf8(a) == encode_utf8(b) <==> a == b,
{
    encode_utf8_decode_utf8(a);
    encode_utf8_decode_utf8(b);
}

/// A string ends with `suffix` exactly when its UTF-8 encoding ends with the
/// encoding of `suffix`.
pub proof fn lemma_encode_utf8_suffix(s: Seq<char>, suffix: Seq<char>)
    ensures
        encode_utf8(suffix).is_suffix_of(encode_utf8(s)) <==> suffix.is_suffix_of(s),
{
    let bytes = encode_utf8(s);
    let tail = encode_utf8(suffix);
    encode_utf8_valid_utf8(s);
    encode_utf8_valid_utf8(suffix);
    encode_utf8_decode_utf8(s);
    encode_utf8_decode_utf8(suffix);
    if suffix.is_suffix_of(s) {
        let head = s.subrange(0, s.len() - suffix.len());
        assert(s =~= head + suffix);
        lemma_encode_utf8_concat(head, suffix);
        assert(bytes.subrange(bytes.len() - tail.len(), bytes.len() as int) =~= tail);
    }
    if tail.is_suffix_of(bytes) {
        let at = bytes.len() - tail.len();
        if tail.len() == 0 {
            assert(suffix =~= Seq::<char>::empty());
            assert(s.subrange(s.len() - suffix.len(), s.len() as int) =~= suffix);
        } else {
            is_char_boundary_start_end_of_seq(tail);
            is_char_boundary_iff_not_is_continuation_byte(tail, 0);
            assert(bytes[at] == tail[0]);
            is_char_boundary_iff_not_is_continuation_byte(bytes, at);
            decode_utf8_split(bytes, at);
            assert(bytes.subrange(at, bytes.len() as int) =~= tail);
            let head = decode_utf8(bytes.subrange(0, at));
            assert(s =~= head + suffix);
            assert(s.subrange(s.len() - suffix.len(), s.len() as int) =~= suffix);
        }
    }
}

/// Whether the two byte strings are equal.
pub fn bytes_eq(a: &[u8], b: &[u8]) -> (r: bool)
    ensures
        r == (a@ == b@),
{
    if a.len() != b.len() {
        return false;
    }
    let mut i: usize = 0;
    while i < a.len()
        invariant
            a@.len() == b@.len(),
            i <= a@.len(),
            forall|j: int| 0 <= j < i ==> a@[j] == b@[j],
        decreases a@.len() - i,
    {
        if a[i] != b[i] {
            return false;
        }
        i += 1;
    }
    assert(a@ =~= b@);
    true
}

/// Whether `value` begins with `prefix`.
pub fn bytes_start_with(value: &[u8], prefix: &[u8]) -> (r: bool)
    ensures
        r == prefix@.is_prefix_of(value@),
{
    if prefix.len() > value.len() {
        return false;
    }
    let mut i: usize = 0;
    while i < prefix.len()
        invariant
            prefix@.len() <= value@.len(),
            i <= prefix@.len(),
            forall|j: int| 0 <= j < i ==> value@[j] == prefix@[j],
        decreases prefix@.len() - i,
    {
        if value[i] != prefix[i] {
            assert(value@.subrange(0, prefix@.len() as int)[i as int] != prefix@[i as int]);
            return false;
        }
        i += 1;
    }
    assert(prefix@ =~= value@.subrange(0, prefix@.len() as int));
    true
}

/// Whether `value` ends with `suffix`.
pub fn bytes_end_with(value: &[u8], suffix: &[u8]) -> (r: bool)
    ensures
        r == suffix@.is_suffix_of(value@),
{
    if suffix.len() > value.len() {
        return false;
    }
    let start: usize = value.len() - suffix.len();
    let mut i: usize = 0;
    while i < suffix.len()
        invariant
            suffix@.len() <= value@.len(),
            start + suffix@.len() == value@.len() <= usize::MAX,
            i <= suffix@.len(),
            forall|j: int| 0 <= j < i ==> value@[start + j] == suffix@[j],
        decreases suffix@.len() - i,
    {
        if value[start + i] != suffix[i] {
            assert(value@.subrange(start as int, value@.len() as int)[i as int]
                != suffix@[i as int]);
            return false;
        }
        i += 1;
    }
    assert(suffix@ =~= value@.subrange(start as int, value@.len() as int));
    true
}

/// Whether the two strings hold the same characters.
pub fn str_eq(a: &str, b: &str) -> (r: bool)
    ensures
        r == (a@ == b@),
{
    proof {
        lemma_encode_utf8_injective(a@, b@);
    }
    bytes_eq(a.as_bytes(), b.as_bytes())
}

/// Whether `s` ends with the characters of `suffix`.
pub fn str_ends_with(s: &str, suffix: &str) -> (r: bool)
    ensures
        r == suffix@.is_suffix_of(s@),
{
    proof {
        lemma_encode_utf8_suffix(s@, suffix@);
    }
    bytes_end_with(s.as_bytes(), suffix.as_bytes())
}

/// Calls `String::from_utf8` of the standard library.
///
/// Trusted: the bytes become a string exactly when they are valid UTF-8,
/// and the string then holds the characters that they encode.
#[verifier::external_body]
pub(crate) fn string_from_utf8(bytes: Vec<u8>) -> (r: Option<String>)
    ensures
        r is Some <==> valid_utf8(bytes@),
        r matches Some(s) ==> s@ == decode_utf8(bytes@),
{
    String::from_utf8(bytes).ok()
}

} // verus!
