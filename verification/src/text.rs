//! Texts as sequences of characters: occurrence of one text in another,
//! case folding, and small pieces of formatting.

use crate::search::{find_bytes, found_at};
use vstd::prelude::*;
use vstd::string::{StringExecFns, StringSliceAdditionalSpecFns};
use vstd::utf8::{
    decode_utf8, decode_utf8_split, encode_scalar, encode_utf8, encode_utf8_decode_utf8,
    encode_utf8_first_scalar, encode_utf8_valid_utf8, is_char_boundary,
    is_char_boundary_iff_not_is_continuation_byte, is_char_boundary_start_end_of_seq,
    length_of_first_scalar, pop_first_scalar, valid_utf8, valid_utf8_split,
};

verus! {

/// `needle` stands in `hay` at offset `at`.
pub open spec fn occurs_at(needle: Seq<char>, hay: Seq<char>, at: int) -> bool {
    &&& 0 <= at
    &&& at + needle.len() <= hay.len()
    &&& hay.subrange(at, at + needle.len()) == needle
}

/// `needle` occurs in `hay` as a contiguous run of characters.
pub open spec fn occurs_in(needle: Seq<char>, hay: Seq<char>) -> bool {
    exists|at: int| occurs_at(needle, hay, at)
}

/// At least one of `needles` occurs in `hay`.
pub open spec fn any_occurs(needles: Seq<Seq<char>>, hay: Seq<char>) -> bool {
    exists|k: int| 0 <= k < needles.len() && occurs_in(#[trigger] needles[k], hay)
}

/// The character sequences of a list of string slices.
pub open spec fn texts(list: Seq<&'static str>) -> Seq<Seq<char>> {
    list.map_values(|s: &'static str| s@)
}

/// The character sequences of a list of owned strings.
pub open spec fn string_views(list: Seq<String>) -> Seq<Seq<char>> {
    list.map_values(|s: String| s@)
}

/// The encoding of two texts in a row is the encoding of the first, then
/// that of the second.
proof fn lemma_encoding_of_concatenation(first: Seq<char>, second: Seq<char>)
    ensures
        encode_utf8(first + second) == encode_utf8(first) + encode_utf8(second),
    decreases first.len(),
{
    if first.len() == 0 {
        assert(first + second =~= second);
        assert(encode_utf8(first) + encode_utf8(second) =~= encode_utf8(second));
    } else {
        let rest = first.drop_first();
        assert((first + second).drop_first() =~= rest + second);
        lemma_encoding_of_concatenation(rest, second);
        assert(encode_scalar(first[0] as u32) + (encode_utf8(rest) + encode_utf8(second))
            =~= (encode_scalar(first[0] as u32) + encode_utf8(rest)) + encode_utf8(second));
    }
}

/// Where an encoding begins with another encoding, the other one ends
/// between two characters of the first.
proof fn lemma_encoded_prefix_ends_at_boundary(prefix: Seq<u8>, bytes: Seq<u8>)
    requires
        valid_utf8(prefix),
        valid_utf8(bytes),
        prefix.len() <= bytes.len(),
        bytes.subrange(0, prefix.len() as int) == prefix,
    ensures
        is_char_boundary(bytes, prefix.len() as int),
    decreases prefix.len(),
{
    if prefix.len() > 0 {
        let width = length_of_first_scalar(prefix);
        assert(bytes[0] == bytes.subrange(0, prefix.len() as int)[0]);
        assert(width == length_of_first_scalar(bytes));
        assert(1 <= width <= prefix.len());
        let prefix_rest = pop_first_scalar(prefix);
        let bytes_rest = pop_first_scalar(bytes);
        assert(bytes_rest.subrange(0, prefix_rest.len() as int) =~= prefix_rest) by {
            assert forall|k: int| 0 <= k < prefix_rest.len() implies bytes_rest[k]
                == prefix_rest[k] by {
                assert(bytes[width + k] == bytes.subrange(0, prefix.len() as int)[width + k]);
            }
        }
        lemma_encoded_prefix_ends_at_boundary(prefix_rest, bytes_rest);
    }
}

/// A text occurs in another exactly when its encoding occurs in the
/// encoding of the other.
pub proof fn lemma_occurs_by_bytes(needle: Seq<char>, hay: Seq<char>)
    ensures
        occurs_in(needle, hay) <==> exists|at: int|
            found_at(encode_utf8(needle), encode_utf8(hay), at),
{
    let small = encode_utf8(needle);
    let large = encode_utf8(hay);
    encode_utf8_valid_utf8(needle);
    encode_utf8_valid_utf8(hay);
    encode_utf8_decode_utf8(needle);
    encode_utf8_decode_utf8(hay);
    if occurs_in(needle, hay) {
        let at = choose|at: int| occurs_at(needle, hay, at);
        let before = hay.subrange(0, at);
        let after = hay.subrange(at + needle.len(), hay.len() as int);
        assert(hay =~= before + needle + after);
        lemma_encoding_of_concatenation(before + needle, after);
        lemma_encoding_of_concatenation(before, needle);
        let start = encode_utf8(before).len() as int;
        assert(large.subrange(start, start + small.len()) =~= small);
        assert(found_at(small, large, start));
    }
    if exists|at: int| found_at(small, large, at) {
        let at = choose|at: int| found_at(small, large, at);
        if small.len() == 0 {
            assert(needle.len() == 0) by {
                if needle.len() > 0 {
                    encode_utf8_first_scalar(needle);
                }
            }
            assert(hay.subrange(0, 0) =~= needle);
            assert(occurs_at(needle, hay, 0));
        } else {
            assert(large[at] == large.subrange(at, at + small.len())[0]);
            is_char_boundary_start_end_of_seq(small);
            is_char_boundary_iff_not_is_continuation_byte(small, 0);
            is_char_boundary_iff_not_is_continuation_byte(large, at);
            valid_utf8_split(large, at);
            decode_utf8_split(large, at);
            let head = large.subrange(0, at);
            let tail = large.subrange(at, large.len() as int);
            assert(tail.subrange(0, small.len() as int) =~= small);
            lemma_encoded_prefix_ends_at_boundary(small, tail);
            valid_utf8_split(tail, small.len() as int);
            decode_utf8_split(tail, small.len() as int);
            let before = decode_utf8(head);
            let after = decode_utf8(tail.subrange(small.len() as int, tail.len() as int));
            assert(hay =~= before + (needle + after));
            let start = before.len() as int;
            assert(hay.subrange(start, start + needle.len()) =~= needle);
            assert(occurs_at(needle, hay, start));
        }
    }
}

/// Tells whether `needle` occurs in `hay`.
pub fn contains(hay: &str, needle: &str) -> (found: bool)
    ensures
        found == occurs_in(needle@, hay@),
{
    proof {
        lemma_occurs_by_bytes(needle@, hay@);
    }
    match find_bytes(hay.as_bytes(), needle.as_bytes()) {
        Some(_) => true,
        None => false,
    }
}

/// The lower-case form that the standard library gives to a text.
pub uninterp spec fn lowercase_of(text: Seq<char>) -> Seq<char>;

/// `str::to_lowercase`: the lower-case equivalent of the text as a new
/// string. The contract only names the result. Trusted, not proved.
#[verifier::external_body]
pub(crate) fn lowercase(text: &str) -> (folded: String)
    ensures
        folded@ == lowercase_of(text@),
{
    text.to_lowercase()
}

/// The upper-case form that the standard library gives to a text.
pub uninterp spec fn uppercase_of(text: Seq<char>) -> Seq<char>;

/// `str::to_uppercase`: the upper-case equivalent of the text as a new
/// string. The contract only names the result. Trusted, not proved.
#[verifier::external_body]
pub(crate) fn uppercase(text: &str) -> (raised: String)
    ensures
        raised@ == uppercase_of(text@),
{
    text.to_uppercase()
}

/// Tells whether two texts are the same, by their UTF-8 bytes.
pub fn same_text(a: &str, b: &str) -> (same: bool)
    ensures
        same == (a@ == b@),
{
    let left = a.as_bytes();
    let right = b.as_bytes();
    if left.len() != right.len() {
        return false;
    }
    let mut k: usize = 0;
    while k < left.len()
        invariant
            k <= left@.len(),
            left@.len() == right@.len(),
            left@ == encode_utf8(a@),
            right@ == encode_utf8(b@),
            forall|j: int| 0 <= j < k ==> left@[j] == right@[j],
        decreases left@.len() - k,
    {
        if left[k] != right[k] {
            return false;
        }
        k += 1;
    }
    proof {
        assert(left@ =~= right@);
        encode_utf8_decode_utf8(a@);
        encode_utf8_decode_utf8(b@);
    }
    true
}

/// Tells whether one of `needles` occurs in `hay`.
pub fn contains_any(hay: &str, needles: &[&'static str]) -> (found: bool)
    ensures
        found == any_occurs(texts(needles@), hay@),
{
    let mut k: usize = 0;
    while k < needles.len()
        invariant
            k <= needles@.len(),
            forall|j: int| 0 <= j < k ==> !occurs_in(#[trigger] texts(needles@)[j], hay@),
        decreases needles@.len() - k,
    {
        if contains(hay, needles[k]) {
            assert(occurs_in(texts(needles@)[k as int], hay@));
            return true;
        }
        k += 1;
    }
    false
}

/// Copies a list of string slices into owned strings.
pub fn owned_texts(list: &[&'static str]) -> (owned: Vec<String>)
    ensures
        string_views(owned@) == texts(list@),
{
    let mut owned: Vec<String> = Vec::new();
    let mut k: usize = 0;
    while k < list.len()
        invariant
            k <= list@.len(),
            owned@.len() == k,
            forall|j: int| 0 <= j < k ==> (#[trigger] owned@[j])@ == list@[j]@,
        decreases list@.len() - k,
    {
        owned.push(list[k].to_string());
        k += 1;
    }
    assert(string_views(owned@) =~= texts(list@));
    owned
}

/// A text that occurs in a passage still occurs in it when more text is put
/// before and after the passage.
pub proof fn lemma_occurrence_survives_embedding(
    needle: Seq<char>,
    before: Seq<char>,
    passage: Seq<char>,
    after: Seq<char>,
)
    requires
        occurs_in(needle, passage),
    ensures
        occurs_in(needle, before + passage + after),
{
    let at = choose|at: int| occurs_at(needle, passage, at);
    let whole = before + passage + after;
    let moved = before.len() + at;
    assert(whole.subrange(moved, moved + needle.len()) =~= passage.subrange(
        at,
        at + needle.len(),
    ));
    assert(occurs_at(needle, whole, moved));
}

/// The decimal digits.
pub const DIGITS: [&'static str; 10] = ["0", "1", "2", "3", "4", "5", "6", "7", "8", "9"];

/// The decimal numeral of a number.
pub open spec fn decimal_of(n: nat) -> Seq<char>
    decreases n,
{
    if n < 10 {
        DIGITS@[n as int]@
    } else {
        decimal_of(n / 10) + DIGITS@[(n % 10) as int]@
    }
}

/// Writes a number as a decimal numeral.
pub fn decimal(n: usize) -> (numeral: String)
    ensures
        numeral@ == decimal_of(n as nat),
    decreases n,
{
    if n < 10 {
        DIGITS[n].to_string()
    } else {
        let mut numeral = decimal(n / 10);
        numeral.append(DIGITS[n % 10]);
        numeral
    }
}

/// A text written `times` times in a row.
pub open spec fn repeated(unit: Seq<char>, times: nat) -> Seq<char>
    decreases times,
{
    if times == 0 {
        Seq::empty()
    } else {
        repeated(unit, (times - 1) as nat) + unit
    }
}

/// Writes a text `times` times in a row.
pub fn repeat(unit: &str, times: usize) -> (row: String)
    ensures
        row@ == repeated(unit@, times as nat),
{
    let mut row = String::new();
    let mut k: usize = 0;
    while k < times
        invariant
            k <= times,
            row@ == repeated(unit@, k as nat),
        decreases times - k,
    {
        row.append(unit);
        k += 1;
    }
    row
}

/// The lines of a list: each item behind a dash, on a line of its own;
/// the first `n` items.
pub open spec fn bullet_lines(items: Seq<Seq<char>>, n: int) -> Seq<char>
    decreases n,
{
    if n <= 0 {
        Seq::empty()
    } else {
        bullet_lines(items, n - 1) + "- "@ + items[n - 1] + "\n"@
    }
}

/// Writes a list, each item behind a dash, on a line of its own.
pub fn bullets(items: &Vec<String>) -> (lines: String)
    ensures
        lines@ == bullet_lines(string_views(items@), items@.len() as int),
{
    let mut lines = String::new();
    let mut k: usize = 0;
    while k < items.len()
        invariant
            k <= items@.len(),
            lines@ == bullet_lines(string_views(items@), k as int),
        decreases items@.len() - k,
    {
        assert(string_views(items@)[k as int] == items@[k as int]@);
        lines.append("- ");
        lines.append(items[k].as_str());
        lines.append("\n");
        k += 1;
    }
    lines
}

} // verus!
