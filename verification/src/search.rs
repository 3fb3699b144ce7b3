//! Searching a byte sequence for another: the first occurrence, and the
//! line on which it starts.

use vstd::prelude::*;
use vstd::string::StringSliceAdditionalSpecFns;

verus! {

/// `needle` stands in `hay` at byte offset `at`.
pub open spec fn found_at(needle: Seq<u8>, hay: Seq<u8>, at: int) -> bool {
    &&& 0 <= at
    &&& at + needle.len() <= hay.len()
    &&& hay.subrange(at, at + needle.len()) == needle
}

/// `needle` stands in `hay` at byte offset `at` and at no earlier offset.
pub open spec fn found_first_at(needle: Seq<u8>, hay: Seq<u8>, at: int) -> bool {
    &&& found_at(needle, hay, at)
    &&& forall|earlier: int| 0 <= earlier < at ==> !found_at(needle, hay, earlier)
}

/// The byte offset of the first occurrence of `needle` in `hay`.
pub open spec fn first_position(needle: Seq<u8>, hay: Seq<u8>) -> Option<int> {
    if exists|at: int| found_first_at(needle, hay, at) {
        Some(choose|at: int| found_first_at(needle, hay, at))
    } else {
        None
    }
}

/// The line-feed byte.
pub const LINE_FEED: u8 = 0x0A;

/// How many line feeds the bytes hold.
pub open spec fn line_feeds(bytes: Seq<u8>) -> nat {
    bytes.filter(|b: u8| b == LINE_FEED).len()
}

/// The number of the line, counted from one, on which the first
/// occurrence of `needle` in `hay` starts.
pub open spec fn first_line_with(needle: Seq<u8>, hay: Seq<u8>) -> Option<nat> {
    match first_position(needle, hay) {
        Some(at) => Some(1 + line_feeds(hay.take(at))),
        None => None,
    }
}

/// Tells whether `needle` stands in `hay` at offset `at`.
fn stands_at(hay: &[u8], needle: &[u8], at: usize) -> (found: bool)
    requires
        at + needle@.len() <= hay@.len(),
    ensures
        found == found_at(needle@, hay@, at as int),
{
    let size: usize = hay.len();
    let mut k: usize = 0;
    while k < needle.len()
        invariant
            k <= needle@.len(),
            at + needle@.len() <= hay@.len() == size,
            forall|j: int| 0 <= j < k ==> hay@[at + j] == needle@[j],
        decreases needle@.len() - k,
    {
        if hay[at + k] != needle[k] {
            assert(hay@.subrange(at as int, at + needle@.len())[k as int] != needle@[k as int]);
            return false;
        }
        k += 1;
    }
    assert(hay@.subrange(at as int, at + needle@.len()) =~= needle@);
    true
}

/// Finds the first occurrence of `needle` in `hay`.
pub fn find_bytes(hay: &[u8], needle: &[u8]) -> (position: Option<usize>)
    ensures
        match position {
            Some(at) => first_position(needle@, hay@) == Some(at as int) && found_first_at(
                needle@,
                hay@,
                at as int,
            ),
            None => first_position(needle@, hay@) is None && forall|at: int|
                !found_at(needle@, hay@, at),
        },
{
    if needle.len() > hay.len() {
        return None;
    }
    let last: usize = hay.len() - needle.len();
    let mut at: usize = 0;
    loop
        invariant
            at <= last,
            last == hay@.len() - needle@.len(),
            forall|earlier: int| 0 <= earlier < at ==> !found_at(needle@, hay@, earlier),
        decreases last - at,
    {
        if stands_at(hay, needle, at) {
            proof {
                lemma_first_position_is_unique(needle@, hay@, at as int);
            }
            return Some(at);
        }
        if at == last {
            return None;
        }
        at += 1;
    }
}

/// There is one first occurrence at most.
proof fn lemma_first_position_is_unique(needle: Seq<u8>, hay: Seq<u8>, at: int)
    requires
        found_first_at(needle, hay, at),
    ensures
        first_position(needle, hay) == Some(at),
{
    let chosen = choose|at: int| found_first_at(needle, hay, at);
    assert(found_first_at(needle, hay, chosen));
    if chosen < at {
        assert(!found_at(needle, hay, chosen));
    }
    if at < chosen {
        assert(!found_at(needle, hay, at));
    }
}

/// Counts the line feeds among the first `end` bytes.
fn count_line_feeds(bytes: &[u8], end: usize) -> (count: usize)
    requires
        end <= bytes@.len(),
    ensures
        count == line_feeds(bytes@.take(end as int)),
        count <= end,
{
    let ghost is_feed = |b: u8| b == LINE_FEED;
    let mut count: usize = 0;
    let mut k: usize = 0;
    assert(bytes@.take(0).filter(is_feed).len() == 0) by {
        assert(bytes@.take(0) =~= Seq::<u8>::empty());
        reveal(Seq::filter);
    }
    while k < end
        invariant
            k <= end <= bytes@.len(),
            is_feed == (|b: u8| b == LINE_FEED),
            count == bytes@.take(k as int).filter(is_feed).len(),
            count <= k,
        decreases end - k,
    {
        proof {
            assert(bytes@.take(k + 1) =~= bytes@.take(k as int).push(bytes@[k as int]));
            bytes@.take(k as int).lemma_filter_push(bytes@[k as int], is_feed);
        }
        if bytes[k] == LINE_FEED {
            count += 1;
        }
        k += 1;
    }
    count
}

/// Finds the number of the line, counted from one, on which `pattern`
/// first occurs in `content`.
pub fn find_line_number(content: &str, pattern: &str) -> (line: Option<usize>)
    ensures
        match line {
            Some(number) => first_line_with(pattern.spec_bytes(), content.spec_bytes()) == Some(
                number as nat,
            ),
            None => first_line_with(pattern.spec_bytes(), content.spec_bytes()) is None,
        },
{
    let hay = content.as_bytes();
    let needle = pattern.as_bytes();
    let size: usize = hay.len();
    match find_bytes(hay, needle) {
        Some(at) => {
            let feeds = count_line_feeds(hay, at);
            proof {
                if needle@.len() == 0 {
                    assert(hay@.subrange(0, 0) =~= needle@);
                    assert(found_at(needle@, hay@, 0));
                }
            }
            Some(feeds + 1)
        },
        None => None,
    }
}

/// Where a sequence occurs at all, it has a first occurrence.
proof fn lemma_least_occurrence(needle: Seq<u8>, hay: Seq<u8>, at: int)
    requires
        found_at(needle, hay, at),
    ensures
        exists|first: int| found_first_at(needle, hay, first),
    decreases at,
{
    if exists|earlier: int| 0 <= earlier < at && found_at(needle, hay, earlier) {
        let earlier = choose|earlier: int| 0 <= earlier < at && found_at(needle, hay, earlier);
        lemma_least_occurrence(needle, hay, earlier);
    } else {
        assert(found_first_at(needle, hay, at));
    }
}

/// A sequence has a first line exactly when it occurs.
pub proof fn lemma_first_line_exists_iff_found(needle: Seq<u8>, hay: Seq<u8>)
    ensures
        first_line_with(needle, hay) is Some <==> exists|at: int| found_at(needle, hay, at),
        first_line_with(needle, hay) matches Some(line) ==> 1 <= line <= hay.len() + 1,
{
    if exists|at: int| found_at(needle, hay, at) {
        let at = choose|at: int| found_at(needle, hay, at);
        lemma_least_occurrence(needle, hay, at);
    }
    if first_line_with(needle, hay) is Some {
        let first = choose|at: int| found_first_at(needle, hay, at);
        assert(found_at(needle, hay, first));
        hay.take(first).lemma_filter_len(|b: u8| b == LINE_FEED);
    }
}

} // verus!
