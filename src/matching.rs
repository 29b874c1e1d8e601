use vstd::prelude::*;
use vstd::utf8::encode_utf8;

use crate::records::{InputRecord, SearchCandidate};

verus! {

/// `p` is a prefix of `s`.
pub open spec fn is_prefix(p: Seq<u8>, s: Seq<u8>) -> bool {
    p.len() <= s.len() && s.subrange(0, p.len() as int) == p
}

/// The UTF-8 encoding of `s` begins with that of `prefix`.
pub open spec fn starts_with_spec(s: Seq<char>, prefix: Seq<char>) -> bool {
    is_prefix(encode_utf8(prefix), encode_utf8(s))
}

/// Byte-wise prefix test on two strings.
pub fn starts_with(s: &str, prefix: &str) -> (r: bool)
    ensures
        r == starts_with_spec(s@, prefix@),
{
    let sb = s.as_bytes();
    let pb = prefix.as_bytes();
    if pb.len() > sb.len() {
        return false;
    }
    let mut i: usize = 0;
    while i < pb.len()
        invariant
            pb.len() <= sb.len(),
            i <= pb.len(),
            sb@ == encode_utf8(s@),
            pb@ == encode_utf8(prefix@),
            forall|j: int| 0 <= j < i ==> sb@[j] == pb@[j],
        decreases pb.len() - i,
    {
        if sb[i] != pb[i] {
            assert(sb@.subrange(0, pb@.len() as int)[i as int] != pb@[i as int]);
            return false;
        }
        i = i + 1;
    }
    assert(sb@.subrange(0, pb@.len() as int) =~= pb@);
    true
}

/// Why a diary entry got no output row.
pub enum SkipReason {
    /// The search did not return exactly one candidate; holds how many it returned.
    ResultCount(usize),
    /// The single candidate's title or release year differs; holds what it had.
    Mismatch { title: String, release_date: String },
}

/// The outcome of matching one diary entry against its search results.
pub enum MatchDecision {
    /// A unique, exact match: fetch the details of this id.
    Matched(u64),
    Skipped(SkipReason),
}

/// The candidate has exactly the entry's title and a release date that
/// begins with the entry's year.
pub open spec fn candidate_fits(r: InputRecord, c: SearchCandidate) -> bool {
    c.title@ == r.title@ && starts_with_spec(c.release_date@, r.year@)
}

/// The match policy: only a single candidate that fits is taken; several
/// candidates are never ranked against each other.
pub open spec fn decide_spec(r: InputRecord, cands: Seq<SearchCandidate>) -> MatchDecision {
    if cands.len() != 1 {
        MatchDecision::Skipped(SkipReason::ResultCount(cands.len() as usize))
    } else if candidate_fits(r, cands[0]) {
        MatchDecision::Matched(cands[0].external_id)
    } else {
        MatchDecision::Skipped(
            SkipReason::Mismatch { title: cands[0].title, release_date: cands[0].release_date },
        )
    }
}

/// Applies the match policy to the search results for one diary entry.
pub fn decide_match(record: &InputRecord, candidates: &Vec<SearchCandidate>) -> (d: MatchDecision)
    ensures
        d == decide_spec(*record, candidates@),
{
    if candidates.len() != 1 {
        return MatchDecision::Skipped(SkipReason::ResultCount(candidates.len()));
    }
    let c = &candidates[0];
    if c.title == record.title && starts_with(c.release_date.as_str(), record.year.as_str()) {
        MatchDecision::Matched(c.external_id)
    } else {
        MatchDecision::Skipped(
            SkipReason::Mismatch { title: c.title.clone(), release_date: c.release_date.clone() },
        )
    }
}

} // verus!
