//! The result ranker: among the hits of one lookup, the one with the most
//! votes wins.

use vstd::prelude::*;

verus! {

/// One search hit. `rating_value` is the rating as decimal text, such as
/// `7.5`; `rating_votes` is the number of votes behind it.
#[derive(Debug, PartialEq, Eq)]
pub struct Candidate {
    pub id: String,
    pub title_text: String,
    pub start_year: Option<u32>,
    pub genres: String,
    pub rating_value: Option<String>,
    pub rating_votes: Option<u32>,
}

/// The mathematical content of a [`Candidate`].
pub struct CandidateView {
    pub id: Seq<char>,
    pub title_text: Seq<char>,
    pub start_year: Option<u32>,
    pub genres: Seq<char>,
    pub rating_value: Option<Seq<char>>,
    pub rating_votes: Option<u32>,
}

impl View for Candidate {
    type V = CandidateView;

    open spec fn view(&self) -> CandidateView {
        CandidateView {
            id: self.id@,
            title_text: self.title_text@,
            start_year: self.start_year,
            genres: self.genres@,
            rating_value: match self.rating_value {
                Some(text) => Some(text@),
                None => None,
            },
            rating_votes: self.rating_votes,
        }
    }
}

impl Clone for Candidate {
    fn clone(&self) -> (copy: Self)
        ensures
            copy == *self,
    {
        Candidate {
            id: self.id.clone(),
            title_text: self.title_text.clone(),
            start_year: self.start_year,
            genres: self.genres.clone(),
            rating_value: match &self.rating_value {
                Some(text) => Some(text.clone()),
                None => None,
            },
            rating_votes: self.rating_votes,
        }
    }
}

/// The winner of a ranking, with the key it won by.
#[derive(Debug, PartialEq, Eq)]
pub struct RankedSelection {
    pub candidate: Candidate,
    pub rank_key: u32,
}

/// The key a candidate is ranked by: its votes, and zero where it has none.
pub open spec fn rank_key(c: CandidateView) -> nat {
    match c.rating_votes {
        Some(votes) => votes as nat,
        None => 0,
    }
}

/// The rank keys of a list of candidates, in input order.
pub open spec fn rank_keys(candidates: Seq<Candidate>) -> Seq<nat> {
    Seq::new(candidates.len(), |i: int| rank_key(candidates[i]@))
}

/// The position of the winner among `keys`: the greatest key, and among
/// equal greatest keys the one that comes last.
pub open spec fn best_index(keys: Seq<nat>) -> int
    decreases keys.len(),
{
    if keys.len() <= 1 {
        0
    } else {
        let earlier = best_index(keys.drop_last());
        if keys.last() >= keys[earlier] {
            keys.len() - 1
        } else {
            earlier
        }
    }
}

/// What makes position `i` the winner: no key is greater, and every later key
/// is smaller.
pub open spec fn is_best(keys: Seq<nat>, i: int) -> bool {
    &&& 0 <= i < keys.len()
    &&& forall|j: int| 0 <= j < keys.len() ==> keys[j] <= keys[i]
    &&& forall|j: int| i < j < keys.len() ==> keys[j] < keys[i]
}

/// An order of the positions of `keys` as a stable ascending sort leaves
/// them: every position once, smaller keys first, equal keys in input order.
pub open spec fn is_stable_ascending(keys: Seq<nat>, order: Seq<int>) -> bool {
    &&& order.len() == keys.len()
    &&& forall|a: int| 0 <= a < order.len() ==> 0 <= #[trigger] order[a] < keys.len()
    &&& forall|j: int| 0 <= j < keys.len() ==> #[trigger] order.contains(j)
    &&& forall|a: int, b: int|
        0 <= a < b < order.len() ==> keys[#[trigger] order[a]] < keys[#[trigger] order[b]] || (
        keys[order[a]] == keys[order[b]] && order[a] < order[b])
}

/// Whether the candidate at position `i` is the first with its id.
pub open spec fn is_first_seen(candidates: Seq<Candidate>, i: int) -> bool {
    forall|j: int| 0 <= j < i ==> candidates[j]@.id != candidates[i]@.id
}

/// The candidates without those whose id was seen before: of each id the
/// first instance stays, in input order.
pub open spec fn deduped(candidates: Seq<Candidate>) -> Seq<Candidate>
    decreases candidates.len(),
{
    if candidates.len() == 0 {
        Seq::empty()
    } else {
        let front = deduped(candidates.drop_last());
        if is_first_seen(candidates, candidates.len() - 1) {
            front.push(candidates.last())
        } else {
            front
        }
    }
}

/// Whether a candidate is the first of its id depends on the candidates up
/// to it alone.
proof fn lemma_first_seen_in_prefix(candidates: Seq<Candidate>, prefix: Seq<Candidate>, i: int)
    requires
        0 <= i < prefix.len() <= candidates.len(),
        forall|j: int| 0 <= j <= i ==> prefix[j] == candidates[j],
    ensures
        is_first_seen(prefix, i) == is_first_seen(candidates, i),
{
    if is_first_seen(candidates, i) {
        assert forall|j: int| 0 <= j < i implies prefix[j]@.id != prefix[i]@.id by {
            assert(prefix[j] == candidates[j]);
        }
    } else {
        let j = choose|j: int| 0 <= j < i && candidates[j]@.id == candidates[i]@.id;
        assert(prefix[j] == candidates[j]);
    }
}

/// Every candidate that `deduped` keeps is the first of its id in the input,
/// the kept ones stand in input order, and every first instance is kept.
pub proof fn lemma_deduped(candidates: Seq<Candidate>) -> (origin: Seq<int>)
    ensures
        origin.len() == deduped(candidates).len(),
        forall|k: int|
            0 <= k < origin.len() ==> 0 <= #[trigger] origin[k] < candidates.len() && deduped(
                candidates,
            )[k] == candidates[origin[k]] && is_first_seen(candidates, origin[k]),
        forall|k: int, l: int| 0 <= k < l < origin.len() ==> origin[k] < origin[l],
        forall|i: int|
            0 <= i < candidates.len() && is_first_seen(candidates, i)
                ==> #[trigger] origin.contains(i),
    decreases candidates.len(),
{
    if candidates.len() == 0 {
        Seq::empty()
    } else {
        let front = candidates.drop_last();
        let last = candidates.len() - 1;
        let before = lemma_deduped(front);
        assert forall|i: int| 0 <= i < front.len() implies (is_first_seen(front, i)
            == is_first_seen(candidates, i)) by {
            lemma_first_seen_in_prefix(candidates, front, i);
        }
        let origin = if is_first_seen(candidates, last) {
            before.push(last)
        } else {
            before
        };
        assert forall|i: int|
            0 <= i < candidates.len() && is_first_seen(candidates, i) implies origin.contains(
            i,
        ) by {
            if i < last {
                assert(before.contains(i));
                let k = choose|k: int| 0 <= k < before.len() && before[k] == i;
                assert(origin[k] == i);
            } else {
                assert(origin[origin.len() - 1] == i);
            }
        }
        origin
    }
}

/// No id stands twice among the candidates that `deduped` keeps.
pub proof fn lemma_deduped_ids_differ(candidates: Seq<Candidate>, k: int, l: int)
    requires
        0 <= k < l < deduped(candidates).len(),
    ensures
        deduped(candidates)[k]@.id != deduped(candidates)[l]@.id,
{
    let origin = lemma_deduped(candidates);
    assert(origin[k] < origin[l]);
}

/// `best_index` names the winner of any non-empty list.
pub proof fn lemma_best_index(keys: Seq<nat>)
    requires
        keys.len() > 0,
    ensures
        is_best(keys, best_index(keys)),
    decreases keys.len(),
{
    if keys.len() > 1 {
        let front = keys.drop_last();
        lemma_best_index(front);
        assert(forall|j: int| 0 <= j < front.len() ==> front[j] == keys[j]);
    }
}

/// A list has one winner only.
pub proof fn lemma_best_unique(keys: Seq<nat>, i: int, j: int)
    requires
        is_best(keys, i),
        is_best(keys, j),
    ensures
        i == j,
{
    if i < j {
        assert(keys[i] <= keys[j]);
    } else if j < i {
        assert(keys[j] <= keys[i]);
    }
}

/// The winner is the last element of the stable ascending sort by key.
pub proof fn lemma_last_of_stable_sort(keys: Seq<nat>, order: Seq<int>)
    requires
        keys.len() > 0,
        is_stable_ascending(keys, order),
    ensures
        order.last() == best_index(keys),
{
    let last = order.len() - 1;
    let p = order[last];
    assert forall|j: int| 0 <= j < keys.len() && j != p implies keys[j] < keys[p] || (keys[j]
        == keys[p] && j < p) by {
        assert(order.contains(j));
        let a = choose|a: int| 0 <= a < order.len() && order[a] == j;
        assert(keys[order[a]] < keys[order[last]] || (keys[order[a]] == keys[order[last]]
            && order[a] < order[last]));
    }
    lemma_best_index(keys);
    lemma_best_unique(keys, p, best_index(keys));
}

/// A candidate without votes never wins against one that has a vote.
pub proof fn lemma_unrated_ranks_lowest(candidates: Seq<Candidate>, unrated: int, rated: int)
    requires
        0 <= unrated < candidates.len(),
        0 <= rated < candidates.len(),
        candidates[unrated]@.rating_votes is None,
        candidates[rated]@.rating_votes matches Some(votes) && votes >= 1,
    ensures
        rank_key(candidates[unrated]@) == 0,
        rank_key(candidates[unrated]@) < rank_key(candidates[rated]@),
        best_index(rank_keys(candidates)) != unrated,
{
    let keys = rank_keys(candidates);
    lemma_best_index(keys);
    assert(keys[rated] <= keys[best_index(keys)]);
}

/// The key of one candidate.
pub fn key_of(candidate: &Candidate) -> (key: u32)
    ensures
        key == rank_key(candidate@),
{
    match candidate.rating_votes {
        Some(votes) => votes,
        None => 0,
    }
}

/// The position of the winner, or nothing for an empty list.
pub fn best_position(candidates: &Vec<Candidate>) -> (r: Option<usize>)
    ensures
        r is None <==> candidates@.len() == 0,
        r matches Some(i) ==> i == best_index(rank_keys(candidates@)) && is_best(
            rank_keys(candidates@),
            i as int,
        ),
{
    if candidates.len() == 0 {
        return None;
    }
    let ghost keys = rank_keys(candidates@);
    let mut best: usize = 0;
    let mut best_key: u32 = key_of(&candidates[0]);
    let mut i: usize = 1;
    while i < candidates.len()
        invariant
            1 <= i <= candidates.len(),
            keys == rank_keys(candidates@),
            best == best_index(keys.take(i as int)),
            0 <= best < i,
            best_key == keys[best as int],
        decreases candidates.len() - i,
    {
        let key = key_of(&candidates[i]);
        proof {
            let now = keys.take(i as int + 1);
            assert(now.drop_last() =~= keys.take(i as int));
        }
        if key >= best_key {
            best = i;
            best_key = key;
        }
        i += 1;
    }
    proof {
        assert(keys.take(i as int) =~= keys);
        lemma_best_index(keys);
    }
    Some(best)
}

/// Whether the id of the candidate at `i` stands at an earlier position too.
fn seen_before(candidates: &Vec<Candidate>, i: usize) -> (seen: bool)
    requires
        i < candidates.len(),
    ensures
        seen == !is_first_seen(candidates@, i as int),
{
    let mut j: usize = 0;
    while j < i
        invariant
            j <= i < candidates.len(),
            forall|k: int| 0 <= k < j ==> candidates@[k]@.id != candidates@[i as int]@.id,
        decreases i - j,
    {
        if candidates[j].id == candidates[i].id {
            return true;
        }
        j += 1;
    }
    false
}

/// Drops every candidate whose id was seen before. For callers that want
/// each title once: ranking itself never drops anything.
pub fn dedup_by_id(candidates: &Vec<Candidate>) -> (kept: Vec<Candidate>)
    ensures
        kept@ == deduped(candidates@),
{
    let mut kept: Vec<Candidate> = Vec::new();
    let mut i: usize = 0;
    while i < candidates.len()
        invariant
            i <= candidates.len(),
            kept@ == deduped(candidates@.take(i as int)),
        decreases candidates.len() - i,
    {
        let seen = seen_before(candidates, i);
        proof {
            let now = candidates@.take(i as int + 1);
            assert(now.drop_last() =~= candidates@.take(i as int));
            lemma_first_seen_in_prefix(candidates@, now, i as int);
        }
        if !seen {
            kept.push(candidates[i].clone());
        }
        i += 1;
    }
    proof {
        assert(candidates@.take(i as int) =~= candidates@);
    }
    kept
}

/// Picks the candidate with the most votes; among candidates with equally
/// many, the one that comes last in the list. The list is left as it is.
pub fn select_best(candidates: &Vec<Candidate>) -> (r: Option<RankedSelection>)
    ensures
        r is None <==> candidates@.len() == 0,
        r matches Some(selection) ==> {
            let i = best_index(rank_keys(candidates@));
            &&& is_best(rank_keys(candidates@), i)
            &&& selection.candidate == candidates@[i]
            &&& selection.rank_key == rank_key(candidates@[i]@)
        },
{
    match best_position(candidates) {
        None => None,
        Some(i) => {
            let candidate = candidates[i].clone();
            let rank_key = key_of(&candidates[i]);
            Some(RankedSelection { candidate, rank_key })
        },
    }
}

} // verus!
