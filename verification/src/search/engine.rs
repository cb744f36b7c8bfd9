//! Ranking of search candidates and the search flow around the cache.
//!
//! A search first asks the cache; on a miss the caller fetches candidates
//! from the full-text index (`SearchStep::Lookup`) and hands them back to
//! `complete_search`, which scores, filters, orders, truncates and caches them.

use crate::config::SearchConfig;
use crate::numeric::{f32_round, f32_value, lemma_round_bounded, lemma_unit_positive};
use crate::search::cache::SearchCache;
use crate::search::{copy_option_string, copy_results, results_view, SearchResult};
use crate::text::{lowercase, push_char, to_lowercase, trim_whitespace, trimmed_text};
use vstd::prelude::*;

verus! {

/// The score that skim's default fuzzy matcher (`SkimMatcherV2::default()`)
/// gives `choice` for `pattern`, `None` when the pattern does not match.
pub uninterp spec fn skim_score(choice: Seq<char>, pattern: Seq<char>) -> Option<i64>;

/// `FuzzyMatcher::fuzzy_match` of `SkimMatcherV2::default()`. Claimed, from
/// the crate's source: the result is the named score, it fits in an `i32`
/// (every score is computed in `i32`), and an empty pattern scores 0.
#[verifier::external_body]
fn skim_fuzzy_match(choice: &str, pattern: &str) -> (r: Option<i64>)
    ensures
        r == skim_score(choice@, pattern@),
        r matches Some(s) ==> i32::MIN <= s <= i32::MAX,
        pattern@.len() == 0 ==> r == Some(0i64),
{
    fuzzy_matcher::FuzzyMatcher::fuzzy_match(
        &fuzzy_matcher::skim::SkimMatcherV2::default(),
        choice,
        pattern,
    )
}

#[verifier::external_type_specification]
#[verifier::external_body]
pub struct ExSystemTime(std::time::SystemTime);

/// `SystemTime::now`: the machine's clock. Nothing is claimed of it.
#[verifier::external_body]
fn system_time_now() -> (t: std::time::SystemTime) {
    std::time::SystemTime::now()
}

/// `SystemTime::duration_since(UNIX_EPOCH)`: the time from the Unix epoch
/// to `t`; `None` when `t` is before the epoch. Nothing is claimed of it.
#[verifier::external_body]
fn duration_since_epoch(t: &std::time::SystemTime) -> (d: Option<std::time::Duration>) {
    match t.duration_since(std::time::UNIX_EPOCH) {
        Ok(d) => Some(d),
        Err(_) => None,
    }
}

/// `Duration::as_secs`: the whole seconds of `d`. Nothing is claimed of it.
#[verifier::external_body]
fn whole_seconds(d: &std::time::Duration) -> (s: u64) {
    d.as_secs()
}

/// The current time in whole seconds since the Unix epoch; `None` when the
/// clock is set before the epoch (or beyond what an `i64` holds).
fn unix_now() -> (t: Option<i64>)
    ensures
        t matches Some(s) ==> s >= 0,
{
    match duration_since_epoch(&system_time_now()) {
        Some(d) => {
            let s = whole_seconds(&d);
            if s <= 9223372036854775807u64 { Some(s as i64) } else { None }
        },
        None => None,
    }
}

/// The time scoring runs at: the clock's reading, or the epoch (0) when the
/// clock is before it.
fn scoring_time() -> (t: i64)
    ensures
        t >= 0,
{
    match unix_now() {
        Some(t) => t,
        None => 0,
    }
}

/// Seconds in a day.
pub const SECONDS_PER_DAY: i64 = 86400;

pub open spec fn score_or_zero(s: Option<i64>) -> int {
    match s {
        Some(v) => v as int,
        None => 0,
    }
}

/// The better of the fuzzy scores of the lowercased name and the lowercased
/// path against the lowercased query (0 where there is no match).
pub open spec fn fuzzy_score(query: Seq<char>, r: SearchResult) -> int {
    let q = lowercase(query);
    let by_name = score_or_zero(skim_score(lowercase(r.name@), q));
    let by_path = score_or_zero(skim_score(lowercase(r.path@), q));
    if by_name >= by_path { by_name } else { by_path }
}

/// Directories get 10 extra points.
pub open spec fn directory_bonus(r: SearchResult) -> int {
    if r.is_directory { 10 } else { 0 }
}

/// Files changed less than 7 whole days ago get 20 extra points, less than
/// 30 whole days ago 10 (files dated in the future count as recent).
pub open spec fn recency_bonus(now: int, modified: int) -> int {
    if now - modified < 7 * SECONDS_PER_DAY {
        20
    } else if now - modified < 30 * SECONDS_PER_DAY {
        10
    } else {
        0
    }
}

/// `r` with its score set: fuzzy score plus bonuses, as an `f32` holds it.
pub open spec fn scored(query: Seq<char>, r: SearchResult, now: int) -> SearchResult {
    SearchResult {
        score: f32_value(fuzzy_score(query, r) + directory_bonus(r) + recency_bonus(now, r.modified as int)) as i64,
        ..r
    }
}

pub open spec fn score_all(query: Seq<char>, rs: Seq<SearchResult>, now: int) -> Seq<SearchResult> {
    rs.map_values(|r: SearchResult| scored(query, r, now))
}

/// The results whose score reaches `min`, in their order.
pub open spec fn keep_at_least(rs: Seq<SearchResult>, min: int) -> Seq<SearchResult>
    decreases rs.len(),
{
    if rs.len() == 0 {
        rs
    } else {
        let kept = keep_at_least(rs.drop_last(), min);
        if rs.last().score >= min {
            kept.push(rs.last())
        } else {
            kept
        }
    }
}

/// Fuzzy scoring at time `now`: every result scored, those below the minimum
/// score (compared as `f32` values) dropped.
pub open spec fn fuzzy_scored(query: Seq<char>, rs: Seq<SearchResult>, now: int, min_score: i64) -> Seq<SearchResult> {
    keep_at_least(score_all(query, rs, now), f32_value(min_score as int))
}

/// Where a result with score `key` goes in a list ordered by decreasing
/// score: after every entry scoring at least `key`.
pub open spec fn insert_pos(sorted: Seq<SearchResult>, key: i64) -> int
    decreases sorted.len(),
{
    if sorted.len() == 0 {
        0
    } else if sorted[0].score < key {
        0
    } else {
        1 + insert_pos(sorted.drop_first(), key)
    }
}

/// Stable ordering by decreasing score: equal scores keep their order.
pub open spec fn sort_by_score(rs: Seq<SearchResult>) -> Seq<SearchResult>
    decreases rs.len(),
{
    if rs.len() == 0 {
        rs
    } else {
        let sorted = sort_by_score(rs.drop_last());
        sorted.insert(insert_pos(sorted, rs.last().score), rs.last())
    }
}

/// The first `n` entries (all of them if there are fewer).
pub open spec fn take_at_most(rs: Seq<SearchResult>, n: int) -> Seq<SearchResult> {
    if rs.len() <= n { rs } else { rs.take(n) }
}

/// What a search returns for `candidates` at time `now`.
pub open spec fn ranked(
    query: Seq<char>,
    candidates: Seq<SearchResult>,
    now: int,
    min_score: i64,
    max_results: int,
) -> Seq<SearchResult> {
    take_at_most(sort_by_score(fuzzy_scored(query, candidates, now, min_score)), max_results)
}

/// Ordered by decreasing score.
pub open spec fn is_sorted_by_score(rs: Seq<SearchResult>) -> bool {
    forall|i: int, j: int| 0 <= i < j < rs.len() ==> rs[i].score >= rs[j].score
}

proof fn lemma_insert_pos_bounds(sorted: Seq<SearchResult>, key: i64)
    ensures
        0 <= insert_pos(sorted, key) <= sorted.len(),
        forall|k: int| 0 <= k < insert_pos(sorted, key) ==> sorted[k].score >= key,
        insert_pos(sorted, key) < sorted.len() ==> sorted[insert_pos(sorted, key)].score < key,
    decreases sorted.len(),
{
    if sorted.len() > 0 && sorted[0].score >= key {
        lemma_insert_pos_bounds(sorted.drop_first(), key);
        assert forall|k: int| 0 <= k < insert_pos(sorted, key) implies sorted[k].score >= key by {
            if k > 0 {
                assert(sorted[k] == sorted.drop_first()[k - 1]);
            }
        }
    }
}

proof fn lemma_insert_pos_is(sorted: Seq<SearchResult>, key: i64, j: int)
    requires
        0 <= j <= sorted.len(),
        forall|k: int| 0 <= k < j ==> sorted[k].score >= key,
        j < sorted.len() ==> sorted[j].score < key,
    ensures
        insert_pos(sorted, key) == j,
    decreases j,
{
    if j > 0 {
        let rest = sorted.drop_first();
        assert forall|k: int| 0 <= k < j - 1 implies rest[k].score >= key by {
            assert(rest[k] == sorted[k + 1]);
        }
        if j - 1 < rest.len() {
            assert(rest[j - 1] == sorted[j]);
        }
        lemma_insert_pos_is(rest, key, j - 1);
    }
}

/// Sorting by score yields a list ordered by decreasing score, holding the
/// same results as many times each.
pub proof fn sort_by_score_is_ordered_permutation(rs: Seq<SearchResult>)
    ensures
        is_sorted_by_score(sort_by_score(rs)),
        sort_by_score(rs).to_multiset() == rs.to_multiset(),
        sort_by_score(rs).len() == rs.len(),
    decreases rs.len(),
{
    if rs.len() > 0 {
        let t = sort_by_score(rs.drop_last());
        let x = rs.last();
        sort_by_score_is_ordered_permutation(rs.drop_last());
        lemma_insert_pos_bounds(t, x.score);
        let p = insert_pos(t, x.score);
        let r = t.insert(p, x);
        assert forall|i: int, j: int| 0 <= i < j < r.len() implies r[i].score >= r[j].score by {
            if j < p {
                assert(r[i] == t[i] && r[j] == t[j]);
            } else if j == p {
                assert(r[i] == t[i]);
            } else if i < p {
                assert(r[i] == t[i] && r[j] == t[j - 1]);
            } else if i == p {
                assert(r[j] == t[j - 1]);
                assert(t[p].score < x.score);
                assert(t[p].score >= t[j - 1].score || p == j - 1);
            } else {
                assert(r[i] == t[i - 1] && r[j] == t[j - 1]);
            }
        }
        broadcast use vstd::seq_lib::group_to_multiset_ensures;
        assert(rs =~= rs.drop_last().push(x));
        assert(r.to_multiset() =~= t.to_multiset().insert(x));
    }
}

/// The result list is at most `max_results` long, ordered by decreasing
/// score, and every result in it reaches the minimum score.
pub proof fn ranked_is_bounded_ordered_and_filtered(
    query: Seq<char>,
    candidates: Seq<SearchResult>,
    now: int,
    min_score: i64,
    max_results: int,
)
    requires
        max_results >= 0,
    ensures
        ranked(query, candidates, now, min_score, max_results).len() <= max_results,
        is_sorted_by_score(ranked(query, candidates, now, min_score, max_results)),
        forall|i: int| 0 <= i < ranked(query, candidates, now, min_score, max_results).len()
            ==> #[trigger] ranked(query, candidates, now, min_score, max_results)[i].score >= f32_value(min_score as int),
{
    let f = fuzzy_scored(query, candidates, now, min_score);
    sort_by_score_is_ordered_permutation(f);
    lemma_keep_at_least_reaches(score_all(query, candidates, now), f32_value(min_score as int));
    let s = sort_by_score(f);
    assert forall|i: int| 0 <= i < s.len() implies s[i].score >= f32_value(min_score as int) by {
        broadcast use vstd::seq_lib::group_to_multiset_ensures;
        assert(s.contains(s[i]));
        assert(s.to_multiset().count(s[i]) > 0);
        assert(f.to_multiset().count(s[i]) > 0);
        assert(f.contains(s[i]));
    }
}

/// How a result is scored, stated from the matcher up: the fuzzy part is
/// the better of skim's scores for the lowercased name and for the
/// lowercased path against the lowercased query (0 where there is no
/// match); a directory gets 10 more; a change less than 7 days old 20 more,
/// less than 30 days old 10 more; the total is held as an `f32` holds it.
/// Every other field is kept, and every candidate is scored, in order.
pub proof fn scores_take_the_best_of_name_and_path(query: Seq<char>, rs: Seq<SearchResult>, now: int, i: int)
    requires
        0 <= i < rs.len(),
    ensures
        score_all(query, rs, now).len() == rs.len(),
        ({
            let q = lowercase(query);
            let by_name: int = match skim_score(lowercase(rs[i].name@), q) { Some(v) => v as int, None => 0 };
            let by_path: int = match skim_score(lowercase(rs[i].path@), q) { Some(v) => v as int, None => 0 };
            let best: int = if by_name >= by_path { by_name } else { by_path };
            let dir: int = if rs[i].is_directory { 10 } else { 0 };
            let age: int = now - rs[i].modified;
            let recent: int = if age < 7 * 86400 { 20 } else if age < 30 * 86400 { 10 } else { 0 };
            &&& fuzzy_score(query, rs[i]) >= by_name
            &&& fuzzy_score(query, rs[i]) >= by_path
            &&& (fuzzy_score(query, rs[i]) == by_name || fuzzy_score(query, rs[i]) == by_path)
            &&& score_all(query, rs, now)[i].score == f32_value(best + dir + recent) as i64
            &&& score_all(query, rs, now)[i].path == rs[i].path
            &&& score_all(query, rs, now)[i].name == rs[i].name
            &&& score_all(query, rs, now)[i].extension == rs[i].extension
            &&& score_all(query, rs, now)[i].size == rs[i].size
            &&& score_all(query, rs, now)[i].modified == rs[i].modified
            &&& score_all(query, rs, now)[i].is_directory == rs[i].is_directory
        }),
{
}

/// Filtering keeps exactly the results whose score reaches the minimum, in
/// their order: a result is kept if and only if it was there and reaches it.
pub proof fn filtering_keeps_exactly_those_reaching_the_minimum(rs: Seq<SearchResult>, min: int)
    ensures
        forall|x: SearchResult| #[trigger] keep_at_least(rs, min).contains(x) <==> (rs.contains(x) && x.score >= min),
    decreases rs.len(),
{
    if rs.len() > 0 {
        let front = rs.drop_last();
        filtering_keeps_exactly_those_reaching_the_minimum(front, min);
        assert(rs =~= front.push(rs.last()));
        assert forall|x: SearchResult| #[trigger] keep_at_least(rs, min).contains(x) <==> (rs.contains(x) && x.score >= min) by {
            let kept = keep_at_least(front, min);
            if rs.last().score >= min {
                assert(keep_at_least(rs, min) == kept.push(rs.last()));
                if keep_at_least(rs, min).contains(x) {
                    let k = choose|k: int| 0 <= k < keep_at_least(rs, min).len() && keep_at_least(rs, min)[k] == x;
                    if k < kept.len() {
                        assert(kept[k] == x);
                        assert(kept.contains(x));
                        let j = choose|j: int| 0 <= j < front.len() && front[j] == x;
                        assert(rs[j] == x);
                    } else {
                        assert(rs[rs.len() - 1] == x);
                    }
                }
                if rs.contains(x) && x.score >= min {
                    let j = choose|j: int| 0 <= j < rs.len() && rs[j] == x;
                    if j < front.len() {
                        assert(front[j] == x);
                        assert(kept.contains(x));
                        let k = choose|k: int| 0 <= k < kept.len() && kept[k] == x;
                        assert(keep_at_least(rs, min)[k] == x);
                    } else {
                        assert(keep_at_least(rs, min)[kept.len() as int] == x);
                    }
                }
            } else {
                assert(keep_at_least(rs, min) == kept);
                if kept.contains(x) {
                    let j = choose|j: int| 0 <= j < front.len() && front[j] == x;
                    assert(rs[j] == x);
                }
                if rs.contains(x) && x.score >= min {
                    let j = choose|j: int| 0 <= j < rs.len() && rs[j] == x;
                    if j < front.len() {
                        assert(front[j] == x);
                    }
                }
            }
        }
    }
}

/// A search returns the best results: as many as asked for, or all those
/// reaching the minimum score when there are fewer; each of them one of
/// those; and every result left out scores no more than any result returned.
pub proof fn ranked_keeps_the_best(
    query: Seq<char>,
    candidates: Seq<SearchResult>,
    now: int,
    min_score: i64,
    max_results: int,
)
    requires
        max_results >= 0,
    ensures
        ranked(query, candidates, now, min_score, max_results).len()
            == (if fuzzy_scored(query, candidates, now, min_score).len() <= max_results {
                fuzzy_scored(query, candidates, now, min_score).len() as int
            } else {
                max_results
            }),
        forall|x: SearchResult| #[trigger] ranked(query, candidates, now, min_score, max_results).to_multiset().count(x)
            <= fuzzy_scored(query, candidates, now, min_score).to_multiset().count(x),
        forall|x: SearchResult, i: int|
            0 <= i < ranked(query, candidates, now, min_score, max_results).len()
            && #[trigger] ranked(query, candidates, now, min_score, max_results).to_multiset().count(x)
                < fuzzy_scored(query, candidates, now, min_score).to_multiset().count(x)
            ==> x.score <= #[trigger] ranked(query, candidates, now, min_score, max_results)[i].score,
{
    broadcast use vstd::seq_lib::group_to_multiset_ensures;
    let f = fuzzy_scored(query, candidates, now, min_score);
    let s = sort_by_score(f);
    let r = ranked(query, candidates, now, min_score, max_results);
    sort_by_score_is_ordered_permutation(f);
    let n: int = if s.len() <= max_results { s.len() as int } else { max_results };
    assert(r =~= s.take(n));
    let rest = s.skip(n);
    assert(s =~= r + rest);
    vstd::seq_lib::lemma_multiset_commutative(r, rest);
    assert(s.to_multiset() =~= r.to_multiset().add(rest.to_multiset()));
    assert forall|x: SearchResult| #[trigger] r.to_multiset().count(x) <= f.to_multiset().count(x) by {
        assert(f.to_multiset().count(x) == r.to_multiset().count(x) + rest.to_multiset().count(x));
    }
    assert forall|x: SearchResult, i: int|
        0 <= i < r.len() && #[trigger] r.to_multiset().count(x) < f.to_multiset().count(x)
        implies x.score <= #[trigger] r[i].score by {
        assert(f.to_multiset().count(x) == r.to_multiset().count(x) + rest.to_multiset().count(x));
        assert(rest.to_multiset().count(x) > 0);
        assert(rest.contains(x));
        let j = choose|j: int| 0 <= j < rest.len() && rest[j] == x;
        assert(rest[j] == s[n + j]);
        assert(r[i] == s[i]);
    }
}

/// Every result kept reaches the minimum.
pub proof fn lemma_keep_at_least_reaches(rs: Seq<SearchResult>, min: int)
    ensures
        forall|i: int| 0 <= i < keep_at_least(rs, min).len() ==> #[trigger] keep_at_least(rs, min)[i].score >= min,
        keep_at_least(rs, min).len() <= rs.len(),
    decreases rs.len(),
{
    if rs.len() > 0 {
        lemma_keep_at_least_reaches(rs.drop_last(), min);
    }
}

/// `r` with its score computed against `query_lower` (the lowercased query).
fn score_result(query: &str, query_lower: &str, r: &SearchResult, now: i64) -> (out: SearchResult)
    requires
        query_lower@ == lowercase(query@),
    ensures
        out == scored(query@, *r, now as int),
{
    let name_lower = to_lowercase(r.name.as_str());
    let path_lower = to_lowercase(r.path.as_str());
    let by_name = match skim_fuzzy_match(name_lower.as_str(), query_lower) {
        Some(s) => s,
        None => 0,
    };
    let by_path = match skim_fuzzy_match(path_lower.as_str(), query_lower) {
        Some(s) => s,
        None => 0,
    };
    let fuzzy = if by_name >= by_path { by_name } else { by_path };
    let directory_bonus: i64 = if r.is_directory { 10 } else { 0 };
    let age: i128 = now as i128 - r.modified as i128;
    let recency_bonus: i64 = if age < 7 * SECONDS_PER_DAY as i128 {
        20
    } else if age < 30 * SECONDS_PER_DAY as i128 {
        10
    } else {
        0
    };
    let total = fuzzy + directory_bonus + recency_bonus;
    let score = f32_round(total);
    proof {
        lemma_unit_positive(0, 2);
        if total >= 0 {
            lemma_round_bounded(total as nat, crate::numeric::F32_EXACT_LIMIT as nat);
        } else {
            lemma_round_bounded((-total) as nat, crate::numeric::F32_EXACT_LIMIT as nat);
        }
    }
    SearchResult {
        path: r.path.clone(),
        name: r.name.clone(),
        extension: copy_option_string(&r.extension),
        size: r.size,
        modified: r.modified,
        is_directory: r.is_directory,
        score: score as i64,
    }
}

/// Scores every candidate against `query` at time `now` and keeps those
/// reaching `min_fuzzy_score`, in their order.
pub fn score_results(query: &str, results: &Vec<SearchResult>, now: i64, min_fuzzy_score: i64) -> (r: Vec<SearchResult>)
    ensures
        r@ == fuzzy_scored(query@, results@, now as int, min_fuzzy_score),
{
    let query_lower = to_lowercase(query);
    let min = f32_round(min_fuzzy_score);
    let mut out: Vec<SearchResult> = Vec::new();
    let mut i: usize = 0;
    while i < results.len()
        invariant
            i <= results.len(),
            query_lower@ == lowercase(query@),
            min == f32_value(min_fuzzy_score as int),
            out@ == keep_at_least(score_all(query@, results@.take(i as int), now as int), min as int),
        decreases results.len() - i,
    {
        let s = score_result(query, query_lower.as_str(), &results[i], now);
        let ghost before = score_all(query@, results@.take(i as int), now as int);
        let ghost after = score_all(query@, results@.take(i + 1), now as int);
        assert(after =~= before.push(s)) by {
            assert(results@.take(i + 1) =~= results@.take(i as int).push(results@[i as int]));
        }
        assert(after.drop_last() =~= before);
        if s.score as i128 >= min {
            out.push(s);
        }
        i = i + 1;
    }
    assert(results@.take(results.len() as int) =~= results@);
    out
}

fn insert_position(sorted: &Vec<SearchResult>, key: i64) -> (p: usize)
    ensures
        p == insert_pos(sorted@, key),
{
    let mut j: usize = 0;
    while j < sorted.len() && sorted[j].score >= key
        invariant
            j <= sorted.len(),
            forall|k: int| 0 <= k < j ==> sorted@[k].score >= key,
        decreases sorted.len() - j,
    {
        j = j + 1;
    }
    proof {
        lemma_insert_pos_is(sorted@, key, j as int);
    }
    j
}

/// Orders results by decreasing score; equal scores keep their order.
pub fn sort_results_by_score(results: &Vec<SearchResult>) -> (r: Vec<SearchResult>)
    ensures
        r@ == sort_by_score(results@),
        is_sorted_by_score(r@),
        r@.to_multiset() == results@.to_multiset(),
{
    let mut out: Vec<SearchResult> = Vec::new();
    let mut i: usize = 0;
    while i < results.len()
        invariant
            i <= results.len(),
            out@ == sort_by_score(results@.take(i as int)),
        decreases results.len() - i,
    {
        let x = results[i].duplicate();
        let p = insert_position(&out, x.score);
        proof {
            lemma_insert_pos_bounds(out@, x.score);
            assert(results@.take(i + 1).drop_last() =~= results@.take(i as int));
        }
        out.insert(p, x);
        i = i + 1;
    }
    assert(results@.take(results.len() as int) =~= results@);
    proof {
        sort_by_score_is_ordered_permutation(results@);
    }
    out
}

/// The query a search runs: trimmed of white space, then lowercased.
pub open spec fn normalized_query(query: Seq<char>) -> Seq<char> {
    lowercase(trimmed_text(query))
}

/// The index pattern for a query: the query with a wildcard on each side.
pub open spec fn wildcard_pattern(query: Seq<char>) -> Seq<char> {
    seq!['*'] + query + seq!['*']
}

/// How many candidates the index is asked for: twice the results wanted
/// (as many as a `usize` holds, when that is more).
pub open spec fn lookup_limit(max_results: usize) -> usize {
    if max_results > usize::MAX / 2 { usize::MAX } else { (2 * max_results) as usize }
}

/// Ordered by decreasing score, every score reaching `min_score` as an `f32`
/// holds it.
pub open spec fn well_ranked(rs: Seq<SearchResult>, min_score: i64) -> bool {
    &&& is_sorted_by_score(rs)
    &&& forall|i: int| 0 <= i < rs.len() ==> #[trigger] rs[i].score >= f32_value(min_score as int)
}

/// The index is asked for `*query*`: the query with one `*` before and one
/// after; and for twice the results wanted, or as many as a `usize` holds.
pub proof fn lookups_wrap_the_query_and_double_the_count(query: Seq<char>, max_results: usize)
    ensures
        wildcard_pattern(query).len() == query.len() + 2,
        wildcard_pattern(query)[0] == '*',
        wildcard_pattern(query)[query.len() as int + 1] == '*',
        wildcard_pattern(query).subrange(1, query.len() as int + 1) == query,
        2 * max_results <= usize::MAX ==> lookup_limit(max_results) == 2 * max_results,
        2 * max_results > usize::MAX ==> lookup_limit(max_results) == usize::MAX,
{
    assert(wildcard_pattern(query).subrange(1, query.len() as int + 1) =~= query);
}

/// What a search does next.
pub enum SearchStep {
    /// The search is answered: these are its results.
    Done(Vec<SearchResult>),
    /// The full-text index must be asked for up to `limit` candidates
    /// matching `pattern`; they then go to `complete_search`.
    Lookup { pattern: String, limit: usize },
}

/// The step for a (normalized) `query` given the cache's `answer`: an empty
/// query has no results; a cached list is answered, cut to `max_results`;
/// otherwise the index is asked for `lookup_limit(max_results)` candidates
/// matching `*query*`.
pub open spec fn step_answers(query: Seq<char>, answer: Option<Seq<SearchResult>>, max_results: usize, step: SearchStep) -> bool {
    if query.len() == 0 {
        step matches SearchStep::Done(v) && v@.len() == 0
    } else {
        match answer {
            Some(c) => step matches SearchStep::Done(v) && v@ == take_at_most(c, max_results as int),
            None => step matches SearchStep::Lookup { pattern, limit } && pattern@ == wildcard_pattern(query)
                && limit == lookup_limit(max_results),
        }
    }
}

/// The step for `query` when the cache answered `cached`.
pub fn search_step(query: &str, cached: Option<Vec<SearchResult>>, max_results: usize) -> (step: SearchStep)
    ensures
        step_answers(query@, results_view(cached), max_results, step),
{
    if query.is_empty() {
        return SearchStep::Done(Vec::new());
    }
    match cached {
        Some(v) => {
            let mut v = v;
            if v.len() > max_results {
                v.truncate(max_results);
            }
            SearchStep::Done(v)
        },
        None => {
            let mut pattern = String::new();
            push_char(&mut pattern, '*');
            pattern.append(query);
            push_char(&mut pattern, '*');
            assert(pattern@ =~= wildcard_pattern(query@));
            let limit = if max_results > usize::MAX / 2 { usize::MAX } else { max_results * 2 };
            SearchStep::Lookup { pattern, limit }
        },
    }
}

/// A prefix of a well-ranked list is well ranked.
pub proof fn lemma_prefix_well_ranked(rs: Seq<SearchResult>, min_score: i64, n: int)
    requires
        well_ranked(rs, min_score),
        n >= 0,
    ensures
        well_ranked(take_at_most(rs, n), min_score),
        take_at_most(rs, n).len() <= n,
{
    let t = take_at_most(rs, n);
    assert forall|i: int, j: int| 0 <= i < j < t.len() implies t[i].score >= t[j].score by {
        assert(t[i] == rs[i] && t[j] == rs[j]);
    }
    assert forall|i: int| 0 <= i < t.len() implies #[trigger] t[i].score >= f32_value(min_score as int) by {
        assert(t[i] == rs[i]);
    }
}

/// Fast file search: fuzzy ranking over index candidates, with a result cache.
pub struct SearchEngine {
    /// Always present between calls; taken out only while it is updated.
    cache: Option<SearchCache>,
    min_fuzzy_score: i64,
    cache_size: u64,
}

impl SearchEngine {
    /// Every list in the cache is well ranked for the engine's minimum score.
    #[verifier::type_invariant]
    spec fn cache_is_ranked(self) -> bool {
        match self.cache {
            Some(c) => {
                &&& forall|k: Seq<char>| #[trigger] c@.contains_key(k) ==> well_ranked(c@[k], self.min_fuzzy_score)
                &&& c.max_capacity() == self.cache_size
                &&& c.time_to_live() == crate::search::cache::ENTRY_TIME_TO_LIVE_SECS
            },
            None => true,
        }
    }

    /// The results the engine's cache can give back, per normalized query.
    pub closed spec fn cached(&self) -> Map<Seq<char>, Seq<SearchResult>> {
        match self.cache {
            Some(c) => c@,
            None => Map::empty(),
        }
    }

    /// Lowest score a result may have to be returned.
    pub closed spec fn min_score(&self) -> i64 {
        self.min_fuzzy_score
    }

    /// Most queries the cache holds.
    pub closed spec fn cache_capacity(&self) -> u64 {
        self.cache_size
    }

    /// Seconds a cached list may live.
    pub closed spec fn cache_time_to_live(&self) -> u64 {
        crate::search::cache::ENTRY_TIME_TO_LIVE_SECS
    }

    /// What `search(query, max_results)` may return: the step for the
    /// normalized query when the cache gives nothing back, or, when it holds
    /// a list for that query, the step for that list.
    pub open spec fn search_may_give(&self, query: Seq<char>, max_results: usize, step: SearchStep) -> bool {
        let n = normalized_query(query);
        ||| step_answers(n, None, max_results, step)
        ||| (self.cached().contains_key(n) && step_answers(n, Some(self.cached()[n]), max_results, step))
    }

    /// An engine with an empty cache sized and filtered as `config` says.
    pub fn new(config: &SearchConfig) -> (r: SearchEngine)
        ensures
            r.cached() == Map::<Seq<char>, Seq<SearchResult>>::empty(),
            r.min_score() == config.min_fuzzy_score,
            r.cache_capacity() == config.cache_size,
            r.cache_time_to_live() == crate::search::cache::ENTRY_TIME_TO_LIVE_SECS,
    {
        SearchEngine {
            cache: Some(SearchCache::new(config.cache_size)),
            min_fuzzy_score: config.min_fuzzy_score,
            cache_size: config.cache_size,
        }
    }

    /// Starts a search for up to `max_results` results. The query is
    /// normalized (trimmed, lowercased); an empty one has no results and
    /// leaves the cache alone; one the cache still answers gets the cached
    /// list, cut to `max_results`; otherwise the index must be asked
    /// (`search_step`). Whatever is answered is well ranked.
    pub fn search(&self, query: &str, max_results: usize) -> (step: SearchStep)
        ensures
            normalized_query(query@).len() == 0 ==> (step matches SearchStep::Done(v) && v@.len() == 0),
            self.search_may_give(query@, max_results, step),
            !self.cached().contains_key(normalized_query(query@))
                ==> step_answers(normalized_query(query@), None, max_results, step),
            step matches SearchStep::Done(v) ==> well_ranked(v@, self.min_score()) && v@.len() <= max_results,
    {
        proof {
            use_type_invariant(self);
        }
        let trimmed = trim_whitespace(query);
        let q = to_lowercase(trimmed.as_str());
        if q.as_str().is_empty() {
            return SearchStep::Done(Vec::new());
        }
        let cached = match &self.cache {
            Some(c) => c.get(q.as_str()),
            None => None,
        };
        proof {
            if cached is Some {
                let v = cached->0;
                assert(self.cached().contains_key(q@));
                lemma_prefix_well_ranked(v@, self.min_fuzzy_score, max_results as int);
            }
        }
        search_step(q.as_str(), cached, max_results)
    }

    /// Scores `results` against `query` at the current time (`scoring_time`)
    /// and keeps those reaching the minimum score.
    pub fn apply_fuzzy_scoring(&self, query: &str, results: &Vec<SearchResult>) -> (r: Vec<SearchResult>)
        ensures
            exists|now: i64| now >= 0 && r@ == #[trigger] fuzzy_scored(query@, results@, now as int, self.min_score()),
    {
        let now = scoring_time();
        let r = score_results(query, results, now, self.min_fuzzy_score);
        assert(r@ == fuzzy_scored(query@, results@, now as int, self.min_score()));
        r
    }

    /// Finishes a search from the index's `candidates`: scores them against
    /// the normalized query at the current time (`scoring_time`), drops those below the minimum, orders by
    /// decreasing score, keeps the first `max_results`, and caches that list
    /// for the normalized query.
    pub fn complete_search(&mut self, query: &str, candidates: &Vec<SearchResult>, max_results: usize) -> (r: Vec<SearchResult>)
        ensures
            exists|now: i64| now >= 0 && r@ == #[trigger] ranked(normalized_query(query@), candidates@, now as int, old(self).min_score(), max_results as int),
            well_ranked(r@, old(self).min_score()),
            r@.len() <= max_results,
            final(self).cached() == old(self).cached().insert(normalized_query(query@), r@),
            final(self).min_score() == old(self).min_score(),
            final(self).cache_capacity() == old(self).cache_capacity(),
            final(self).cache_time_to_live() == old(self).cache_time_to_live(),
    {
        proof {
            use_type_invariant(&*self);
        }
        let trimmed = trim_whitespace(query);
        let q = to_lowercase(trimmed.as_str());
        let now = scoring_time();
        let kept = score_results(q.as_str(), candidates, now, self.min_fuzzy_score);
        let mut sorted = sort_results_by_score(&kept);
        if sorted.len() > max_results {
            sorted.truncate(max_results);
        }
        assert(sorted@ == ranked(q@, candidates@, now as int, self.min_fuzzy_score, max_results as int));
        proof {
            ranked_is_bounded_ordered_and_filtered(q@, candidates@, now as int, self.min_fuzzy_score, max_results as int);
        }
        let to_cache = copy_results(&sorted);
        let mut slot: Option<SearchCache> = None;
        std::mem::swap(&mut slot, &mut self.cache);
        let mut cache = match slot {
            Some(c) => c,
            None => SearchCache::new(self.cache_size),
        };
        cache.set(q, to_cache);
        proof {
            assert forall|k: Seq<char>| #[trigger] cache@.contains_key(k) implies well_ranked(cache@[k], self.min_fuzzy_score) by {
                if k != q@ {
                    assert(old(self).cached().contains_key(k));
                }
            }
        }
        self.cache = Some(cache);
        assert(sorted@ == ranked(normalized_query(query@), candidates@, now as int, old(self).min_score(), max_results as int));
        sorted
    }

    /// The index changed (a commit): every cached list is dropped, so the
    /// next searches ask the index again.
    pub fn index_changed(&mut self)
        ensures
            final(self).cached() == Map::<Seq<char>, Seq<SearchResult>>::empty(),
            final(self).min_score() == old(self).min_score(),
            final(self).cache_capacity() == old(self).cache_capacity(),
            final(self).cache_time_to_live() == old(self).cache_time_to_live(),
    {
        proof {
            use_type_invariant(&*self);
        }
        let mut slot: Option<SearchCache> = None;
        std::mem::swap(&mut slot, &mut self.cache);
        let mut cache = match slot {
            Some(c) => c,
            None => SearchCache::new(self.cache_size),
        };
        cache.clear();
        self.cache = Some(cache);
    }
}

/// Searching again for a query just completed (`complete_search`) is
/// answered with the results it returned, cut to the number asked for,
/// unless the cache has dropped them, in which case the index is asked again.
pub proof fn repeated_search_is_answered_by_the_last_results(
    before: SearchEngine,
    after: SearchEngine,
    query: Seq<char>,
    results: Seq<SearchResult>,
    max_results: usize,
    step: SearchStep,
)
    requires
        after.cached() == before.cached().insert(normalized_query(query), results),
        normalized_query(query).len() > 0,
        after.search_may_give(query, max_results, step),
    ensures
        (step matches SearchStep::Done(v) && v@ == take_at_most(results, max_results as int))
            || (step matches SearchStep::Lookup { pattern, limit }
                && pattern@ == wildcard_pattern(normalized_query(query)) && limit == lookup_limit(max_results)),
{
}

/// After the index changed (`index_changed`), no query is answered from the
/// cache: every non-empty query goes to the index.
pub proof fn index_change_sends_searches_to_the_index(
    engine: SearchEngine,
    query: Seq<char>,
    max_results: usize,
    step: SearchStep,
)
    requires
        engine.cached() == Map::<Seq<char>, Seq<SearchResult>>::empty(),
        normalized_query(query).len() > 0,
        engine.search_may_give(query, max_results, step),
    ensures
        step matches SearchStep::Lookup { pattern, limit }
            && pattern@ == wildcard_pattern(normalized_query(query))
            && limit == lookup_limit(max_results),
{
}

} // verus!
