//! Laws of registration, stated over the model of
//! [`crate::parser::CliParser::register_pattern`]: a whole sequence of
//! registrations with distinct flag strings succeeds, and a flag
//! string can never be registered twice.

use crate::model::{
    count_compulsory, count_compulsory_visited, find_pattern, lemma_find_pattern_absent,
    lemma_find_pattern_none, lemma_find_pattern_some, lemma_count_compulsory_visited_update,
    lemma_count_compulsory_visited_zero, register_outcome, walk, walk_final, walk_from,
    PatternInfo, WalkOutcome,
};
use crate::pattern::{spec_is_compulsory, spec_need_arg, PatternType};
use vstd::prelude::*;

verus! {

/// Effect of registering the patterns of `reqs` one after the other,
/// left to right: `None` as soon as one of them is rejected.
pub open spec fn register_all(
    pats: Seq<PatternInfo>,
    reqs: Seq<PatternInfo>,
) -> Option<Seq<PatternInfo>>
    decreases reqs.len(),
{
    if reqs.len() == 0 {
        Some(pats)
    } else {
        match register_outcome(pats, reqs[0].pat, reqs[0].typ, reqs[0].desc) {
            None => None,
            Some(next) => register_all(next, reqs.skip(1)),
        }
    }
}

/// The compulsory count is additive over concatenation.
pub proof fn lemma_count_compulsory_concat(s1: Seq<PatternInfo>, s2: Seq<PatternInfo>)
    ensures
        count_compulsory(s1 + s2) == count_compulsory(s1) + count_compulsory(s2),
    decreases s2.len(),
{
    if s2.len() == 0 {
        assert(s1 + s2 =~= s1);
    } else {
        assert((s1 + s2).drop_last() =~= s1 + s2.drop_last());
        assert((s1 + s2).last() == s2.last());
        lemma_count_compulsory_concat(s1, s2.drop_last());
    }
}

/// Law: registering a sequence of unvisited patterns whose flag
/// strings are distinct from each other and from everything already
/// registered succeeds in every call, appends the patterns in order,
/// and raises the compulsory count by the number of compulsory
/// patterns among them.
pub proof fn lemma_register_all_distinct(pats: Seq<PatternInfo>, reqs: Seq<PatternInfo>)
    requires
        forall|a: int, b: int| 0 <= a < b < reqs.len() ==> reqs[a].pat != reqs[b].pat,
        forall|a: int, j: int|
            0 <= a < reqs.len() && 0 <= j < pats.len() ==> pats[j].pat != reqs[a].pat,
        forall|a: int| 0 <= a < reqs.len() ==> !reqs[a].visited,
    ensures
        register_all(pats, reqs) == Some(pats + reqs),
        count_compulsory(pats + reqs) == count_compulsory(pats) + count_compulsory(reqs),
    decreases reqs.len(),
{
    lemma_count_compulsory_concat(pats, reqs);
    if reqs.len() == 0 {
        assert(pats + reqs =~= pats);
    } else {
        let q = reqs[0];
        assert(forall|j: int| 0 <= j < pats.len() ==> pats[j].pat != q.pat);
        lemma_find_pattern_absent(pats, q.pat);
        let grown = pats.push(PatternInfo { pat: q.pat, typ: q.typ, desc: q.desc, visited: false });
        assert(grown =~= pats.push(q));
        let rest = reqs.skip(1);
        assert(forall|a: int| 0 <= a < rest.len() ==> rest[a] == reqs[a + 1]);
        assert forall|a: int, j: int|
            0 <= a < rest.len() && 0 <= j < grown.len() implies grown[j].pat != rest[a].pat by {
            if j < pats.len() {
            } else {
                assert(grown[j] == q);
            }
        }
        lemma_register_all_distinct(grown, rest);
        assert(grown + rest =~= pats + reqs);
    }
}

/// Law: once a registration of some flag string has succeeded, any
/// further registration of the same flag string is rejected, whatever
/// its category and description.
pub proof fn lemma_duplicate_registration_rejected(
    pats: Seq<PatternInfo>,
    p: PatternInfo,
    other_typ: PatternType,
    other_desc: Seq<char>,
)
    requires
        register_outcome(pats, p.pat, p.typ, p.desc) is Some,
    ensures
        register_outcome(register_outcome(pats, p.pat, p.typ, p.desc)->Some_0, p.pat, other_typ, other_desc)
            is None,
{
    let grown = register_outcome(pats, p.pat, p.typ, p.desc)->Some_0;
    assert(grown[pats.len() as int].pat == p.pat);
    if find_pattern(grown, p.pat) is None {
        lemma_find_pattern_none(grown, p.pat);
        assert(false);
    }
}

/// A walk that drains its tokens counts exactly the compulsory
/// patterns it marks visited along the way.
pub proof fn lemma_walk_done_counts_visited(
    pats: Seq<PatternInfo>,
    toks: Seq<Seq<char>>,
    i: int,
    cnt: int,
)
    requires
        walk_from(pats, toks, i, cnt) is Done,
    ensures
        walk_from(pats, toks, i, cnt)->Done_0 - cnt == count_compulsory_visited(
            walk_final(pats, toks, i),
        ) - count_compulsory_visited(pats),
    decreases toks.len() - i,
{
    if i < 0 || i >= toks.len() {
    } else {
        let tok = toks[i];
        match find_pattern(pats, tok) {
            None => {},
            Some(k) => {
                lemma_find_pattern_some(pats, tok);
                if pats[k].visited {
                } else {
                    let pats2 = pats.update(k, PatternInfo { visited: true, ..pats[k] });
                    lemma_count_compulsory_visited_update(pats, k);
                    let step = if spec_is_compulsory(pats[k].typ) {
                        1int
                    } else {
                        0int
                    };
                    if spec_need_arg(pats[k].typ) {
                        if i + 1 >= toks.len() {
                        } else {
                            lemma_walk_done_counts_visited(pats2, toks, i + 2, cnt + step);
                        }
                    } else {
                        lemma_walk_done_counts_visited(pats2, toks, i + 1, cnt + step);
                    }
                }
            },
        }
    }
}

/// Law: when a parse pass over a fresh registry succeeds — the walk
/// drains the tokens with as many compulsory matches as the registry
/// counts — every one of those matches marked a compulsory pattern
/// visited: the compulsory-visited count of the final state equals the
/// compulsory count recorded at registration time.
pub proof fn lemma_successful_walk_visits_all_compulsory(
    pats: Seq<PatternInfo>,
    toks: Seq<Seq<char>>,
)
    requires
        forall|i: int| 0 <= i < pats.len() ==> !pats[i].visited,
        walk(pats, toks) == WalkOutcome::Done(count_compulsory(pats)),
    ensures
        count_compulsory_visited(walk_final(pats, toks, 0)) == count_compulsory(pats),
{
    lemma_count_compulsory_visited_zero(pats);
    lemma_walk_done_counts_visited(pats, toks, 0, 0);
}

} // verus!
