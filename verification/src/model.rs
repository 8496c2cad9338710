//! Mathematical model of a registry and of one parse pass.
//!
//! A registry is modelled as a `Seq<PatternInfo>` in registration
//! order; a token sequence as a `Seq<Seq<char>>`. The contracts of the
//! executable engine are stated over the functions of this module:
//! first-match lookup, the compulsory count, the outcome of walking a
//! token sequence, and the rendered help text.

use crate::pattern::{spec_is_compulsory, spec_need_arg, PatternType};
use vstd::prelude::*;

verus! {

/// Model of one registered pattern: the flag string it matches, its
/// category, its description, and whether the current parse pass has
/// already matched it.
pub struct PatternInfo {
    pub pat: Seq<char>,
    pub typ: PatternType,
    pub desc: Seq<char>,
    pub visited: bool,
}

/// Index of the first pattern whose flag string equals `tok`, if any.
pub open spec fn find_pattern(pats: Seq<PatternInfo>, tok: Seq<char>) -> Option<int>
    decreases pats.len(),
{
    if pats.len() == 0 {
        None
    } else if pats[0].pat == tok {
        Some(0int)
    } else {
        match find_pattern(pats.skip(1), tok) {
            None => None,
            Some(i) => Some(i + 1),
        }
    }
}

/// How many of the patterns are compulsory.
pub open spec fn count_compulsory(pats: Seq<PatternInfo>) -> int
    decreases pats.len(),
{
    if pats.len() == 0 {
        0int
    } else {
        count_compulsory(pats.drop_last()) + if spec_is_compulsory(pats.last().typ) {
            1int
        } else {
            0int
        }
    }
}

/// How many of the patterns are compulsory and already visited.
pub open spec fn count_compulsory_visited(pats: Seq<PatternInfo>) -> int
    decreases pats.len(),
{
    if pats.len() == 0 {
        0int
    } else {
        count_compulsory_visited(pats.drop_last()) + if spec_is_compulsory(pats.last().typ)
            && pats.last().visited {
            1int
        } else {
            0int
        }
    }
}

/// Flag strings are unique within a registry.
pub open spec fn distinct_flags(pats: Seq<PatternInfo>) -> bool {
    forall|i: int, j: int| 0 <= i < j < pats.len() ==> pats[i].pat != pats[j].pat
}

/// Outcome of walking a token sequence against a registry, ignoring
/// the conversion callbacks: either the first structural error, or
/// `Done(n)` where `n` is the number of compulsory patterns matched.
pub enum WalkOutcome {
    /// A token matched no registered flag string.
    Unknown(Seq<char>),
    /// A token matched a pattern already visited in this pass.
    Duplicate(Seq<char>),
    /// An argument-taking flag stood last, with no token following it.
    MissingArg(Seq<char>),
    /// The tokens were exhausted with `n` compulsory patterns matched.
    Done(int),
}

/// One left-to-right pass over `toks` from position `i`, with `cnt`
/// compulsory patterns already matched: each token is resolved against
/// `pats` by first exact match, a matched pattern is marked visited,
/// and an argument-taking pattern consumes the following token.
pub open spec fn walk_from(pats: Seq<PatternInfo>, toks: Seq<Seq<char>>, i: int, cnt: int) -> WalkOutcome
    decreases toks.len() - i,
{
    if i < 0 || i >= toks.len() {
        WalkOutcome::Done(cnt)
    } else {
        let tok = toks[i];
        match find_pattern(pats, tok) {
            None => WalkOutcome::Unknown(tok),
            Some(k) => {
                if pats[k].visited {
                    WalkOutcome::Duplicate(tok)
                } else {
                    let pats2 = pats.update(k, PatternInfo { visited: true, ..pats[k] });
                    let cnt2 = cnt + if spec_is_compulsory(pats[k].typ) { 1int } else { 0int };
                    if spec_need_arg(pats[k].typ) {
                        if i + 1 >= toks.len() {
                            WalkOutcome::MissingArg(tok)
                        } else {
                            walk_from(pats2, toks, i + 2, cnt2)
                        }
                    } else {
                        walk_from(pats2, toks, i + 1, cnt2)
                    }
                }
            },
        }
    }
}

/// Outcome of a whole parse pass over `toks` against a fresh `pats`.
pub open spec fn walk(pats: Seq<PatternInfo>, toks: Seq<Seq<char>>) -> WalkOutcome {
    walk_from(pats, toks, 0, 0)
}

/// The pattern state a walk from position `i` leaves behind: every
/// pattern it matches is marked visited. When the walk stops at a
/// structural error, the state at that point.
pub open spec fn walk_final(pats: Seq<PatternInfo>, toks: Seq<Seq<char>>, i: int) -> Seq<
    PatternInfo,
>
    decreases toks.len() - i,
{
    if i < 0 || i >= toks.len() {
        pats
    } else {
        let tok = toks[i];
        match find_pattern(pats, tok) {
            None => pats,
            Some(k) => {
                if pats[k].visited {
                    pats
                } else {
                    let pats2 = pats.update(k, PatternInfo { visited: true, ..pats[k] });
                    if spec_need_arg(pats[k].typ) {
                        if i + 1 >= toks.len() {
                            pats2
                        } else {
                            walk_final(pats2, toks, i + 2)
                        }
                    } else {
                        walk_final(pats2, toks, i + 1)
                    }
                }
            },
        }
    }
}

/// Whether the walk starting at position `i` invokes at least one
/// conversion callback: true exactly when the first step resolves a
/// token to an unvisited pattern and does not stop for a missing
/// argument.
pub open spec fn walk_invokes_callback(pats: Seq<PatternInfo>, toks: Seq<Seq<char>>, i: int) -> bool {
    &&& 0 <= i < toks.len()
    &&& match find_pattern(pats, toks[i]) {
        None => false,
        Some(k) => !pats[k].visited && !(spec_need_arg(pats[k].typ) && i + 1 >= toks.len()),
    }
}

/// Effect of registering one pattern: `None` when the flag string is
/// already taken (the registry is left as it was), otherwise the new
/// registry with the pattern appended unvisited.
pub open spec fn register_outcome(
    pats: Seq<PatternInfo>,
    pat: Seq<char>,
    typ: PatternType,
    desc: Seq<char>,
) -> Option<Seq<PatternInfo>> {
    if find_pattern(pats, pat) is Some {
        None
    } else {
        Some(pats.push(PatternInfo { pat, typ, desc, visited: false }))
    }
}

/// The help line rendered for one pattern: the flag string, an ` arg`
/// suffix for argument-taking categories, `: `, the description and a
/// newline; an optional pattern has its flag part wrapped in brackets.
pub open spec fn help_line(p: PatternInfo) -> Seq<char> {
    let first = if spec_need_arg(p.typ) {
        p.pat + " arg"@
    } else {
        p.pat
    };
    if spec_is_compulsory(p.typ) {
        first + ": "@ + p.desc + "\n"@
    } else {
        "["@ + first + "]: "@ + p.desc + "\n"@
    }
}

/// The help text for a registry: one line per pattern, in registration
/// order, each ending in a newline.
pub open spec fn help_text(pats: Seq<PatternInfo>) -> Seq<char>
    decreases pats.len(),
{
    if pats.len() == 0 {
        Seq::empty()
    } else {
        help_text(pats.drop_last()) + help_line(pats.last())
    }
}

/// `help_text` with the trailing newline removed.
pub open spec fn help_text_trimmed(pats: Seq<PatternInfo>) -> Seq<char> {
    let full = help_text(pats);
    if full.len() == 0 {
        full
    } else {
        full.take(full.len() - 1)
    }
}

/// A successful lookup yields the first index bearing the flag string.
pub proof fn lemma_find_pattern_some(pats: Seq<PatternInfo>, tok: Seq<char>)
    requires
        find_pattern(pats, tok) is Some,
    ensures
        ({
            let k = find_pattern(pats, tok)->Some_0;
            &&& 0 <= k < pats.len()
            &&& pats[k].pat == tok
            &&& forall|j: int| 0 <= j < k ==> pats[j].pat != tok
        }),
    decreases pats.len(),
{
    if pats.len() == 0 {
    } else if pats[0].pat == tok {
    } else {
        let sub = pats.skip(1);
        lemma_find_pattern_some(sub, tok);
        let k1 = find_pattern(sub, tok)->Some_0;
        assert(sub[k1] == pats[k1 + 1]);
        assert forall|j: int| 0 <= j < k1 + 1 implies pats[j].pat != tok by {
            if j > 0 {
                assert(sub[j - 1] == pats[j]);
            }
        }
    }
}

/// A failed lookup means no pattern bears the flag string.
pub proof fn lemma_find_pattern_none(pats: Seq<PatternInfo>, tok: Seq<char>)
    requires
        find_pattern(pats, tok) is None,
    ensures
        forall|j: int| 0 <= j < pats.len() ==> pats[j].pat != tok,
    decreases pats.len(),
{
    if pats.len() == 0 {
    } else if pats[0].pat == tok {
    } else {
        let sub = pats.skip(1);
        lemma_find_pattern_none(sub, tok);
        assert forall|j: int| 0 <= j < pats.len() implies pats[j].pat != tok by {
            if j > 0 {
                assert(sub[j - 1] == pats[j]);
            }
        }
    }
}

/// Conversely, the first index bearing the flag string is what lookup
/// returns.
pub proof fn lemma_find_pattern_first(pats: Seq<PatternInfo>, tok: Seq<char>, k: int)
    requires
        0 <= k < pats.len(),
        pats[k].pat == tok,
        forall|j: int| 0 <= j < k ==> pats[j].pat != tok,
    ensures
        find_pattern(pats, tok) == Some(k),
    decreases pats.len(),
{
    if k == 0 {
    } else {
        assert(pats[0].pat != tok);
        assert(forall|j: int| 0 <= j < k - 1 ==> pats.skip(1)[j] == pats[j + 1]);
        lemma_find_pattern_first(pats.skip(1), tok, k - 1);
    }
}

/// If no pattern bears the flag string, lookup fails.
pub proof fn lemma_find_pattern_absent(pats: Seq<PatternInfo>, tok: Seq<char>)
    requires
        forall|j: int| 0 <= j < pats.len() ==> pats[j].pat != tok,
    ensures
        find_pattern(pats, tok) is None,
    decreases pats.len(),
{
    if pats.len() == 0 {
    } else {
        assert(forall|j: int| 0 <= j < pats.skip(1).len() ==> pats.skip(1)[j] == pats[j + 1]);
        lemma_find_pattern_absent(pats.skip(1), tok);
    }
}

/// The compulsory count never exceeds the number of patterns.
pub proof fn lemma_count_compulsory_le_len(pats: Seq<PatternInfo>)
    ensures
        0 <= count_compulsory(pats) <= pats.len(),
    decreases pats.len(),
{
    if pats.len() > 0 {
        lemma_count_compulsory_le_len(pats.drop_last());
    }
}

/// Appending one pattern raises the compulsory count by one exactly
/// when the new pattern is compulsory.
pub proof fn lemma_count_compulsory_push(pats: Seq<PatternInfo>, p: PatternInfo)
    ensures
        count_compulsory(pats.push(p)) == count_compulsory(pats) + if spec_is_compulsory(p.typ) {
            1int
        } else {
            0int
        },
{
    assert(pats.push(p).drop_last() =~= pats);
    assert(pats.push(p).last() == p);
}

/// With nothing visited, the compulsory-visited count is zero.
pub proof fn lemma_count_compulsory_visited_zero(pats: Seq<PatternInfo>)
    requires
        forall|i: int| 0 <= i < pats.len() ==> !pats[i].visited,
    ensures
        count_compulsory_visited(pats) == 0,
    decreases pats.len(),
{
    if pats.len() > 0 {
        lemma_count_compulsory_visited_zero(pats.drop_last());
    }
}

/// Marking an unvisited pattern visited raises the compulsory-visited
/// count by one exactly when the pattern is compulsory.
pub proof fn lemma_count_compulsory_visited_update(pats: Seq<PatternInfo>, k: int)
    requires
        0 <= k < pats.len(),
        !pats[k].visited,
    ensures
        count_compulsory_visited(pats.update(k, PatternInfo { visited: true, ..pats[k] }))
            == count_compulsory_visited(pats) + if spec_is_compulsory(pats[k].typ) {
            1int
        } else {
            0int
        },
    decreases pats.len(),
{
    let pats2 = pats.update(k, PatternInfo { visited: true, ..pats[k] });
    if k == pats.len() - 1 {
        assert(pats2.drop_last() =~= pats.drop_last());
        assert(pats2.last() == PatternInfo { visited: true, ..pats.last() });
    } else {
        assert(pats2.drop_last() =~= pats.drop_last().update(
            k,
            PatternInfo { visited: true, ..pats.drop_last()[k] },
        ));
        lemma_count_compulsory_visited_update(pats.drop_last(), k);
        assert(pats2.last() == pats.last());
    }
}

} // verus!
