//! The pattern registry and the token consumer.
//!
//! A [`CliParser`] owns a caller-supplied configuration object, the
//! registered patterns in registration order, and the count of
//! compulsory patterns. [`CliParser::do_parse_args`] consumes the
//! parser and walks a token sequence against the registry; its
//! contract is stated over [`crate::model::walk`].

use crate::error::CliError;
use crate::model::{
    count_compulsory, distinct_flags, find_pattern, help_text, help_text_trimmed, lemma_count_compulsory_le_len,
    lemma_count_compulsory_push, lemma_find_pattern_absent,
    lemma_find_pattern_first, lemma_find_pattern_none, lemma_find_pattern_some, register_outcome, walk,
    walk_invokes_callback, walk_from, PatternInfo, WalkOutcome,
};
use crate::pattern::{is_compulsory, need_arg, spec_is_compulsory, spec_need_arg, PatternType};
use vstd::prelude::*;
use vstd::string::{StrSliceExecFns, StringExecFns};

verus! {

/// Conversion logic attached to registered patterns: one value of an
/// implementing type is stored per pattern. The engine hands it the
/// raw argument text (an empty string for a bare pattern) and a
/// mutable reference to the configuration object; a returned message
/// rejects the argument and aborts the whole parse pass.
pub trait ParseFunc<T> {
    fn parse(&self, arg: String, parse_obj: &mut T) -> Result<(), String>;
}

/// One registered pattern with its per-pass visited flag.
struct Pat<C> {
    pat_str: String,
    pat_type: PatternType,
    parse_func: C,
    description: String,
    visited: bool,
}

impl<C> Pat<C> {
    /// The model of this pattern.
    spec fn info(self) -> PatternInfo {
        PatternInfo {
            pat: self.pat_str@,
            typ: self.pat_type,
            desc: self.description@,
            visited: self.visited,
        }
    }
}

/// The model of a pattern vector, in order.
spec fn pats_view<C>(pats: Seq<Pat<C>>) -> Seq<PatternInfo> {
    pats.map(|i: int, p: Pat<C>| p.info())
}

/// The views of a token vector, in order.
pub open spec fn tokens_view(args: Seq<String>) -> Seq<Seq<char>> {
    args.map(|i: int, s: String| s@)
}

/// What a finished parse pass may return: each structural outcome of
/// the walk forces the corresponding error (or success), except that a
/// conversion callback may abort the pass first with its own message;
/// when the walk invokes no callback at all, that exception is ruled
/// out.
pub open spec fn consume_post<T>(
    pats: Seq<PatternInfo>,
    toks: Seq<Seq<char>>,
    r: Result<T, CliError>,
) -> bool {
    &&& match walk(pats, toks) {
        WalkOutcome::Unknown(t) => (r matches Err(CliError::UnknownPattern(s)) && s@ == t) || (
        r matches Err(CliError::CallbackFailure(_))),
        WalkOutcome::Duplicate(t) => (r matches Err(CliError::DuplicatePattern(s)) && s@ == t) || (
        r matches Err(CliError::CallbackFailure(_))),
        WalkOutcome::MissingArg(t) => (r matches Err(CliError::MissingArgument(s)) && s@ == t) || (
        r matches Err(CliError::CallbackFailure(_))),
        WalkOutcome::Done(n) => if n == count_compulsory(pats) {
            (r matches Ok(_)) || (r matches Err(CliError::CallbackFailure(_)))
        } else {
            (r matches Err(CliError::IncompleteCompulsory { expected, actual }) && expected as int
                == count_compulsory(pats) && actual as int == n) || (r matches Err(
                CliError::CallbackFailure(_),
            ))
        },
    }
    &&& !walk_invokes_callback(pats, toks, 0) ==> !(r matches Err(CliError::CallbackFailure(_)))
}

/// How a parse pass started through [`CliParser::parse_args`] may end:
/// a leading `-h` or `--help` token short-circuits to the rendered
/// help text; otherwise the pass behaves as [`consume_post`] says.
pub open spec fn parse_args_post<T>(
    pats: Seq<PatternInfo>,
    args: Seq<String>,
    r: Result<T, ParseFailure>,
) -> bool {
    if args.len() > 0 && (args[0]@ == "-h"@ || args[0]@ == "--help"@) {
        r matches Err(ParseFailure::HelpRequested(h)) && h@ == help_text_trimmed(pats)
    } else {
        match r {
            Ok(t) => consume_post(pats, tokens_view(args), Ok::<T, CliError>(t)),
            Err(ParseFailure::HelpRequested(_)) => false,
            Err(ParseFailure::Failed(e)) => consume_post(pats, tokens_view(args), Err::<T, CliError>(e)),
        }
    }
}

/// Why [`CliParser::parse_args`] did not hand back the configuration
/// object: the user asked for the help text, or the pass failed.
#[derive(Debug)]
pub enum ParseFailure {
    /// The first token was `-h` or `--help`; the rendered help text.
    HelpRequested(String),
    /// The pass aborted with an error.
    Failed(CliError),
}

impl<C> Pat<C> {
    /// Matches this pattern once: rejects a repeat match, marks the
    /// pattern visited, consumes `next_arg` as the argument when the
    /// category takes one (failing when there is none), and invokes
    /// the conversion callback.
    fn call_parse_func<T>(&mut self, parse_obj: &mut T, next_arg: Option<String>) -> (r: Result<
        (),
        CliError,
    >) where C: ParseFunc<T>
        ensures
            old(self).visited ==> {
                &&& r matches Err(CliError::DuplicatePattern(s)) && s@ == old(self).pat_str@
                &&& *final(self) == *old(self)
                &&& *final(parse_obj) == *old(parse_obj)
            },
            !old(self).visited ==> (*final(self) == (Pat { visited: true, ..*old(self) })),
            !old(self).visited && spec_need_arg(old(self).pat_type) && next_arg is None ==> {
                &&& r matches Err(CliError::MissingArgument(s)) && s@ == old(self).pat_str@
                &&& *final(parse_obj) == *old(parse_obj)
            },
            !old(self).visited && !(spec_need_arg(old(self).pat_type) && next_arg is None) ==> (
            r is Ok || r matches Err(CliError::CallbackFailure(_))),
    {
        if self.visited {
            Err(CliError::DuplicatePattern(self.pat_str.clone()))
        } else {
            self.visited = true;
            if need_arg(&self.pat_type) {
                match next_arg {
                    None => Err(CliError::MissingArgument(self.pat_str.clone())),
                    Some(a) => match self.parse_func.parse(a, parse_obj) {
                        Ok(()) => Ok(()),
                        Err(m) => Err(CliError::CallbackFailure(m)),
                    },
                }
            } else {
                match self.parse_func.parse(String::new(), parse_obj) {
                    Ok(()) => Ok(()),
                    Err(m) => Err(CliError::CallbackFailure(m)),
                }
            }
        }
    }
}

/// Index of the first pattern whose flag string equals `pat_str`.
fn search_for_matched_pattern<C>(pats: &Vec<Pat<C>>, pat_str: &String) -> (r: Option<usize>)
    ensures
        match r {
            Some(k) => k < pats@.len() && find_pattern(pats_view(pats@), pat_str@) == Some(
                k as int,
            ),
            None => find_pattern(pats_view(pats@), pat_str@) is None,
        },
{
    let ghost view = pats_view(pats@);
    let mut j: usize = 0;
    while j < pats.len()
        invariant
            j <= pats@.len(),
            view == pats_view(pats@),
            forall|i: int| 0 <= i < j ==> view[i].pat != pat_str@,
        decreases pats@.len() - j,
    {
        if pats[j].pat_str == *pat_str {
            proof {
                lemma_find_pattern_first(view, pat_str@, j as int);
            }
            return Some(j);
        }
        j = j + 1;
    }
    proof {
        lemma_find_pattern_absent(view, pat_str@);
    }
    None
}

/// The registry: the configuration object under construction, the
/// registered patterns in registration order, and the number of them
/// that are compulsory.
pub struct CliParser<T, C> {
    parse_obj: T,
    pats: Vec<Pat<C>>,
    compulsory_cnt: usize,
}

impl<T, C> CliParser<T, C> {
    /// The registered patterns, in registration order.
    pub closed spec fn patterns(self) -> Seq<PatternInfo> {
        pats_view(self.pats@)
    }

    /// The configuration object the registry owns.
    pub closed spec fn config(self) -> T {
        self.parse_obj
    }

    /// The recorded count of compulsory patterns.
    pub closed spec fn compulsory(self) -> int {
        self.compulsory_cnt as int
    }

    /// The recorded count agrees with the registered patterns, and no
    /// flag string is registered twice.
    pub open spec fn wf(self) -> bool {
        &&& self.compulsory() == count_compulsory(self.patterns())
        &&& distinct_flags(self.patterns())
    }

    /// A fresh registry around `parse_obj`: no patterns, nothing
    /// compulsory.
    pub fn new(parse_obj: T) -> (r: CliParser<T, C>)
        ensures
            r.patterns() == Seq::<PatternInfo>::empty(),
            r.config() == parse_obj,
            r.compulsory() == 0,
            r.wf(),
    {
        let r = CliParser { parse_obj, pats: Vec::new(), compulsory_cnt: 0 };
        proof {
            assert(r.patterns() =~= Seq::<PatternInfo>::empty());
        }
        r
    }

    /// Registers one pattern. Succeeds exactly when the flag string is
    /// not yet taken, appending the pattern unvisited and counting it
    /// when compulsory; a duplicate flag string is rejected and leaves
    /// the registry as it was. The configuration object is untouched
    /// either way.
    pub fn register_pattern(
        &mut self,
        pat: &str,
        pat_type: PatternType,
        description: &str,
        parse_func: C,
    ) -> (r: Result<(), CliError>)
        requires
            old(self).wf(),
        ensures
            final(self).wf(),
            final(self).config() == old(self).config(),
            r is Ok <==> find_pattern(old(self).patterns(), pat@) is None,
            match r {
                Ok(()) => {
                    &&& register_outcome(old(self).patterns(), pat@, pat_type, description@)
                        == Some(final(self).patterns())
                    &&& final(self).compulsory() == old(self).compulsory() + if spec_is_compulsory(
                        pat_type,
                    ) {
                        1int
                    } else {
                        0int
                    }
                },
                Err(e) => {
                    &&& e matches CliError::DuplicatePattern(s) && s@ == pat@
                    &&& *final(self) == *old(self)
                },
            },
    {
        let pat_str = String::from_str(pat);
        let description_str = String::from_str(description);
        match search_for_matched_pattern(&self.pats, &pat_str) {
            Some(_) => Err(CliError::DuplicatePattern(pat_str)),
            None => {
                let compulsory = is_compulsory(&pat_type);
                let ghost old_pats = self.pats@;
                let new_pat = Pat {
                    pat_str,
                    pat_type,
                    parse_func,
                    description: description_str,
                    visited: false,
                };
                let ghost new_info = new_pat.info();
                self.pats.push(new_pat);
                proof {
                    assert(pats_view(self.pats@) =~= pats_view(old_pats).push(new_info));
                    lemma_count_compulsory_push(pats_view(old_pats), new_info);
                    lemma_count_compulsory_le_len(pats_view(old_pats));
                    lemma_find_pattern_none(pats_view(old_pats), new_info.pat);
                    vstd::std_specs::vec::axiom_spec_len(&self.pats);
                    assert(old_pats.len() < usize::MAX);
                }
                if compulsory {
                    self.compulsory_cnt = self.compulsory_cnt + 1;
                }
                Ok(())
            },
        }
    }

    /// The help text: one line per pattern, in registration order,
    /// with the trailing newline trimmed from the final line.
    pub fn build_help_string(&self) -> (r: String)
        ensures
            r@ == help_text_trimmed(self.patterns()),
    {
        let ghost view = self.patterns();
        let mut res = String::new();
        let mut j: usize = 0;
        while j < self.pats.len()
            invariant
                j <= self.pats@.len(),
                view == pats_view(self.pats@),
                res@ == help_text(view.take(j as int)),
            decreases self.pats@.len() - j,
        {
            let p = &self.pats[j];
            if is_compulsory(&p.pat_type) {
                res.append(p.pat_str.as_str());
                if need_arg(&p.pat_type) {
                    res.append(" arg");
                }
                res.append(": ");
                res.append(p.description.as_str());
                res.append("\n");
            } else {
                res.append("[");
                res.append(p.pat_str.as_str());
                if need_arg(&p.pat_type) {
                    res.append(" arg");
                }
                res.append("]: ");
                res.append(p.description.as_str());
                res.append("\n");
            }
            proof {
                assert(view.take(j + 1).drop_last() =~= view.take(j as int));
                assert(view.take(j + 1).last() == view[j as int]);
                assert(res@ =~= help_text(view.take(j + 1)));
            }
            j = j + 1;
        }
        proof {
            assert(view.take(self.pats@.len() as int) =~= view);
        }
        let n = res.as_str().unicode_len();
        if n == 0 {
            res
        } else {
            let trimmed = res.as_str().substring_char(0, n - 1);
            proof {
                assert(trimmed@ =~= help_text_trimmed(view));
            }
            String::from_str(trimmed)
        }
    }
}

impl<T, C: ParseFunc<T>> CliParser<T, C> {
    /// Consumes the registry and walks `args` left to right against
    /// it, mutating the configuration object through the callbacks.
    /// Succeeds exactly when the walk drains the tokens with every
    /// compulsory pattern matched and no callback having rejected
    /// its argument; see
    /// [`consume_post`].
    #[verifier::loop_isolation(false)]
    pub fn do_parse_args(self, args: Vec<String>) -> (r: Result<T, CliError>)
        requires
            self.wf(),
        ensures
            consume_post(self.patterns(), tokens_view(args@), r),
    {
        let ghost pats0 = self.patterns();
        let ghost toks = tokens_view(args@);
        let CliParser { mut parse_obj, mut pats, compulsory_cnt } = self;
        let mut i: usize = 0;
        let mut cnt: usize = 0;
        while i < args.len()
            invariant
                i <= args@.len(),
                cnt <= i,
                toks == tokens_view(args@),
                toks.len() == args@.len(),
                compulsory_cnt as int == count_compulsory(pats0),
                walk_from(pats0, toks, 0, 0) == walk_from(
                    pats_view(pats@),
                    toks,
                    i as int,
                    cnt as int,
                ),
                i == 0 ==> pats_view(pats@) == pats0 && cnt == 0,
                i > 0 ==> walk_invokes_callback(pats0, toks, 0),
            decreases args@.len() - i,
        {
            let ghost view = pats_view(pats@);
            let arg_str = args[i].clone();
            proof {
                assert(arg_str@ == toks[i as int]);
            }
            match search_for_matched_pattern(&pats, &arg_str) {
                None => {
                    proof {
                        assert(walk_from(view, toks, i as int, cnt as int)
                            == WalkOutcome::Unknown(toks[i as int]));
                    }
                    return Err(CliError::UnknownPattern(arg_str));
                },
                Some(k) => {
                    proof {
                        lemma_find_pattern_some(view, arg_str@);
                    }
                    let needs = need_arg(&pats[k].pat_type);
                    let comp = is_compulsory(&pats[k].pat_type);
                    let next_arg: Option<String> = if needs {
                        if i + 1 < args.len() {
                            Some(args[i + 1].clone())
                        } else {
                            None
                        }
                    } else {
                        None
                    };
                    let ghost elem0 = pats@[k as int];
                    let ghost next_is_none = next_arg is None;
                    match pats[k].call_parse_func(&mut parse_obj, next_arg) {
                        Err(e) => {
                            proof {
                                let k1 = k as int;
                                assert(view[k1] == elem0.info());
                                if elem0.visited {
                                    assert(walk_from(view, toks, i as int, cnt as int)
                                        == WalkOutcome::Duplicate(toks[i as int]));
                                } else if spec_need_arg(elem0.pat_type) && next_is_none {
                                    assert(i + 1 >= toks.len());
                                    assert(walk_from(view, toks, i as int, cnt as int)
                                        == WalkOutcome::MissingArg(toks[i as int]));
                                } else {
                                    assert(walk_invokes_callback(pats0, toks, 0));
                                }
                            }
                            return Err(e);
                        },
                        Ok(()) => {
                            proof {
                                assert(!elem0.visited);
                                assert(pats_view(pats@) =~= view.update(
                                    k as int,
                                    PatternInfo { visited: true, ..view[k as int] },
                                ));
                            }
                            if comp {
                                cnt = cnt + 1;
                            }
                            if needs {
                                i = i + 2;
                            } else {
                                i = i + 1;
                            }
                        },
                    }
                },
            }
        }
        proof {
            assert(walk_from(pats_view(pats@), toks, i as int, cnt as int) == WalkOutcome::Done(
                cnt as int,
            ));
        }
        if cnt == compulsory_cnt {
            Ok(parse_obj)
        } else {
            Err(CliError::IncompleteCompulsory { expected: compulsory_cnt, actual: cnt })
        }
    }

    /// Parses `args` (the tokens after the command name), but renders
    /// the help text instead when the first token is `-h` or `--help`.
    pub fn parse_args(self, args: Vec<String>) -> (r: Result<T, ParseFailure>)
        requires
            self.wf(),
        ensures
            parse_args_post(self.patterns(), args@, r),
    {
        let help_short = String::from_str("-h");
        let help_long = String::from_str("--help");
        let is_help = args.len() > 0 && (args[0] == help_short || args[0] == help_long);
        if is_help {
            Err(ParseFailure::HelpRequested(self.build_help_string()))
        } else {
            match self.do_parse_args(args) {
                Ok(t) => Ok(t),
                Err(e) => Err(ParseFailure::Failed(e)),
            }
        }
    }
}

} // verus!
