use vstd::prelude::*;

use crate::arg_matcher::ArgMatcher;
use crate::arg_matcher::SpecArgMatcher;
use crate::arg_resolver::arg_outcome;
use crate::arg_resolver::arg_outcomes;
use crate::arg_resolver::at_most_one_vararg;
use crate::arg_resolver::first_mismatch_from;
use crate::arg_resolver::first_vararg_from;
use crate::arg_resolver::has_vararg;
use crate::arg_resolver::lemma_first_vararg_from;
use crate::arg_resolver::match_pattern;
use crate::arg_resolver::prefix_len;
use crate::arg_resolver::suffix_len;
use crate::error::outcome_view;
use crate::error::Error;
use crate::error::Result;
use crate::error::SpecError;
use crate::exec_call::ExecCall;
use crate::text::clone_strings;
use crate::text::owned_strings;
use crate::valid_exec::MatchedArg;
use crate::valid_exec::MatchedExec;
use crate::valid_exec::SpecMatchedArg;
use crate::valid_exec::SpecMatchedExec;
use crate::valid_exec::SpecValidExec;
use crate::valid_exec::ValidExec;

verus! {

/// The mathematical value of a [`ProgramPolicy`].
pub struct SpecProgramPolicy {
    pub program_name: Seq<char>,
    pub pattern: Seq<SpecArgMatcher>,
    pub executable_paths: Seq<Seq<char>>,
}

impl SpecProgramPolicy {
    /// A program policy is well formed when its pattern holds at most one
    /// vararg matcher and it declares at least one install location.
    pub open spec fn wf(self) -> bool {
        &&& at_most_one_vararg(self.pattern)
        &&& self.executable_paths.len() > 0
    }

    /// The verdict on a call of this program with `args`: the accepted
    /// invocation, carrying the declared install locations, or the reason
    /// the arguments do not fit the pattern.
    pub open spec fn check(self, args: Seq<Seq<char>>) -> core::result::Result<
        SpecMatchedExec,
        SpecError,
    > {
        match match_pattern(self.program_name, self.pattern, args) {
            Ok(matched_args) => Ok(
                SpecMatchedExec::Match {
                    valid_exec: SpecValidExec {
                        program: self.program_name,
                        matched_args,
                        candidate_paths: self.executable_paths,
                    },
                },
            ),
            Err(refusal) => Err(refusal),
        }
    }
}

/// What building a program policy from its three parts gives: the policy,
/// or the reason the parts are not well formed. A second vararg matcher is
/// reported before a missing install location.
pub open spec fn build_program(
    program_name: Seq<char>,
    pattern: Seq<SpecArgMatcher>,
    executable_paths: Seq<Seq<char>>,
) -> core::result::Result<SpecProgramPolicy, SpecError> {
    let first = prefix_len(pattern);
    let second = first_vararg_from(pattern, first + 1);
    if second < pattern.len() {
        Err(
            SpecError::MultipleVarargPatterns {
                program: program_name,
                first: pattern[first],
                second: pattern[second],
            },
        )
    } else if executable_paths.len() == 0 {
        Err(SpecError::NoExecutablePaths { program: program_name })
    } else {
        Ok(SpecProgramPolicy { program_name, pattern, executable_paths })
    }
}

/// Building succeeds exactly on well-formed parts.
pub proof fn lemma_build_program_wf(
    program_name: Seq<char>,
    pattern: Seq<SpecArgMatcher>,
    executable_paths: Seq<Seq<char>>,
)
    ensures
        build_program(program_name, pattern, executable_paths) is Ok <==> (SpecProgramPolicy {
            program_name,
            pattern,
            executable_paths,
        }).wf(),
{
    let first = prefix_len(pattern);
    let second = first_vararg_from(pattern, first + 1);
    lemma_first_vararg_from(pattern, 0);
    if first < pattern.len() {
        lemma_first_vararg_from(pattern, first + 1);
        if second < pattern.len() {
            assert(pattern[first].is_vararg() && pattern[second].is_vararg());
        }
    }
}

/// The ordered pattern of matchers and the candidate install locations
/// declared for one program.
///
/// Every value holds at most one vararg matcher and at least one install
/// location, of which the first is the canonical one.
#[derive(Debug, PartialEq, Eq)]
pub struct ProgramPolicy {
    program_name: String,
    pattern: Vec<ArgMatcher>,
    executable_paths: Vec<String>,
}

impl View for ProgramPolicy {
    type V = SpecProgramPolicy;

    closed spec fn view(&self) -> SpecProgramPolicy {
        SpecProgramPolicy {
            program_name: self.program_name@,
            pattern: self.pattern.deep_view(),
            executable_paths: self.executable_paths.deep_view(),
        }
    }
}

impl DeepView for ProgramPolicy {
    type V = SpecProgramPolicy;

    open spec fn deep_view(&self) -> SpecProgramPolicy {
        self@
    }
}

/// Copies a pattern, matcher by matcher.
fn clone_pattern(pattern: &Vec<ArgMatcher>) -> (out: Vec<ArgMatcher>)
    ensures
        out.deep_view() == pattern.deep_view(),
{
    let mut out: Vec<ArgMatcher> = Vec::new();
    let mut i: usize = 0;
    while i < pattern.len()
        invariant
            i <= pattern.len(),
            out.len() == i,
            forall|k: int| 0 <= k < i ==> out[k]@ == pattern[k]@,
        decreases pattern.len() - i,
    {
        out.push(pattern[i].clone());
        i += 1;
    }
    assert(out.deep_view() =~= pattern.deep_view());
    out
}

/// Finds the first vararg matcher of `pattern` at or after `start`.
fn find_vararg(pattern: &Vec<ArgMatcher>, start: usize) -> (at: usize)
    requires
        start <= pattern.len(),
    ensures
        at == first_vararg_from(pattern.deep_view(), start as int),
        start <= at <= pattern.len(),
{
    let mut at: usize = start;
    while at < pattern.len() && !pattern[at].is_vararg()
        invariant
            start <= at <= pattern.len(),
            first_vararg_from(pattern.deep_view(), at as int) == first_vararg_from(
                pattern.deep_view(),
                start as int,
            ),
        decreases pattern.len() - at,
    {
        at += 1;
    }
    at
}

/// Evaluates `matcher` against the argument `arg` found at position `index`.
fn resolve_arg(program: &String, matcher: &ArgMatcher, index: usize, arg: &String) -> (outcome:
    Result<MatchedArg>)
    ensures
        outcome_view(outcome) == arg_outcome(program@, matcher@, index as int, arg@),
{
    match matcher {
        ArgMatcher::Literal(text) => {
            if *arg != *text {
                return Err(
                    Error::LiteralMismatch {
                        program: program.clone(),
                        index,
                        expected: text.clone(),
                        actual: arg.clone(),
                    },
                );
            }
        },
        ArgMatcher::Flag(name) => {
            if *arg != *name {
                return Err(
                    Error::FlagMismatch {
                        program: program.clone(),
                        index,
                        expected: name.clone(),
                        actual: arg.clone(),
                    },
                );
            }
        },
        _ => {},
    }
    Ok(MatchedArg { index, arg_type: matcher.arg_type(), value: arg.clone() })
}

impl ProgramPolicy {
    #[verifier::type_invariant]
    pub open spec fn well_formed(self) -> bool {
        self@.wf()
    }

    /// Declares the policy of the program `program_name`.
    ///
    /// Refuses a pattern with more than one vararg matcher, naming the first
    /// two, and an empty list of install locations.
    pub fn new(program_name: &str, pattern: Vec<ArgMatcher>, executable_paths: &[&str]) -> (made:
        Result<ProgramPolicy>)
        ensures
            outcome_view(made) == build_program(
                program_name@,
                pattern.deep_view(),
                executable_paths.deep_view(),
            ),
    {
        let first = find_vararg(&pattern, 0);
        if first < pattern.len() {
            let second = find_vararg(&pattern, first + 1);
            if second < pattern.len() {
                return Err(
                    Error::MultipleVarargPatterns {
                        program: program_name.to_owned(),
                        first: pattern[first].clone(),
                        second: pattern[second].clone(),
                    },
                );
            }
        }
        if executable_paths.len() == 0 {
            return Err(Error::NoExecutablePaths { program: program_name.to_owned() });
        }
        proof {
            lemma_build_program_wf(
                program_name@,
                pattern.deep_view(),
                executable_paths.deep_view(),
            );
        }
        Ok(
            ProgramPolicy {
                program_name: program_name.to_owned(),
                pattern,
                executable_paths: owned_strings(executable_paths),
            },
        )
    }

    /// The name this policy is registered under.
    pub fn program_name(&self) -> (name: &String)
        ensures
            name@ == self@.program_name,
    {
        &self.program_name
    }

    /// The declared matchers, in order.
    pub fn pattern(&self) -> (pattern: &Vec<ArgMatcher>)
        ensures
            pattern.deep_view() == self@.pattern,
    {
        &self.pattern
    }

    /// The declared install locations, the canonical one first.
    pub fn executable_paths(&self) -> (paths: &Vec<String>)
        ensures
            paths.deep_view() == self@.executable_paths,
            paths.len() > 0,
    {
        proof {
            use_type_invariant(self);
        }
        &self.executable_paths
    }

    /// Matches the arguments of `call` against this policy's pattern.
    ///
    /// The program name of `call` is not consulted: looking a program up is
    /// the table's part.
    pub fn check(&self, call: &ExecCall) -> (outcome: Result<MatchedExec>)
        ensures
            outcome_view(outcome) == self@.check(call@.args),
    {
        let n = call.args.len();
        let len = self.pattern.len();
        let prefix = find_vararg(&self.pattern, 0);
        let vararg = prefix < len;
        let suffix = if vararg {
            len - prefix - 1
        } else {
            0
        };
        let fixed = prefix + suffix;
        if n < fixed {
            return Err(
                Error::NotEnoughArgs {
                    program: self.program_name.clone(),
                    args: clone_strings(&call.args),
                    arg_patterns: clone_pattern(&self.pattern),
                },
            );
        }
        if !vararg && n > fixed {
            return Err(
                Error::TooManyArgs {
                    program: self.program_name.clone(),
                    args: clone_strings(&call.args),
                    arg_patterns: clone_pattern(&self.pattern),
                },
            );
        }
        if vararg && n == fixed {
            return Err(
                Error::VarargMatcherDidNotMatchAnything {
                    program: self.program_name.clone(),
                    matcher: self.pattern[prefix].clone(),
                },
            );
        }
        let ghost outcomes = arg_outcomes(self@.program_name, self@.pattern, call@.args);
        let mut matched_args: Vec<MatchedArg> = Vec::new();
        let mut i: usize = 0;
        while i < n
            invariant
                i <= n,
                n == call.args.len(),
                len == self.pattern.len(),
                prefix == prefix_len(self@.pattern),
                suffix == suffix_len(self@.pattern),
                prefix + suffix <= len,
                prefix + suffix <= n,
                vararg == has_vararg(self@.pattern),
                vararg ==> n > prefix + suffix,
                !vararg ==> n == len,
                outcomes == arg_outcomes(self@.program_name, self@.pattern, call@.args),
                first_mismatch_from(outcomes, i as int) == first_mismatch_from(outcomes, 0),
                matched_args.len() == i,
                forall|k: int| 0 <= k < i ==> outcomes[k] == Ok::<SpecMatchedArg, SpecError>(
                    (#[trigger] matched_args[k])@,
                ),
            decreases n - i,
        {
            let at = if i < prefix {
                i
            } else if i < n - suffix {
                prefix
            } else {
                len - (n - i)
            };
            match resolve_arg(&self.program_name, &self.pattern[at], i, &call.args[i]) {
                Ok(matched) => {
                    matched_args.push(matched);
                },
                Err(refusal) => {
                    return Err(refusal);
                },
            }
            i += 1;
        }
        proof {
            assert(matched_args.deep_view() =~= Seq::new(
                outcomes.len(),
                |k: int| outcomes[k]->Ok_0,
            ));
        }
        Ok(
            MatchedExec::Match {
                valid_exec: ValidExec {
                    program: self.program_name.clone(),
                    matched_args,
                    candidate_paths: clone_strings(&self.executable_paths),
                },
            },
        )
    }
}

} // verus!
