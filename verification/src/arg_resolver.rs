use vstd::prelude::*;

use crate::arg_matcher::SpecArgMatcher;
use crate::error::SpecError;
use crate::valid_exec::SpecMatchedArg;

verus! {

/// The least index at or after `start` at which `pattern` holds a vararg
/// matcher; the length of `pattern` (or `start`, if that is larger) where it
/// holds none there.
pub open spec fn first_vararg_from(pattern: Seq<SpecArgMatcher>, start: int) -> int
    decreases pattern.len() - start,
{
    if start >= pattern.len() || pattern[start].is_vararg() {
        start
    } else {
        first_vararg_from(pattern, start + 1)
    }
}

/// The number of matchers before the vararg matcher: the fixed prefix. A
/// pattern without a vararg matcher is all prefix.
pub open spec fn prefix_len(pattern: Seq<SpecArgMatcher>) -> int {
    first_vararg_from(pattern, 0)
}

/// Whether `pattern` holds a vararg matcher.
pub open spec fn has_vararg(pattern: Seq<SpecArgMatcher>) -> bool {
    prefix_len(pattern) < pattern.len()
}

/// The number of matchers after the vararg matcher: the fixed suffix. A
/// pattern without a vararg matcher has none.
pub open spec fn suffix_len(pattern: Seq<SpecArgMatcher>) -> int {
    if has_vararg(pattern) {
        pattern.len() - prefix_len(pattern) - 1
    } else {
        0
    }
}

/// A pattern is well formed when at most one of its matchers is a vararg.
pub open spec fn at_most_one_vararg(pattern: Seq<SpecArgMatcher>) -> bool {
    forall|i: int, j: int|
        0 <= i < j < pattern.len() ==> !(#[trigger] pattern[i].is_vararg()
            && #[trigger] pattern[j].is_vararg())
}

/// The index in `pattern` of the matcher that argument `i` of `n` is
/// assigned to: the prefix takes the first arguments position by position,
/// the suffix takes the last ones, and the vararg matcher takes everything
/// in between.
pub open spec fn assigned_matcher(pattern: Seq<SpecArgMatcher>, n: int, i: int) -> int {
    if i < prefix_len(pattern) {
        i
    } else if i < n - suffix_len(pattern) {
        prefix_len(pattern)
    } else {
        pattern.len() - (n - i)
    }
}

/// What evaluating `matcher` against the argument `arg` at position `index`
/// gives: the resolved argument, or the mismatch of a literal or a flag.
pub open spec fn arg_outcome(
    program: Seq<char>,
    matcher: SpecArgMatcher,
    index: int,
    arg: Seq<char>,
) -> Result<SpecMatchedArg, SpecError> {
    match matcher {
        SpecArgMatcher::Literal(text) if arg != text => Err(
            SpecError::LiteralMismatch { program, index, expected: text, actual: arg },
        ),
        SpecArgMatcher::Flag(name) if arg != name => Err(
            SpecError::FlagMismatch { program, index, expected: name, actual: arg },
        ),
        _ => Ok(SpecMatchedArg { index, arg_type: matcher.arg_type(), value: arg }),
    }
}

/// The outcome of every argument of `args` against the matcher it is
/// assigned to, in argument order.
pub open spec fn arg_outcomes(
    program: Seq<char>,
    pattern: Seq<SpecArgMatcher>,
    args: Seq<Seq<char>>,
) -> Seq<Result<SpecMatchedArg, SpecError>> {
    Seq::new(
        args.len(),
        |i: int|
            arg_outcome(
                program,
                pattern[assigned_matcher(pattern, args.len() as int, i)],
                i,
                args[i],
            ),
    )
}

/// The least index at or after `start` whose outcome is a mismatch; the
/// length of `outcomes` (or `start`, if that is larger) where there is none.
pub open spec fn first_mismatch_from(
    outcomes: Seq<Result<SpecMatchedArg, SpecError>>,
    start: int,
) -> int
    decreases outcomes.len() - start,
{
    if start >= outcomes.len() || outcomes[start] is Err {
        start
    } else {
        first_mismatch_from(outcomes, start + 1)
    }
}

/// Resolves arguments whose count already fits the pattern: the mismatch of
/// the first argument that its matcher refuses, or else every argument
/// resolved, in argument order.
pub open spec fn resolve_args(
    program: Seq<char>,
    pattern: Seq<SpecArgMatcher>,
    args: Seq<Seq<char>>,
) -> Result<Seq<SpecMatchedArg>, SpecError> {
    let outcomes = arg_outcomes(program, pattern, args);
    let stop = first_mismatch_from(outcomes, 0);
    if stop < outcomes.len() {
        Err(outcomes[stop]->Err_0)
    } else {
        Ok(Seq::new(outcomes.len(), |i: int| outcomes[i]->Ok_0))
    }
}

/// Matches `args` against `pattern` for the program named `program`.
///
/// With `p` matchers in the prefix and `s` in the suffix: fewer than `p + s`
/// arguments are not enough; without a vararg matcher more than `p + s` are
/// too many; with one, exactly `p + s` leave it nothing to match. Any other
/// count is resolved argument by argument.
pub open spec fn match_pattern(
    program: Seq<char>,
    pattern: Seq<SpecArgMatcher>,
    args: Seq<Seq<char>>,
) -> Result<Seq<SpecMatchedArg>, SpecError> {
    let fixed = prefix_len(pattern) + suffix_len(pattern);
    if args.len() < fixed {
        Err(SpecError::NotEnoughArgs { program, args, arg_patterns: pattern })
    } else if !has_vararg(pattern) && args.len() > fixed {
        Err(SpecError::TooManyArgs { program, args, arg_patterns: pattern })
    } else if has_vararg(pattern) && args.len() == fixed {
        Err(
            SpecError::VarargMatcherDidNotMatchAnything {
                program,
                matcher: pattern[prefix_len(pattern)],
            },
        )
    } else {
        resolve_args(program, pattern, args)
    }
}

/// Where the first vararg matcher at or after `start` lies: within bounds,
/// after only singular matchers, and on a vararg matcher unless it is the
/// end of the pattern.
pub proof fn lemma_first_vararg_from(pattern: Seq<SpecArgMatcher>, start: int)
    requires
        0 <= start <= pattern.len(),
    ensures
        start <= first_vararg_from(pattern, start) <= pattern.len(),
        forall|k: int|
            start <= k < first_vararg_from(pattern, start) ==> !(#[trigger] pattern[k]).is_vararg(),
        first_vararg_from(pattern, start) < pattern.len() ==> pattern[first_vararg_from(
            pattern,
            start,
        )].is_vararg(),
    decreases pattern.len() - start,
{
    if start < pattern.len() && !pattern[start].is_vararg() {
        lemma_first_vararg_from(pattern, start + 1);
    }
}

/// Where the first mismatch at or after `start` lies: within bounds, after
/// only resolved arguments, and on a mismatch unless it is the end.
pub proof fn lemma_first_mismatch_from(
    outcomes: Seq<Result<SpecMatchedArg, SpecError>>,
    start: int,
)
    requires
        0 <= start <= outcomes.len(),
    ensures
        start <= first_mismatch_from(outcomes, start) <= outcomes.len(),
        forall|k: int|
            start <= k < first_mismatch_from(outcomes, start) ==> (#[trigger] outcomes[k]) is Ok,
        first_mismatch_from(outcomes, start) < outcomes.len() ==> outcomes[first_mismatch_from(
            outcomes,
            start,
        )] is Err,
    decreases outcomes.len() - start,
{
    if start < outcomes.len() && outcomes[start] is Ok {
        lemma_first_mismatch_from(outcomes, start + 1);
    }
}

} // verus!
