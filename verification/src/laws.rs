use vstd::prelude::*;

use crate::arg_matcher::SpecArgMatcher;
use crate::arg_resolver::arg_outcomes;
use crate::arg_resolver::assigned_matcher;
use crate::arg_resolver::at_most_one_vararg;
use crate::arg_resolver::has_vararg;
use crate::arg_resolver::lemma_first_mismatch_from;
use crate::arg_resolver::lemma_first_vararg_from;
use crate::arg_resolver::prefix_len;
use crate::arg_resolver::suffix_len;
use crate::error::outcome_view;
use crate::error::Error;
use crate::error::SpecError;
use crate::exec_call::ExecCall;
use crate::exec_call::SpecExecCall;
use crate::policy::check_call;
use crate::policy::Policy;
use crate::policy::SpecPolicy;
use crate::valid_exec::MatchedExec;
use crate::valid_exec::SpecMatchedExec;

verus! {

/// Checking is deterministic: two checks of structurally equal calls
/// against structurally equal tables give structurally equal results.
pub proof fn lemma_check_deterministic(
    first_policy: Policy,
    first_call: ExecCall,
    first: core::result::Result<MatchedExec, Error>,
    second_policy: Policy,
    second_call: ExecCall,
    second: core::result::Result<MatchedExec, Error>,
)
    requires
        first_policy@ == second_policy@,
        first_call@ == second_call@,
        outcome_view(first) == check_call(first_policy@, first_call@),
        outcome_view(second) == check_call(second_policy@, second_call@),
    ensures
        outcome_view(first) == outcome_view(second),
{
}

/// A call of a program that the table does not hold is refused as an
/// unknown program, whatever its arguments.
pub proof fn lemma_unknown_program(table: SpecPolicy, call: SpecExecCall)
    requires
        !table.dom().contains(call.program),
    ensures
        check_call(table, call) == Err::<SpecMatchedExec, SpecError>(
            SpecError::UnknownProgram { program: call.program },
        ),
{
}

/// Arity without a vararg matcher: a call whose argument count differs from
/// the length of such a pattern is refused, with too few arguments as not
/// enough and with too many as too many, and the refusal carries the
/// arguments and the whole pattern.
pub proof fn lemma_arity_without_vararg(table: SpecPolicy, call: SpecExecCall)
    requires
        table.dom().contains(call.program),
        !has_vararg(table[call.program].pattern),
        call.args.len() != prefix_len(table[call.program].pattern) + suffix_len(
            table[call.program].pattern,
        ),
    ensures
        call.args.len() < table[call.program].pattern.len() ==> check_call(table, call) == Err::<
            SpecMatchedExec,
            SpecError,
        >(
            SpecError::NotEnoughArgs {
                program: table[call.program].program_name,
                args: call.args,
                arg_patterns: table[call.program].pattern,
            },
        ),
        call.args.len() > table[call.program].pattern.len() ==> check_call(table, call) == Err::<
            SpecMatchedExec,
            SpecError,
        >(
            SpecError::TooManyArgs {
                program: table[call.program].program_name,
                args: call.args,
                arg_patterns: table[call.program].pattern,
            },
        ),
        call.args.len() != table[call.program].pattern.len(),
{
    lemma_first_vararg_from(table[call.program].pattern, 0);
}

/// Arity with a vararg matcher: a call with fewer arguments than the fixed
/// matchers of the pattern need is refused as not enough, and the refusal
/// lists the whole declared pattern, the vararg matcher as one entry.
pub proof fn lemma_arity_with_vararg(table: SpecPolicy, call: SpecExecCall)
    requires
        table.dom().contains(call.program),
        has_vararg(table[call.program].pattern),
        call.args.len() < prefix_len(table[call.program].pattern) + suffix_len(
            table[call.program].pattern,
        ),
    ensures
        check_call(table, call) == Err::<SpecMatchedExec, SpecError>(
            SpecError::NotEnoughArgs {
                program: table[call.program].program_name,
                args: call.args,
                arg_patterns: table[call.program].pattern,
            },
        ),
{
}

/// A call with exactly as many arguments as the fixed matchers of a
/// pattern with a vararg matcher need leaves that matcher nothing, and is
/// refused with the matcher named.
pub proof fn lemma_vararg_left_empty(table: SpecPolicy, call: SpecExecCall)
    requires
        table.dom().contains(call.program),
        has_vararg(table[call.program].pattern),
        call.args.len() == prefix_len(table[call.program].pattern) + suffix_len(
            table[call.program].pattern,
        ),
    ensures
        check_call(table, call) == Err::<SpecMatchedExec, SpecError>(
            SpecError::VarargMatcherDidNotMatchAnything {
                program: table[call.program].program_name,
                matcher: table[call.program].pattern[prefix_len(table[call.program].pattern)],
            },
        ),
        table[call.program].pattern[prefix_len(table[call.program].pattern)].is_vararg(),
{
    lemma_first_vararg_from(table[call.program].pattern, 0);
}

/// Vararg greediness: of `n` arguments that fit a well-formed pattern with
/// `p` matchers before its vararg matcher and `s` after it, the vararg
/// matcher receives exactly the `n - p - s` arguments from position `p` on,
/// at least one, and every other argument goes to a singular matcher of its
/// own: the prefix takes the first `p`, the suffix the last `s`.
pub proof fn lemma_vararg_greedy(pattern: Seq<SpecArgMatcher>, n: int)
    requires
        at_most_one_vararg(pattern),
        has_vararg(pattern),
        n > prefix_len(pattern) + suffix_len(pattern),
    ensures
        0 <= prefix_len(pattern) < pattern.len(),
        prefix_len(pattern) + 1 + suffix_len(pattern) == pattern.len(),
        n - prefix_len(pattern) - suffix_len(pattern) >= 1,
        forall|i: int|
            0 <= i < n ==> 0 <= #[trigger] assigned_matcher(pattern, n, i) < pattern.len(),
        forall|i: int|
            0 <= i < n ==> (pattern[#[trigger] assigned_matcher(pattern, n, i)].is_vararg() <==> (
            prefix_len(pattern) <= i < n - suffix_len(pattern))),
        forall|i: int|
            0 <= i < prefix_len(pattern) ==> #[trigger] assigned_matcher(pattern, n, i) == i,
        forall|k: int|
            0 <= k < suffix_len(pattern) ==> #[trigger] assigned_matcher(
                pattern,
                n,
                n - suffix_len(pattern) + k,
            ) == prefix_len(pattern) + 1 + k,
{
    lemma_first_vararg_from(pattern, 0);
    let p = prefix_len(pattern);
    assert forall|i: int| 0 <= i < n implies (pattern[#[trigger] assigned_matcher(
        pattern,
        n,
        i,
    )].is_vararg() <==> (p <= i < n - suffix_len(pattern))) by {
        let at = assigned_matcher(pattern, n, i);
        if at != p {
            assert(!(pattern[p].is_vararg() && pattern[at].is_vararg()));
        }
    }
}

/// A call is accepted exactly when its program is in the table, its
/// argument count fits the pattern, and every argument satisfies the
/// matcher it is assigned to.
pub proof fn lemma_accepted_iff(table: SpecPolicy, call: SpecExecCall)
    ensures
        check_call(table, call) is Ok <==> {
            &&& table.dom().contains(call.program)
            &&& if has_vararg(table[call.program].pattern) {
                call.args.len() > prefix_len(table[call.program].pattern) + suffix_len(
                    table[call.program].pattern,
                )
            } else {
                call.args.len() == table[call.program].pattern.len()
            }
            &&& forall|i: int|
                0 <= i < call.args.len() ==> table[call.program].pattern[#[trigger] assigned_matcher(
                    table[call.program].pattern,
                    call.args.len() as int,
                    i,
                )].accepts(call.args[i])
        },
{
    if table.dom().contains(call.program) {
        let program = table[call.program];
        let pattern = program.pattern;
        let n = call.args.len() as int;
        let outcomes = arg_outcomes(program.program_name, pattern, call.args);
        lemma_first_vararg_from(pattern, 0);
        lemma_first_mismatch_from(outcomes, 0);
        assert forall|i: int| 0 <= i < n implies (outcomes[i] is Ok <==> pattern[assigned_matcher(
            pattern,
            n,
            i,
        )].accepts(call.args[i])) by {}
        if check_call(table, call) is Ok {
            assert forall|i: int| 0 <= i < n implies pattern[#[trigger] assigned_matcher(
                pattern,
                n,
                i,
            )].accepts(call.args[i]) by {
                assert(outcomes[i] is Ok);
            }
        }
    }
}

/// Index fidelity: an accepted invocation resolves every argument of the
/// call, in argument order; the entry at position `i` carries the index
/// `i`, the text of argument `i` and the classification of the matcher that
/// argument is assigned to, so that indices increase strictly; and it
/// carries the program's name and declared install locations.
pub proof fn lemma_index_fidelity(table: SpecPolicy, call: SpecExecCall)
    requires
        check_call(table, call) is Ok,
    ensures
        table.dom().contains(call.program),
        check_call(table, call)->Ok_0->valid_exec.program == table[call.program].program_name,
        check_call(table, call)->Ok_0->valid_exec.candidate_paths
            == table[call.program].executable_paths,
        check_call(table, call)->Ok_0->valid_exec.matched_args.len() == call.args.len(),
        forall|i: int|
            0 <= i < call.args.len() ==> {
                let matched = #[trigger] check_call(table, call)->Ok_0->valid_exec.matched_args[i];
                &&& matched.index == i
                &&& matched.value == call.args[i]
                &&& matched.arg_type == table[call.program].pattern[assigned_matcher(
                    table[call.program].pattern,
                    call.args.len() as int,
                    i,
                )].arg_type()
            },
        forall|i: int, j: int|
            0 <= i < j < call.args.len() ==> (#[trigger] check_call(
                table,
                call,
            )->Ok_0->valid_exec.matched_args[i]).index < (#[trigger] check_call(
                table,
                call,
            )->Ok_0->valid_exec.matched_args[j]).index,
{
    let program = table[call.program];
    let outcomes = arg_outcomes(program.program_name, program.pattern, call.args);
    lemma_first_mismatch_from(outcomes, 0);
}

} // verus!
