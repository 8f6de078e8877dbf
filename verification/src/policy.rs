use vstd::prelude::*;

use crate::error::outcome_view;
use crate::error::Error;
use crate::error::Result;
use crate::error::SpecError;
use crate::exec_call::ExecCall;
use crate::exec_call::SpecExecCall;
use crate::program::ProgramPolicy;
use crate::program::SpecProgramPolicy;
use crate::valid_exec::MatchedExec;
use crate::valid_exec::SpecMatchedExec;

verus! {

/// The mathematical value of a [`Policy`]: a map from program name to the
/// policy of that program.
pub type SpecPolicy = Map<Seq<char>, SpecProgramPolicy>;

/// The least index at or after `start` of a program named `name`; the
/// length of `programs` (or `start`, if that is larger) where there is none.
pub open spec fn first_named_from(
    programs: Seq<SpecProgramPolicy>,
    name: Seq<char>,
    start: int,
) -> int
    decreases programs.len() - start,
{
    if start >= programs.len() || programs[start].program_name == name {
        start
    } else {
        first_named_from(programs, name, start + 1)
    }
}

/// The least index at or after `start` of a program whose name an earlier
/// program already carries; the length of `programs` (or `start`, if that is
/// larger) where there is none.
pub open spec fn first_repeat_from(programs: Seq<SpecProgramPolicy>, start: int) -> int
    decreases programs.len() - start,
{
    if start >= programs.len() || first_named_from(programs, programs[start].program_name, 0)
        < start {
        start
    } else {
        first_repeat_from(programs, start + 1)
    }
}

/// The table that lists `programs`: each name is mapped to the first
/// program that carries it.
pub open spec fn table_of(programs: Seq<SpecProgramPolicy>) -> SpecPolicy {
    Map::new(
        |name: Seq<char>| first_named_from(programs, name, 0) < programs.len(),
        |name: Seq<char>| programs[first_named_from(programs, name, 0)],
    )
}

/// What building a table from `programs` gives: the table, or the first
/// name that occurs a second time.
pub open spec fn build_table(programs: Seq<SpecProgramPolicy>) -> core::result::Result<
    SpecPolicy,
    SpecError,
> {
    let repeat = first_repeat_from(programs, 0);
    if repeat < programs.len() {
        Err(SpecError::DuplicateProgram { program: programs[repeat].program_name })
    } else {
        Ok(table_of(programs))
    }
}

/// A table is well formed when every entry is a well-formed program policy
/// filed under its own name.
pub open spec fn table_wf(table: SpecPolicy) -> bool {
    forall|name: Seq<char>| #[trigger]
        table.dom().contains(name) ==> table[name].program_name == name && table[name].wf()
}

/// The verdict of `table` on `call`: an unknown program where the table has
/// no entry under the exact name, else the verdict of that entry on the
/// arguments.
pub open spec fn check_call(table: SpecPolicy, call: SpecExecCall) -> core::result::Result<
    SpecMatchedExec,
    SpecError,
> {
    if table.dom().contains(call.program) {
        table[call.program].check(call.args)
    } else {
        Err(SpecError::UnknownProgram { program: call.program })
    }
}

/// Where the first program named `name` at or after `start` lies: within
/// bounds, after only programs of other names, and on a program of that
/// name unless it is the end.
pub proof fn lemma_first_named_from(programs: Seq<SpecProgramPolicy>, name: Seq<char>, start: int)
    requires
        0 <= start <= programs.len(),
    ensures
        start <= first_named_from(programs, name, start) <= programs.len(),
        forall|k: int|
            start <= k < first_named_from(programs, name, start) ==> (
            #[trigger] programs[k]).program_name != name,
        first_named_from(programs, name, start) < programs.len() ==> programs[first_named_from(
            programs,
            name,
            start,
        )].program_name == name,
    decreases programs.len() - start,
{
    if start < programs.len() && programs[start].program_name != name {
        lemma_first_named_from(programs, name, start + 1);
    }
}

/// A list in which no name occurs twice builds into a table.
pub proof fn lemma_distinct_names_build(programs: Seq<SpecProgramPolicy>)
    requires
        forall|i: int, j: int|
            0 <= i < j < programs.len() ==> programs[i].program_name != programs[j].program_name,
    ensures
        build_table(programs) == Ok::<SpecPolicy, SpecError>(table_of(programs)),
{
    lemma_no_repeat_from(programs, 0);
}

/// Where no name occurs twice, no program at or after `start` repeats one.
proof fn lemma_no_repeat_from(programs: Seq<SpecProgramPolicy>, start: int)
    requires
        0 <= start <= programs.len(),
        forall|i: int, j: int|
            0 <= i < j < programs.len() ==> programs[i].program_name != programs[j].program_name,
    ensures
        first_repeat_from(programs, start) == programs.len(),
    decreases programs.len() - start,
{
    if start < programs.len() {
        lemma_first_named_from(programs, programs[start].program_name, 0);
        lemma_no_repeat_from(programs, start + 1);
    }
}

/// A table of well-formed programs is well formed.
pub proof fn lemma_table_of_wf(programs: Seq<SpecProgramPolicy>)
    requires
        forall|i: int| 0 <= i < programs.len() ==> (#[trigger] programs[i]).wf(),
    ensures
        table_wf(table_of(programs)),
{
    assert forall|name: Seq<char>| #[trigger] table_of(programs).dom().contains(name) implies {
        &&& table_of(programs)[name].program_name == name
        &&& table_of(programs)[name].wf()
    } by {
        lemma_first_named_from(programs, name, 0);
    }
}

/// The policy table: for each program name, the policy of that program.
///
/// A table is built once and never changed. No name occurs twice in it, and
/// every entry is well formed.
#[derive(Debug, PartialEq, Eq)]
pub struct Policy {
    programs: Vec<ProgramPolicy>,
}

impl View for Policy {
    type V = SpecPolicy;

    closed spec fn view(&self) -> SpecPolicy {
        table_of(self.programs.deep_view())
    }
}

/// Finds the first program named `name` at or after `start`.
fn find_named(programs: &Vec<ProgramPolicy>, name: &String, start: usize) -> (at: usize)
    requires
        start <= programs.len(),
    ensures
        at == first_named_from(programs.deep_view(), name@, start as int),
        start <= at <= programs.len(),
{
    let mut at: usize = start;
    while at < programs.len() && *programs[at].program_name() != *name
        invariant
            start <= at <= programs.len(),
            first_named_from(programs.deep_view(), name@, at as int) == first_named_from(
                programs.deep_view(),
                name@,
                start as int,
            ),
        decreases programs.len() - at,
    {
        at += 1;
    }
    at
}

impl Policy {
    #[verifier::type_invariant]
    spec fn well_formed(self) -> bool {
        &&& first_repeat_from(self.programs.deep_view(), 0) >= self.programs.len()
        &&& forall|i: int| 0 <= i < self.programs.len() ==> (#[trigger] self.programs[i])@.wf()
    }

    /// Builds the table that lists `programs`.
    ///
    /// Refuses a list in which a program name occurs twice, naming the first
    /// name that repeats.
    pub fn new(programs: Vec<ProgramPolicy>) -> (made: Result<Policy>)
        ensures
            outcome_view(made) == build_table(programs.deep_view()),
            made is Ok ==> table_wf(made->Ok_0@),
    {
        let mut i: usize = 0;
        while i < programs.len()
            invariant
                i <= programs.len(),
                first_repeat_from(programs.deep_view(), i as int) == first_repeat_from(
                    programs.deep_view(),
                    0,
                ),
                forall|k: int| 0 <= k < i ==> (#[trigger] programs[k])@.wf(),
            decreases programs.len() - i,
        {
            let entry = &programs[i];
            proof {
                use_type_invariant(entry);
            }
            let name = entry.program_name();
            if find_named(&programs, name, 0) < i {
                return Err(Error::DuplicateProgram { program: name.clone() });
            }
            i += 1;
        }
        proof {
            lemma_table_of_wf(programs.deep_view());
        }
        Ok(Policy { programs })
    }

    /// The policy registered under exactly `program`, if there is one.
    pub fn lookup(&self, program: &str) -> (found: Option<&ProgramPolicy>)
        ensures
            found is Some <==> self@.dom().contains(program@),
            found is Some ==> found->Some_0@ == self@[program@],
    {
        let name = program.to_owned();
        let at = find_named(&self.programs, &name, 0);
        if at < self.programs.len() {
            Some(&self.programs[at])
        } else {
            None
        }
    }

    /// Decides whether `call` is a well-formed invocation of a program this
    /// table knows.
    pub fn check(&self, call: &ExecCall) -> (outcome: Result<MatchedExec>)
        ensures
            outcome_view(outcome) == check_call(self@, call@),
    {
        let at = find_named(&self.programs, &call.program, 0);
        if at < self.programs.len() {
            self.programs[at].check(call)
        } else {
            Err(Error::UnknownProgram { program: call.program.clone() })
        }
    }
}

} // verus!
