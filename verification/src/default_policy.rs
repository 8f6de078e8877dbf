use vstd::prelude::*;

use crate::arg_matcher::ArgMatcher;
use crate::arg_matcher::SpecArgMatcher;
use crate::arg_resolver::first_vararg_from;
use crate::error::Result;
use crate::error::SpecError;
use crate::policy::build_table;
use crate::policy::lemma_distinct_names_build;
use crate::policy::lemma_table_of_wf;
use crate::policy::table_of;
use crate::policy::table_wf;
use crate::policy::Policy;
use crate::policy::SpecPolicy;
use crate::program::build_program;
use crate::program::lemma_build_program_wf;
use crate::program::ProgramPolicy;
use crate::program::SpecProgramPolicy;

verus! {

/// The bundled program definitions, in the order they are registered:
/// common file and text utilities, each with its pattern and the places it
/// is usually installed.
pub open spec fn default_programs() -> Seq<SpecProgramPolicy> {
    seq![
        SpecProgramPolicy {
            program_name: "cat"@,
            pattern: seq![SpecArgMatcher::ReadableFiles],
            executable_paths: seq!["/bin/cat"@, "/usr/bin/cat"@],
        },
        SpecProgramPolicy {
            program_name: "cp"@,
            pattern: seq![SpecArgMatcher::ReadableFiles, SpecArgMatcher::WriteableFile],
            executable_paths: seq!["/bin/cp"@, "/usr/bin/cp"@],
        },
        SpecProgramPolicy {
            program_name: "head"@,
            pattern: seq![SpecArgMatcher::ReadableFiles],
            executable_paths: seq!["/bin/head"@, "/usr/bin/head"@],
        },
        SpecProgramPolicy {
            program_name: "ls"@,
            pattern: seq![SpecArgMatcher::ReadableFiles],
            executable_paths: seq!["/bin/ls"@, "/usr/bin/ls"@],
        },
        SpecProgramPolicy {
            program_name: "printenv"@,
            pattern: seq![SpecArgMatcher::UntypedArg],
            executable_paths: seq!["/usr/bin/printenv"@],
        },
        SpecProgramPolicy {
            program_name: "pwd"@,
            pattern: seq![],
            executable_paths: seq!["/bin/pwd"@, "/usr/bin/pwd"@],
        },
        SpecProgramPolicy {
            program_name: "which"@,
            pattern: seq![SpecArgMatcher::ReadableFiles],
            executable_paths: seq!["/bin/which"@, "/usr/bin/which"@],
        },
    ]
}

/// The built-in policy table.
pub open spec fn default_table() -> SpecPolicy {
    table_of(default_programs())
}

/// No two bundled definitions carry the same program name, and each is
/// well formed, so the built-in table has an entry for each of them.
pub proof fn lemma_default_table()
    ensures
        forall|i: int|
            0 <= i < default_programs().len() ==> build_program(
                (#[trigger] default_programs()[i]).program_name,
                default_programs()[i].pattern,
                default_programs()[i].executable_paths,
            ) == Ok::<SpecProgramPolicy, SpecError>(default_programs()[i]),
        build_table(default_programs()) == Ok::<SpecPolicy, SpecError>(default_table()),
        table_wf(default_table()),
{
    reveal_strlit("cat");
    reveal_strlit("cp");
    reveal_strlit("head");
    reveal_strlit("ls");
    reveal_strlit("printenv");
    reveal_strlit("pwd");
    reveal_strlit("which");
    let programs = default_programs();
    assert forall|i: int, j: int| 0 <= i < j < programs.len() implies programs[i].program_name
        != programs[j].program_name by {
        assert(programs[i].program_name.len() != programs[j].program_name.len()
            || programs[i].program_name[0] != programs[j].program_name[0]);
    }
    lemma_distinct_names_build(programs);
    assert forall|i: int| 0 <= i < programs.len() implies (#[trigger] programs[i]).wf() by {
        reveal_with_fuel(first_vararg_from, 4);
        lemma_build_program_wf(
            programs[i].program_name,
            programs[i].pattern,
            programs[i].executable_paths,
        );
    }
    assert forall|i: int| 0 <= i < programs.len() implies build_program(
        (#[trigger] programs[i]).program_name,
        programs[i].pattern,
        programs[i].executable_paths,
    ) == Ok::<SpecProgramPolicy, SpecError>(programs[i]) by {
        lemma_build_program_wf(
            programs[i].program_name,
            programs[i].pattern,
            programs[i].executable_paths,
        );
    }
    lemma_table_of_wf(programs);
}

/// Declares one program and appends it to `programs`.
fn register(
    programs: &mut Vec<ProgramPolicy>,
    program_name: &str,
    pattern: Vec<ArgMatcher>,
    executable_paths: &[&str],
) -> (done: Result<()>)
    ensures
        match build_program(program_name@, pattern.deep_view(), executable_paths.deep_view()) {
            Ok(program) => done is Ok && final(programs).deep_view() == old(
                programs,
            ).deep_view().push(program),
            Err(refusal) => done is Err && done->Err_0@ == refusal && final(programs).deep_view()
                == old(programs).deep_view(),
        },
{
    let program = ProgramPolicy::new(program_name, pattern, executable_paths)?;
    programs.push(program);
    assert(programs.deep_view() =~= old(programs).deep_view().push(program@));
    Ok(())
}

/// Builds the built-in policy table.
pub fn get_default_policy() -> (made: Result<Policy>)
    ensures
        made is Ok,
        made->Ok_0@ == default_table(),
        table_wf(default_table()),
{
    proof {
        lemma_default_table();
    }
    let ghost expected = default_programs();
    let mut programs: Vec<ProgramPolicy> = Vec::new();

    let pattern = vec![ArgMatcher::ReadableFiles];
    let paths = ["/bin/cat", "/usr/bin/cat"];
    proof {
        assert(pattern.deep_view() =~= expected[0].pattern);
        assert(paths.deep_view() =~= expected[0].executable_paths);
    }
    register(&mut programs, "cat", pattern, &paths)?;

    let pattern = vec![ArgMatcher::ReadableFiles, ArgMatcher::WriteableFile];
    let paths = ["/bin/cp", "/usr/bin/cp"];
    proof {
        assert(pattern.deep_view() =~= expected[1].pattern);
        assert(paths.deep_view() =~= expected[1].executable_paths);
    }
    register(&mut programs, "cp", pattern, &paths)?;

    let pattern = vec![ArgMatcher::ReadableFiles];
    let paths = ["/bin/head", "/usr/bin/head"];
    proof {
        assert(pattern.deep_view() =~= expected[2].pattern);
        assert(paths.deep_view() =~= expected[2].executable_paths);
    }
    register(&mut programs, "head", pattern, &paths)?;

    let pattern = vec![ArgMatcher::ReadableFiles];
    let paths = ["/bin/ls", "/usr/bin/ls"];
    proof {
        assert(pattern.deep_view() =~= expected[3].pattern);
        assert(paths.deep_view() =~= expected[3].executable_paths);
    }
    register(&mut programs, "ls", pattern, &paths)?;

    let pattern = vec![ArgMatcher::UntypedArg];
    let paths = ["/usr/bin/printenv"];
    proof {
        assert(pattern.deep_view() =~= expected[4].pattern);
        assert(paths.deep_view() =~= expected[4].executable_paths);
    }
    register(&mut programs, "printenv", pattern, &paths)?;

    let pattern: Vec<ArgMatcher> = Vec::new();
    let paths = ["/bin/pwd", "/usr/bin/pwd"];
    proof {
        assert(pattern.deep_view() =~= expected[5].pattern);
        assert(paths.deep_view() =~= expected[5].executable_paths);
    }
    register(&mut programs, "pwd", pattern, &paths)?;

    let pattern = vec![ArgMatcher::ReadableFiles];
    let paths = ["/bin/which", "/usr/bin/which"];
    proof {
        assert(pattern.deep_view() =~= expected[6].pattern);
        assert(paths.deep_view() =~= expected[6].executable_paths);
    }
    register(&mut programs, "which", pattern, &paths)?;

    assert(programs.deep_view() =~= expected);
    Policy::new(programs)
}

} // verus!
