use tunacode_execpolicy::get_default_policy;
use tunacode_execpolicy::ArgMatcher;
use tunacode_execpolicy::ArgType;
use tunacode_execpolicy::Error;
use tunacode_execpolicy::ExecCall;
use tunacode_execpolicy::MatchedArg;
use tunacode_execpolicy::MatchedExec;
use tunacode_execpolicy::Policy;
use tunacode_execpolicy::ProgramPolicy;
use tunacode_execpolicy::ValidExec;

fn program(name: &str, pattern: Vec<ArgMatcher>, paths: &[&str]) -> ProgramPolicy {
    match ProgramPolicy::new(name, pattern, paths) {
        Ok(program) => program,
        Err(refusal) => panic!("program policy refused: {:?}", refusal),
    }
}

fn table(programs: Vec<ProgramPolicy>) -> Policy {
    match Policy::new(programs) {
        Ok(policy) => policy,
        Err(refusal) => panic!("policy table refused: {:?}", refusal),
    }
}

fn strings(items: &[&str]) -> Vec<String> {
    items.iter().map(|item| item.to_string()).collect()
}

fn matched(index: usize, arg_type: ArgType, value: &str) -> MatchedArg {
    MatchedArg { index, arg_type, value: value.to_string() }
}

/// A table with patterns of every shape: no vararg, vararg first, vararg
/// last, vararg in the middle, and literal and flag matchers.
fn sample_table() -> Policy {
    table(vec![
        program("true", vec![], &["/bin/true"]),
        program(
            "ln",
            vec![ArgMatcher::Flag("-s".to_string()), ArgMatcher::ReadableFile, ArgMatcher::WriteableFile],
            &["/bin/ln", "/usr/bin/ln"],
        ),
        program(
            "install",
            vec![ArgMatcher::ReadableFiles, ArgMatcher::WriteableFile],
            &["/usr/bin/install"],
        ),
        program(
            "git",
            vec![ArgMatcher::Literal("add".to_string()), ArgMatcher::ReadableFiles],
            &["/usr/bin/git"],
        ),
        program(
            "tar",
            vec![
                ArgMatcher::Flag("-cf".to_string()),
                ArgMatcher::WriteableFile,
                ArgMatcher::ReadableFiles,
                ArgMatcher::Literal("--".to_string()),
                ArgMatcher::UntypedArg,
            ],
            &["/bin/tar", "/usr/bin/tar"],
        ),
        program("echo", vec![ArgMatcher::UntypedArgs], &["/bin/echo"]),
        program("touch", vec![ArgMatcher::WriteableFiles], &["/usr/bin/touch"]),
    ])
}

fn tar_pattern() -> Vec<ArgMatcher> {
    vec![
        ArgMatcher::Flag("-cf".to_string()),
        ArgMatcher::WriteableFile,
        ArgMatcher::ReadableFiles,
        ArgMatcher::Literal("--".to_string()),
        ArgMatcher::UntypedArg,
    ]
}

#[test]
fn unknown_program_is_refused() {
    let policy = get_default_policy().expect("default policy");
    let call = ExecCall::new("frobnicate", &["x", "y"]);
    assert_eq!(
        Err(Error::UnknownProgram { program: "frobnicate".to_string() }),
        policy.check(&call)
    );
}

#[test]
fn unknown_program_is_refused_without_args() {
    let policy = sample_table();
    assert_eq!(
        Err(Error::UnknownProgram { program: "cp".to_string() }),
        policy.check(&ExecCall::new("cp", &[]))
    );
}

#[test]
fn lookup_is_exact_and_case_sensitive() {
    let policy = sample_table();
    assert!(policy.lookup("tar").is_some());
    assert!(policy.lookup("Tar").is_none());
    assert!(policy.lookup("TAR").is_none());
    assert!(policy.lookup("tar ").is_none());
    assert!(policy.lookup("/bin/tar").is_none());
    assert!(policy.lookup("ta").is_none());
    assert!(policy.lookup("").is_none());
    assert_eq!(
        Err(Error::UnknownProgram { program: "Tar".to_string() }),
        policy.check(&ExecCall::new("Tar", &["-cf", "out", "in", "--", "x"]))
    );
}

#[test]
fn lookup_returns_the_registered_policy() {
    let policy = sample_table();
    let found = policy.lookup("ln").expect("ln is registered");
    assert_eq!("ln", found.program_name().as_str());
    assert_eq!(
        &vec![ArgMatcher::Flag("-s".to_string()), ArgMatcher::ReadableFile, ArgMatcher::WriteableFile],
        found.pattern()
    );
    assert_eq!(&strings(&["/bin/ln", "/usr/bin/ln"]), found.executable_paths());
}

#[test]
fn check_is_deterministic() {
    let policy = sample_table();
    let other = sample_table();
    let calls = vec![
        ExecCall::new("tar", &["-cf", "out.tar", "a", "b", "--", "x"]),
        ExecCall::new("tar", &["-cf", "out.tar", "a", "b", "---", "x"]),
        ExecCall::new("tar", &["-cf"]),
        ExecCall::new("true", &["x"]),
        ExecCall::new("nope", &[]),
    ];
    for call in &calls {
        let first = policy.check(call);
        let second = policy.check(call);
        assert_eq!(first, second);
        assert_eq!(first, other.check(&call.clone()));
    }
}

#[test]
fn empty_pattern_takes_no_arguments() {
    let policy = sample_table();
    assert_eq!(
        Ok(MatchedExec::Match { valid_exec: ValidExec::new("true", vec![], &["/bin/true"]) }),
        policy.check(&ExecCall::new("true", &[]))
    );
    assert_eq!(
        Err(Error::TooManyArgs {
            program: "true".to_string(),
            args: strings(&["x"]),
            arg_patterns: vec![],
        }),
        policy.check(&ExecCall::new("true", &["x"]))
    );
}

#[test]
fn arity_without_vararg_too_few() {
    let policy = sample_table();
    let pattern =
        vec![ArgMatcher::Flag("-s".to_string()), ArgMatcher::ReadableFile, ArgMatcher::WriteableFile];
    assert_eq!(
        Err(Error::NotEnoughArgs {
            program: "ln".to_string(),
            args: vec![],
            arg_patterns: pattern.clone(),
        }),
        policy.check(&ExecCall::new("ln", &[]))
    );
    assert_eq!(
        Err(Error::NotEnoughArgs {
            program: "ln".to_string(),
            args: strings(&["-s", "a"]),
            arg_patterns: pattern,
        }),
        policy.check(&ExecCall::new("ln", &["-s", "a"]))
    );
}

#[test]
fn arity_without_vararg_too_many() {
    let policy = sample_table();
    assert_eq!(
        Err(Error::TooManyArgs {
            program: "ln".to_string(),
            args: strings(&["-s", "a", "b", "c"]),
            arg_patterns: vec![
                ArgMatcher::Flag("-s".to_string()),
                ArgMatcher::ReadableFile,
                ArgMatcher::WriteableFile
            ],
        }),
        policy.check(&ExecCall::new("ln", &["-s", "a", "b", "c"]))
    );
}

#[test]
fn arity_is_checked_before_any_matcher() {
    let policy = sample_table();
    // The first argument is not the flag, but the count is reported first.
    assert_eq!(
        Err(Error::TooManyArgs {
            program: "ln".to_string(),
            args: strings(&["-x", "a", "b", "c"]),
            arg_patterns: vec![
                ArgMatcher::Flag("-s".to_string()),
                ArgMatcher::ReadableFile,
                ArgMatcher::WriteableFile
            ],
        }),
        policy.check(&ExecCall::new("ln", &["-x", "a", "b", "c"]))
    );
    assert_eq!(
        Err(Error::NotEnoughArgs {
            program: "tar".to_string(),
            args: strings(&["-x", "out"]),
            arg_patterns: tar_pattern(),
        }),
        policy.check(&ExecCall::new("tar", &["-x", "out"]))
    );
}

#[test]
fn exact_arity_without_vararg_matches() {
    let policy = sample_table();
    assert_eq!(
        Ok(MatchedExec::Match {
            valid_exec: ValidExec::new(
                "ln",
                vec![
                    matched(0, ArgType::Flag, "-s"),
                    matched(1, ArgType::ReadableFile, "target"),
                    matched(2, ArgType::WriteableFile, "link"),
                ],
                &["/bin/ln", "/usr/bin/ln"]
            )
        }),
        policy.check(&ExecCall::new("ln", &["-s", "target", "link"]))
    );
}

#[test]
fn arity_with_vararg_lists_the_whole_pattern() {
    let policy = sample_table();
    for args in [&[][..], &["-cf"][..], &["-cf", "out"][..], &["-cf", "out", "--"][..]] {
        assert_eq!(
            Err(Error::NotEnoughArgs {
                program: "tar".to_string(),
                args: strings(args),
                arg_patterns: tar_pattern(),
            }),
            policy.check(&ExecCall::new("tar", args))
        );
    }
}

#[test]
fn vararg_left_with_nothing_is_named() {
    let policy = sample_table();
    assert_eq!(
        Err(Error::VarargMatcherDidNotMatchAnything {
            program: "tar".to_string(),
            matcher: ArgMatcher::ReadableFiles,
        }),
        policy.check(&ExecCall::new("tar", &["-cf", "out", "--", "x"]))
    );
    assert_eq!(
        Err(Error::VarargMatcherDidNotMatchAnything {
            program: "echo".to_string(),
            matcher: ArgMatcher::UntypedArgs,
        }),
        policy.check(&ExecCall::new("echo", &[]))
    );
    assert_eq!(
        Err(Error::VarargMatcherDidNotMatchAnything {
            program: "touch".to_string(),
            matcher: ArgMatcher::WriteableFiles,
        }),
        policy.check(&ExecCall::new("touch", &[]))
    );
    assert_eq!(
        Err(Error::VarargMatcherDidNotMatchAnything {
            program: "git".to_string(),
            matcher: ArgMatcher::ReadableFiles,
        }),
        policy.check(&ExecCall::new("git", &["add"]))
    );
}

#[test]
fn vararg_in_the_middle_takes_one() {
    let policy = sample_table();
    assert_eq!(
        Ok(MatchedExec::Match {
            valid_exec: ValidExec::new(
                "tar",
                vec![
                    matched(0, ArgType::Flag, "-cf"),
                    matched(1, ArgType::WriteableFile, "out.tar"),
                    matched(2, ArgType::ReadableFile, "a"),
                    matched(3, ArgType::Literal, "--"),
                    matched(4, ArgType::UntypedArg, "x"),
                ],
                &["/bin/tar", "/usr/bin/tar"]
            )
        }),
        policy.check(&ExecCall::new("tar", &["-cf", "out.tar", "a", "--", "x"]))
    );
}

#[test]
fn vararg_is_greedy_up_to_the_suffix() {
    let policy = sample_table();
    let outcome = policy.check(&ExecCall::new(
        "tar",
        &["-cf", "out.tar", "a", "b", "c", "d", "--", "x"],
    ));
    assert_eq!(
        Ok(MatchedExec::Match {
            valid_exec: ValidExec::new(
                "tar",
                vec![
                    matched(0, ArgType::Flag, "-cf"),
                    matched(1, ArgType::WriteableFile, "out.tar"),
                    matched(2, ArgType::ReadableFile, "a"),
                    matched(3, ArgType::ReadableFile, "b"),
                    matched(4, ArgType::ReadableFile, "c"),
                    matched(5, ArgType::ReadableFile, "d"),
                    matched(6, ArgType::Literal, "--"),
                    matched(7, ArgType::UntypedArg, "x"),
                ],
                &["/bin/tar", "/usr/bin/tar"]
            )
        }),
        outcome
    );
}

#[test]
fn vararg_receives_all_but_prefix_and_suffix() {
    let policy = sample_table();
    for extra in 1usize..6 {
        let mut args: Vec<String> = vec!["-cf".to_string(), "out.tar".to_string()];
        for k in 0..extra {
            args.push(format!("in{}", k));
        }
        args.push("--".to_string());
        args.push("x".to_string());
        let borrowed: Vec<&str> = args.iter().map(|arg| arg.as_str()).collect();
        let outcome = policy.check(&ExecCall::new("tar", &borrowed));
        let valid_exec = match outcome {
            Ok(MatchedExec::Match { valid_exec }) => valid_exec,
            Err(refusal) => panic!("refused: {:?}", refusal),
        };
        let readable = valid_exec
            .matched_args
            .iter()
            .filter(|arg| arg.arg_type == ArgType::ReadableFile)
            .count();
        assert_eq!(extra, readable);
        assert_eq!(args.len() - 2 - 2, readable);
        for arg in &valid_exec.matched_args[2..2 + extra] {
            assert_eq!(ArgType::ReadableFile, arg.arg_type);
        }
    }
}

#[test]
fn suffix_words_inside_the_vararg_run_are_plain_arguments() {
    let policy = sample_table();
    // Only the last two arguments belong to the suffix: an earlier "--" is
    // one of the files.
    assert_eq!(
        Ok(MatchedExec::Match {
            valid_exec: ValidExec::new(
                "tar",
                vec![
                    matched(0, ArgType::Flag, "-cf"),
                    matched(1, ArgType::WriteableFile, "out.tar"),
                    matched(2, ArgType::ReadableFile, "--"),
                    matched(3, ArgType::ReadableFile, "a"),
                    matched(4, ArgType::Literal, "--"),
                    matched(5, ArgType::UntypedArg, "x"),
                ],
                &["/bin/tar", "/usr/bin/tar"]
            )
        }),
        policy.check(&ExecCall::new("tar", &["-cf", "out.tar", "--", "a", "--", "x"]))
    );
}

#[test]
fn index_fidelity_on_a_long_call() {
    let policy = sample_table();
    let args: Vec<String> = (0..40).map(|k| format!("file{}", k)).collect();
    let borrowed: Vec<&str> = args.iter().map(|arg| arg.as_str()).collect();
    let outcome = policy.check(&ExecCall::new("install", &borrowed));
    let valid_exec = match outcome {
        Ok(MatchedExec::Match { valid_exec }) => valid_exec,
        Err(refusal) => panic!("refused: {:?}", refusal),
    };
    assert_eq!(40, valid_exec.matched_args.len());
    for (position, arg) in valid_exec.matched_args.iter().enumerate() {
        assert_eq!(position, arg.index);
        assert_eq!(args[position], arg.value);
        let expected = if position < 39 { ArgType::ReadableFile } else { ArgType::WriteableFile };
        assert_eq!(expected, arg.arg_type);
    }
    for pair in valid_exec.matched_args.windows(2) {
        assert!(pair[0].index < pair[1].index);
    }
    assert_eq!("install", valid_exec.program);
    assert_eq!(strings(&["/usr/bin/install"]), valid_exec.candidate_paths);
}

#[test]
fn literal_mismatch_is_reported() {
    let policy = sample_table();
    assert_eq!(
        Err(Error::LiteralMismatch {
            program: "git".to_string(),
            index: 0,
            expected: "add".to_string(),
            actual: "push".to_string(),
        }),
        policy.check(&ExecCall::new("git", &["push", "origin"]))
    );
    assert_eq!(
        Err(Error::LiteralMismatch {
            program: "tar".to_string(),
            index: 4,
            expected: "--".to_string(),
            actual: "-".to_string(),
        }),
        policy.check(&ExecCall::new("tar", &["-cf", "out", "a", "b", "-", "x"]))
    );
}

#[test]
fn literal_equality_is_exact() {
    let policy = sample_table();
    for wrong in ["Add", "add ", " add", "ad", "adds", ""] {
        assert_eq!(
            Err(Error::LiteralMismatch {
                program: "git".to_string(),
                index: 0,
                expected: "add".to_string(),
                actual: wrong.to_string(),
            }),
            policy.check(&ExecCall::new("git", &[wrong, "file"]))
        );
    }
    assert_eq!(
        Ok(MatchedExec::Match {
            valid_exec: ValidExec::new(
                "git",
                vec![matched(0, ArgType::Literal, "add"), matched(1, ArgType::ReadableFile, "file")],
                &["/usr/bin/git"]
            )
        }),
        policy.check(&ExecCall::new("git", &["add", "file"]))
    );
}

#[test]
fn flag_mismatch_is_reported() {
    let policy = sample_table();
    assert_eq!(
        Err(Error::FlagMismatch {
            program: "ln".to_string(),
            index: 0,
            expected: "-s".to_string(),
            actual: "-f".to_string(),
        }),
        policy.check(&ExecCall::new("ln", &["-f", "a", "b"]))
    );
}

#[test]
fn first_mismatch_in_argument_order_wins() {
    let policy = sample_table();
    // Both the flag at 0 and the literal at 4 are wrong.
    assert_eq!(
        Err(Error::FlagMismatch {
            program: "tar".to_string(),
            index: 0,
            expected: "-cf".to_string(),
            actual: "-xf".to_string(),
        }),
        policy.check(&ExecCall::new("tar", &["-xf", "out", "a", "b", "-", "x"]))
    );
}

#[test]
fn file_matchers_take_any_string() {
    let policy = sample_table();
    let odd = ["", " ", "/does/not/exist", "../..", "-s", "--", "naïve ☃.txt"];
    for value in odd {
        assert_eq!(
            Ok(MatchedExec::Match {
                valid_exec: ValidExec::new(
                    "install",
                    vec![
                        matched(0, ArgType::ReadableFile, value),
                        matched(1, ArgType::WriteableFile, value),
                    ],
                    &["/usr/bin/install"]
                )
            }),
            policy.check(&ExecCall::new("install", &[value, value]))
        );
        assert_eq!(
            Ok(MatchedExec::Match {
                valid_exec: ValidExec::new(
                    "echo",
                    vec![matched(0, ArgType::UntypedArg, value)],
                    &["/bin/echo"]
                )
            }),
            policy.check(&ExecCall::new("echo", &[value]))
        );
    }
}

#[test]
fn writeable_vararg_classifies_each_element() {
    let policy = sample_table();
    assert_eq!(
        Ok(MatchedExec::Match {
            valid_exec: ValidExec::new(
                "touch",
                vec![
                    matched(0, ArgType::WriteableFile, "a"),
                    matched(1, ArgType::WriteableFile, "b"),
                    matched(2, ArgType::WriteableFile, "c"),
                ],
                &["/usr/bin/touch"]
            )
        }),
        policy.check(&ExecCall::new("touch", &["a", "b", "c"]))
    );
}

#[test]
fn program_check_does_not_consult_the_program_name() {
    let install =
        program("install", vec![ArgMatcher::ReadableFiles, ArgMatcher::WriteableFile], &["/usr/bin/install"]);
    assert_eq!(
        Ok(MatchedExec::Match {
            valid_exec: ValidExec::new(
                "install",
                vec![matched(0, ArgType::ReadableFile, "a"), matched(1, ArgType::WriteableFile, "b")],
                &["/usr/bin/install"]
            )
        }),
        install.check(&ExecCall::new("anything", &["a", "b"]))
    );
}

#[test]
fn two_vararg_matchers_are_refused() {
    assert_eq!(
        Err(Error::MultipleVarargPatterns {
            program: "cp".to_string(),
            first: ArgMatcher::ReadableFiles,
            second: ArgMatcher::WriteableFiles,
        }),
        ProgramPolicy::new(
            "cp",
            vec![ArgMatcher::ReadableFiles, ArgMatcher::UntypedArg, ArgMatcher::WriteableFiles],
            &["/bin/cp"]
        )
    );
    assert_eq!(
        Err(Error::MultipleVarargPatterns {
            program: "cp".to_string(),
            first: ArgMatcher::UntypedArgs,
            second: ArgMatcher::ReadableFiles,
        }),
        ProgramPolicy::new(
            "cp",
            vec![
                ArgMatcher::ReadableFile,
                ArgMatcher::UntypedArgs,
                ArgMatcher::ReadableFiles,
                ArgMatcher::WriteableFiles
            ],
            &[]
        )
    );
}

#[test]
fn missing_install_locations_are_refused() {
    assert_eq!(
        Err(Error::NoExecutablePaths { program: "cp".to_string() }),
        ProgramPolicy::new("cp", vec![ArgMatcher::ReadableFiles, ArgMatcher::WriteableFile], &[])
    );
    assert_eq!(
        Err(Error::NoExecutablePaths { program: "true".to_string() }),
        ProgramPolicy::new("true", vec![], &[])
    );
}

#[test]
fn program_policy_keeps_its_parts() {
    let made = program(
        "cp",
        vec![ArgMatcher::ReadableFiles, ArgMatcher::WriteableFile],
        &["/bin/cp", "/usr/bin/cp"],
    );
    assert_eq!("cp", made.program_name().as_str());
    assert_eq!(&vec![ArgMatcher::ReadableFiles, ArgMatcher::WriteableFile], made.pattern());
    assert_eq!(&strings(&["/bin/cp", "/usr/bin/cp"]), made.executable_paths());
    assert_eq!("/bin/cp", made.executable_paths()[0]);
}

#[test]
fn repeated_program_name_is_refused() {
    let programs = vec![
        program("a", vec![], &["/bin/a"]),
        program("b", vec![], &["/bin/b"]),
        program("c", vec![], &["/bin/c"]),
        program("b", vec![ArgMatcher::UntypedArg], &["/usr/bin/b"]),
        program("a", vec![ArgMatcher::UntypedArg], &["/usr/bin/a"]),
    ];
    assert_eq!(Err(Error::DuplicateProgram { program: "b".to_string() }), Policy::new(programs));
}

#[test]
fn empty_table_knows_no_program() {
    let policy = table(vec![]);
    assert!(policy.lookup("cp").is_none());
    assert_eq!(
        Err(Error::UnknownProgram { program: "".to_string() }),
        policy.check(&ExecCall::new("", &[]))
    );
}

#[test]
fn exec_call_keeps_program_and_args() {
    let call = ExecCall::new("cp", &["a", "", "b c"]);
    assert_eq!("cp", call.program);
    assert_eq!(strings(&["a", "", "b c"]), call.args);
    assert_eq!(ExecCall { program: "cp".to_string(), args: strings(&["a", "", "b c"]) }, call);
    assert_eq!(Vec::<String>::new(), ExecCall::new("pwd", &[]).args);
}

#[test]
fn matched_arg_new_keeps_its_fields() {
    assert_eq!(
        Ok(MatchedArg { index: 7, arg_type: ArgType::Flag, value: "-n".to_string() }),
        MatchedArg::new(7, ArgType::Flag, "-n")
    );
    assert_eq!(
        Ok(MatchedArg { index: 0, arg_type: ArgType::ReadableFile, value: "".to_string() }),
        MatchedArg::new(0, ArgType::ReadableFile, "")
    );
}

#[test]
fn valid_exec_new_keeps_its_fields() {
    let made = ValidExec::new("cp", vec![matched(0, ArgType::ReadableFile, "a")], &["/bin/cp", "/usr/bin/cp"]);
    assert_eq!("cp", made.program);
    assert_eq!(vec![matched(0, ArgType::ReadableFile, "a")], made.matched_args);
    assert_eq!(strings(&["/bin/cp", "/usr/bin/cp"]), made.candidate_paths);
}
