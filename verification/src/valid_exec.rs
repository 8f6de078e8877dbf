use vstd::prelude::*;

use crate::arg_type::ArgType;
use crate::error::Error;
use crate::text::owned_strings;

verus! {

/// The mathematical value of a [`MatchedArg`].
pub struct SpecMatchedArg {
    pub index: int,
    pub arg_type: ArgType,
    pub value: Seq<char>,
}

/// One resolved argument: its position in the argument list of the call, the
/// classification it was given, and its text.
#[derive(Clone, Debug, PartialEq, Eq)]
pub struct MatchedArg {
    pub index: usize,
    pub arg_type: ArgType,
    pub value: String,
}

impl View for MatchedArg {
    type V = SpecMatchedArg;

    open spec fn view(&self) -> SpecMatchedArg {
        SpecMatchedArg { index: self.index as int, arg_type: self.arg_type, value: self.value@ }
    }
}

impl DeepView for MatchedArg {
    type V = SpecMatchedArg;

    open spec fn deep_view(&self) -> SpecMatchedArg {
        self@
    }
}

impl MatchedArg {
    /// Records that the argument at `index` has text `value` and kind
    /// `arg_type`. No classification constrains the text, so this always
    /// succeeds.
    pub fn new(index: usize, arg_type: ArgType, value: &str) -> (made: Result<MatchedArg, Error>)
        ensures
            made is Ok,
            made->Ok_0@ == (SpecMatchedArg {
                index: index as int,
                arg_type,
                value: value@,
            }),
    {
        Ok(MatchedArg { index, arg_type, value: value.to_owned() })
    }
}

/// The mathematical value of a [`ValidExec`].
pub struct SpecValidExec {
    pub program: Seq<char>,
    pub matched_args: Seq<SpecMatchedArg>,
    pub candidate_paths: Seq<Seq<char>>,
}

/// An accepted invocation: the program, every argument resolved in argument
/// order, and the declared install locations of the program.
#[derive(Clone, Debug, PartialEq, Eq)]
pub struct ValidExec {
    pub program: String,
    pub matched_args: Vec<MatchedArg>,
    pub candidate_paths: Vec<String>,
}

impl View for ValidExec {
    type V = SpecValidExec;

    open spec fn view(&self) -> SpecValidExec {
        SpecValidExec {
            program: self.program@,
            matched_args: self.matched_args.deep_view(),
            candidate_paths: self.candidate_paths.deep_view(),
        }
    }
}

impl DeepView for ValidExec {
    type V = SpecValidExec;

    open spec fn deep_view(&self) -> SpecValidExec {
        self@
    }
}

impl ValidExec {
    /// Assembles an accepted invocation from its three parts.
    pub fn new(program: &str, matched_args: Vec<MatchedArg>, candidate_paths: &[&str]) -> (made:
        ValidExec)
        ensures
            made@ == (SpecValidExec {
                program: program@,
                matched_args: matched_args.deep_view(),
                candidate_paths: candidate_paths.deep_view(),
            }),
    {
        ValidExec {
            program: program.to_owned(),
            matched_args,
            candidate_paths: owned_strings(candidate_paths),
        }
    }
}

/// The mathematical value of a [`MatchedExec`].
pub enum SpecMatchedExec {
    Match { valid_exec: SpecValidExec },
}

/// The envelope of a successful check. A rejection is never an envelope
/// variant: it is reported as an [`Error`].
#[derive(Clone, Debug, PartialEq, Eq)]
pub enum MatchedExec {
    Match { valid_exec: ValidExec },
}

impl View for MatchedExec {
    type V = SpecMatchedExec;

    open spec fn view(&self) -> SpecMatchedExec {
        match self {
            MatchedExec::Match { valid_exec } => SpecMatchedExec::Match {
                valid_exec: valid_exec@,
            },
        }
    }
}

impl DeepView for MatchedExec {
    type V = SpecMatchedExec;

    open spec fn deep_view(&self) -> SpecMatchedExec {
        self@
    }
}

} // verus!
