use vstd::prelude::*;

use crate::arg_matcher::ArgMatcher;
use crate::arg_matcher::SpecArgMatcher;

verus! {

/// The mathematical value of an [`Error`].
pub enum SpecError {
    UnknownProgram { program: Seq<char> },
    NotEnoughArgs { program: Seq<char>, args: Seq<Seq<char>>, arg_patterns: Seq<SpecArgMatcher> },
    TooManyArgs { program: Seq<char>, args: Seq<Seq<char>>, arg_patterns: Seq<SpecArgMatcher> },
    VarargMatcherDidNotMatchAnything { program: Seq<char>, matcher: SpecArgMatcher },
    LiteralMismatch { program: Seq<char>, index: int, expected: Seq<char>, actual: Seq<char> },
    FlagMismatch { program: Seq<char>, index: int, expected: Seq<char>, actual: Seq<char> },
    MultipleVarargPatterns { program: Seq<char>, first: SpecArgMatcher, second: SpecArgMatcher },
    NoExecutablePaths { program: Seq<char> },
    DuplicateProgram { program: Seq<char> },
}

/// Every way a check, or the construction of a policy, can be refused.
///
/// Each value keeps enough of the request to reproduce the refusal.
#[derive(Clone, Debug, PartialEq, Eq)]
pub enum Error {
    /// The policy table has no entry for the program.
    UnknownProgram { program: String },
    /// Fewer arguments than the fixed matchers of the pattern need.
    NotEnoughArgs { program: String, args: Vec<String>, arg_patterns: Vec<ArgMatcher> },
    /// More arguments than a pattern without a vararg matcher takes.
    TooManyArgs { program: String, args: Vec<String>, arg_patterns: Vec<ArgMatcher> },
    /// The fixed matchers took every argument and left the vararg matcher
    /// with none.
    VarargMatcherDidNotMatchAnything { program: String, matcher: ArgMatcher },
    /// The argument at `index` differs from the literal text it must equal.
    LiteralMismatch { program: String, index: usize, expected: String, actual: String },
    /// The argument at `index` differs from the flag token it must equal.
    FlagMismatch { program: String, index: usize, expected: String, actual: String },
    /// A pattern declares more than one vararg matcher.
    MultipleVarargPatterns { program: String, first: ArgMatcher, second: ArgMatcher },
    /// A program policy declares no install location.
    NoExecutablePaths { program: String },
    /// Two program policies of one table carry the same program name.
    DuplicateProgram { program: String },
}

impl View for Error {
    type V = SpecError;

    open spec fn view(&self) -> SpecError {
        match self {
            Error::UnknownProgram { program } => SpecError::UnknownProgram { program: program@ },
            Error::NotEnoughArgs { program, args, arg_patterns } => SpecError::NotEnoughArgs {
                program: program@,
                args: args.deep_view(),
                arg_patterns: arg_patterns.deep_view(),
            },
            Error::TooManyArgs { program, args, arg_patterns } => SpecError::TooManyArgs {
                program: program@,
                args: args.deep_view(),
                arg_patterns: arg_patterns.deep_view(),
            },
            Error::VarargMatcherDidNotMatchAnything { program, matcher } => {
                SpecError::VarargMatcherDidNotMatchAnything {
                    program: program@,
                    matcher: matcher@,
                }
            },
            Error::LiteralMismatch { program, index, expected, actual } => {
                SpecError::LiteralMismatch {
                    program: program@,
                    index: *index as int,
                    expected: expected@,
                    actual: actual@,
                }
            },
            Error::FlagMismatch { program, index, expected, actual } => SpecError::FlagMismatch {
                program: program@,
                index: *index as int,
                expected: expected@,
                actual: actual@,
            },
            Error::MultipleVarargPatterns { program, first, second } => {
                SpecError::MultipleVarargPatterns {
                    program: program@,
                    first: first@,
                    second: second@,
                }
            },
            Error::NoExecutablePaths { program } => SpecError::NoExecutablePaths {
                program: program@,
            },
            Error::DuplicateProgram { program } => SpecError::DuplicateProgram {
                program: program@,
            },
        }
    }
}

impl DeepView for Error {
    type V = SpecError;

    open spec fn deep_view(&self) -> SpecError {
        self@
    }
}

/// The result of every fallible operation of this crate.
pub type Result<T> = std::result::Result<T, Error>;

/// The mathematical value of a result: that of the value it holds, on
/// either side.
pub open spec fn outcome_view<T: View, E: View>(outcome: core::result::Result<T, E>)
    -> core::result::Result<T::V, E::V> {
    match outcome {
        Ok(value) => Ok(value@),
        Err(refusal) => Err(refusal@),
    }
}

} // verus!
