use vstd::prelude::*;

use crate::arg_type::ArgType;

verus! {

/// The mathematical value of an [`ArgMatcher`]: the same variants, with the
/// text of a literal or flag as a sequence of characters.
pub enum SpecArgMatcher {
    Literal(Seq<char>),
    Flag(Seq<char>),
    ReadableFile,
    WriteableFile,
    UntypedArg,
    ReadableFiles,
    WriteableFiles,
    UntypedArgs,
}

impl SpecArgMatcher {
    /// A vararg matcher consumes one or more contiguous arguments; every
    /// other matcher consumes exactly one.
    pub open spec fn is_vararg(self) -> bool {
        self is ReadableFiles || self is WriteableFiles || self is UntypedArgs
    }

    /// The classification given to each argument this matcher consumes.
    pub open spec fn arg_type(self) -> ArgType {
        match self {
            SpecArgMatcher::Literal(_) => ArgType::Literal,
            SpecArgMatcher::Flag(_) => ArgType::Flag,
            SpecArgMatcher::ReadableFile | SpecArgMatcher::ReadableFiles => ArgType::ReadableFile,
            SpecArgMatcher::WriteableFile | SpecArgMatcher::WriteableFiles => {
                ArgType::WriteableFile
            },
            SpecArgMatcher::UntypedArg | SpecArgMatcher::UntypedArgs => ArgType::UntypedArg,
        }
    }

    /// Whether a single argument satisfies this matcher.
    ///
    /// A literal or a flag demands exact equality with its text; every other
    /// matcher takes any string.
    pub open spec fn accepts(self, arg: Seq<char>) -> bool {
        match self {
            SpecArgMatcher::Literal(text) => arg == text,
            SpecArgMatcher::Flag(name) => arg == name,
            _ => true,
        }
    }
}

/// A declarative rule describing what one argument, or one contiguous run of
/// arguments, must look like.
#[derive(Debug, PartialEq, Eq)]
pub enum ArgMatcher {
    /// Exactly one argument, equal to the given text.
    Literal(String),
    /// Exactly one argument, equal to the given flag token.
    Flag(String),
    /// Exactly one argument, taken to name a file that is read.
    ReadableFile,
    /// Exactly one argument, taken to name a file that is written.
    WriteableFile,
    /// Exactly one argument of no particular kind.
    UntypedArg,
    /// One or more arguments, each taken to name a file that is read.
    ReadableFiles,
    /// One or more arguments, each taken to name a file that is written.
    WriteableFiles,
    /// One or more arguments of no particular kind.
    UntypedArgs,
}

impl View for ArgMatcher {
    type V = SpecArgMatcher;

    open spec fn view(&self) -> SpecArgMatcher {
        match self {
            ArgMatcher::Literal(text) => SpecArgMatcher::Literal(text@),
            ArgMatcher::Flag(name) => SpecArgMatcher::Flag(name@),
            ArgMatcher::ReadableFile => SpecArgMatcher::ReadableFile,
            ArgMatcher::WriteableFile => SpecArgMatcher::WriteableFile,
            ArgMatcher::UntypedArg => SpecArgMatcher::UntypedArg,
            ArgMatcher::ReadableFiles => SpecArgMatcher::ReadableFiles,
            ArgMatcher::WriteableFiles => SpecArgMatcher::WriteableFiles,
            ArgMatcher::UntypedArgs => SpecArgMatcher::UntypedArgs,
        }
    }
}

impl DeepView for ArgMatcher {
    type V = SpecArgMatcher;

    open spec fn deep_view(&self) -> SpecArgMatcher {
        self@
    }
}

impl Clone for ArgMatcher {
    fn clone(&self) -> (copy: Self)
        ensures
            copy@ == self@,
    {
        match self {
            ArgMatcher::Literal(text) => ArgMatcher::Literal(text.clone()),
            ArgMatcher::Flag(name) => ArgMatcher::Flag(name.clone()),
            ArgMatcher::ReadableFile => ArgMatcher::ReadableFile,
            ArgMatcher::WriteableFile => ArgMatcher::WriteableFile,
            ArgMatcher::UntypedArg => ArgMatcher::UntypedArg,
            ArgMatcher::ReadableFiles => ArgMatcher::ReadableFiles,
            ArgMatcher::WriteableFiles => ArgMatcher::WriteableFiles,
            ArgMatcher::UntypedArgs => ArgMatcher::UntypedArgs,
        }
    }
}

impl ArgMatcher {
    /// Whether this matcher consumes a run of arguments rather than one.
    pub fn is_vararg(&self) -> (yes: bool)
        ensures
            yes == self@.is_vararg(),
    {
        match self {
            ArgMatcher::ReadableFiles | ArgMatcher::WriteableFiles | ArgMatcher::UntypedArgs => {
                true
            },
            _ => false,
        }
    }

    /// The classification given to each argument this matcher consumes.
    pub fn arg_type(&self) -> (kind: ArgType)
        ensures
            kind == self@.arg_type(),
    {
        match self {
            ArgMatcher::Literal(_) => ArgType::Literal,
            ArgMatcher::Flag(_) => ArgType::Flag,
            ArgMatcher::ReadableFile | ArgMatcher::ReadableFiles => ArgType::ReadableFile,
            ArgMatcher::WriteableFile | ArgMatcher::WriteableFiles => ArgType::WriteableFile,
            ArgMatcher::UntypedArg | ArgMatcher::UntypedArgs => ArgType::UntypedArg,
        }
    }

    /// Evaluates this matcher against one argument: the classification to
    /// assign when the argument matches, `None` when it does not.
    pub fn evaluate(&self, arg: &String) -> (verdict: Option<ArgType>)
        ensures
            verdict == if self@.accepts(arg@) {
                Some(self@.arg_type())
            } else {
                None
            },
    {
        match self {
            ArgMatcher::Literal(text) => if *arg == *text {
                Some(ArgType::Literal)
            } else {
                None
            },
            ArgMatcher::Flag(name) => if *arg == *name {
                Some(ArgType::Flag)
            } else {
                None
            },
            _ => Some(self.arg_type()),
        }
    }
}

} // verus!
