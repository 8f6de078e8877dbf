use vstd::prelude::*;

use crate::text::owned_strings;

verus! {

/// The mathematical value of an [`ExecCall`].
pub struct SpecExecCall {
    pub program: Seq<char>,
    pub args: Seq<Seq<char>>,
}

/// A requested program and its argument list, awaiting validation.
///
/// A call is a plain value: it has no identity beyond its two fields.
#[derive(Clone, Debug, PartialEq, Eq)]
pub struct ExecCall {
    pub program: String,
    pub args: Vec<String>,
}

impl View for ExecCall {
    type V = SpecExecCall;

    open spec fn view(&self) -> SpecExecCall {
        SpecExecCall { program: self.program@, args: self.args.deep_view() }
    }
}

impl DeepView for ExecCall {
    type V = SpecExecCall;

    open spec fn deep_view(&self) -> SpecExecCall {
        self@
    }
}

impl ExecCall {
    /// Builds the call of `program` with `args`, in the order given.
    pub fn new(program: &str, args: &[&str]) -> (call: ExecCall)
        ensures
            call@.program == program@,
            call@.args == args.deep_view(),
    {
        ExecCall { program: program.to_owned(), args: owned_strings(args) }
    }
}

} // verus!
