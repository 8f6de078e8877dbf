use vstd::prelude::*;

verus! {

/// The semantic classification given to a matched argument value.
///
/// The classification is purely syntactic: it says what kind of thing an
/// argument is taken to be, not whether it exists on disk.
#[derive(Clone, Copy, Debug, PartialEq, Eq, Structural)]
pub enum ArgType {
    ReadableFile,
    WriteableFile,
    UntypedArg,
    Flag,
    Literal,
}

} // verus!
