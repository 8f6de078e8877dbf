//! Execution policy engine: decides, before anything is spawned, whether a
//! requested command invocation matches the declared policy for its program.
//!
//! A [`Policy`] maps program names to [`ProgramPolicy`] values, each an
//! ordered pattern of [`ArgMatcher`]s and a list of install locations.
//! [`Policy::check`] takes an [`ExecCall`] and returns either the accepted
//! invocation, every argument classified by an [`ArgType`], or an
//! [`Error`] that says why the call was refused. The check is a pure
//! function of the table and the call: it reads no file and runs nothing.

pub mod arg_matcher;
pub mod arg_resolver;
pub mod arg_type;
pub mod default_policy;
pub mod error;
pub mod exec_call;
pub mod export_filter;
pub mod laws;
pub mod policy;
pub mod program;
mod text;
pub mod valid_exec;

pub use arg_matcher::ArgMatcher;
pub use arg_type::ArgType;
pub use default_policy::get_default_policy;
pub use error::Error;
pub use error::Result;
pub use exec_call::ExecCall;
pub use export_filter::tunacode_export_filter;
pub use policy::Policy;
pub use program::ProgramPolicy;
pub use valid_exec::MatchedArg;
pub use valid_exec::MatchedExec;
pub use valid_exec::ValidExec;
