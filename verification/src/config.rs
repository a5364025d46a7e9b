//! Run-wide configuration, constructed once from the command line and passed
//! by value into every component that reports progress.
use vstd::prelude::*;

verus! {

/// How much progress output the pipeline emits. `invisible` suppresses the
/// per-file progress display; it never alters cryptographic or protocol
/// behaviour.
#[derive(Clone, Copy, Debug, PartialEq, Eq, Structural)]
pub struct Config {
    pub invisible: bool,
}

/// Builds the configuration from the verbosity choice: progress output is
/// shown exactly when `verbose` is set.
pub fn get_config(verbose: bool) -> (c: Config)
    ensures
        c.invisible == !verbose,
{
    Config { invisible: !verbose }
}

} // verus!
