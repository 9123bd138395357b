use vstd::prelude::*;

verus! {

/// How chatty the tool is. Quiet mode silences everything but errors and
/// the data a command exists to print, and it overrides verbose mode.
#[derive(Debug, Clone, Copy, PartialEq, Eq, Structural)]
pub struct OutputConfig {
    pub verbose: bool,
    pub quiet: bool,
}

impl OutputConfig {
    /// The settings for the two flags; quiet wins over verbose.
    pub fn new(verbose: bool, quiet: bool) -> (r: OutputConfig)
        ensures
            r.quiet == quiet,
            r.verbose == (verbose && !quiet),
    {
        OutputConfig { verbose: if quiet { false } else { verbose }, quiet }
    }

    /// Whether verbose messages are shown.
    pub fn shows_verbose(&self) -> (r: bool)
        ensures
            r == (self.verbose && !self.quiet),
    {
        self.verbose && !self.quiet
    }

    /// Whether informational, success and warning messages are shown.
    pub fn shows_info(&self) -> (r: bool)
        ensures
            r == !self.quiet,
    {
        !self.quiet
    }
}

} // verus!
