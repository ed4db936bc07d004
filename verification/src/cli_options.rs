//! The options that the command line of the program configures.

use crate::verbosity::Verbosity;
use vstd::prelude::*;

verus! {

/// The configured command line options.
#[derive(Clone, Copy, Debug, PartialEq, Eq, Structural)]
pub struct CliOptions {
    license: bool,
    verbosity: Verbosity,
}

impl CliOptions {
    /// Whether the license information is asked for.
    pub closed spec fn wants_license(self) -> bool {
        self.license
    }

    /// The verbosity level that was chosen for the run.
    pub closed spec fn chosen_verbosity(self) -> Verbosity {
        self.verbosity
    }

    /// The options as they were read from the command line.
    pub fn new(license: bool, verbosity: Verbosity) -> (options: CliOptions)
        ensures
            options.wants_license() == license,
            options.chosen_verbosity() == verbosity,
    {
        CliOptions { license, verbosity }
    }

    /// Retrieve the license information mode.
    #[must_use]
    pub fn license(&self) -> (license: bool)
        ensures
            license == self.wants_license(),
    {
        self.license
    }

    /// Retrieve the verbosity level.
    #[must_use]
    pub fn verbosity(&self) -> (verbosity: Verbosity)
        ensures
            verbosity == self.chosen_verbosity(),
    {
        self.verbosity
    }
}

impl Default for CliOptions {
    /// The options of a command line without arguments: a run at verbosity
    /// `Monosyllabic`, no license information.
    fn default() -> (options: CliOptions)
        ensures
            !options.wants_license(),
            options.chosen_verbosity() == Verbosity::Monosyllabic,
    {
        CliOptions { license: false, verbosity: Verbosity::Monosyllabic }
    }
}

} // verus!
