use vstd::prelude::*;
use crate::strategy::{WriteStrategy, resolve_strategy, strategy_of};

verus! {

/// A parsed command line: one command and the global flags.
#[derive(Debug, Clone)]
pub struct Cli {
    pub command: Commands,
    pub force: bool,
    pub verbose: bool,
    pub quiet: bool,
}

/// The commands the tool offers.
#[derive(Debug, Clone)]
pub enum Commands {
    Add(AddArgs),
    Apply(ApplyArgs),
    List,
    Remove(RemoveArgs),
    Show(ShowArgs),
    Edit(EditArgs),
    Path(PathArgs),
}

/// Arguments of `add`: the new template's name and the file it is taken from.
#[derive(Debug, Clone)]
pub struct AddArgs {
    pub name: String,
    pub source_file_path: String,
}

/// Arguments of `apply`: the template, the destination and at most one merge flag.
#[derive(Debug, Clone)]
pub struct ApplyArgs {
    pub template_name: String,
    pub destination_file_path: String,
    pub overwrite: bool,
    pub append: bool,
    pub prepend: bool,
}

impl ApplyArgs {
    /// The write strategy these flags select, given the global `force` flag.
    pub fn strategy(&self, force: bool) -> (r: WriteStrategy)
        ensures
            r == strategy_of(self.overwrite, self.append, self.prepend, force),
    {
        resolve_strategy(self.overwrite, self.append, self.prepend, force)
    }
}

/// Arguments of `remove`.
#[derive(Debug, Clone)]
pub struct RemoveArgs {
    pub template_name: String,
}

/// Arguments of `show`.
#[derive(Debug, Clone)]
pub struct ShowArgs {
    pub template_name: String,
}

/// Arguments of `edit`.
#[derive(Debug, Clone)]
pub struct EditArgs {
    pub template_name: String,
}

/// Arguments of `path`.
#[derive(Debug, Clone)]
pub struct PathArgs {
    pub template_name: String,
}

} // verus!
