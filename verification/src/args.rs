use vstd::prelude::*;

verus! {

/// What the command line asks for.
#[derive(Debug, PartialEq, Eq)]
pub struct AppArgs {
    /// Path of the script that declares the links and settings.
    pub config: String,
    /// Update only: nothing that exists is overwritten, whatever a link's `force` says.
    pub update: bool,
}

impl Clone for AppArgs {
    fn clone(&self) -> (copy: AppArgs)
        ensures
            copy.config@ == self.config@,
            copy.update == self.update,
    {
        AppArgs { config: self.config.clone(), update: self.update }
    }
}

} // verus!
