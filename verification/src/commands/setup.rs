use vstd::prelude::*;

use crate::error::MdmgError;

verus! {

/// Provisions the local template directory once.
pub trait SetupCommand {
    fn run(&self) -> Result<(), MdmgError>;
}

/// What the setup command needs from its surroundings; failures of the
/// directory creation are reported as `IoError`.
pub trait SetupCommandDeps {
    fn setup_dir_exists(&self) -> bool;

    fn create_setup_dir(&self) -> (r: Result<(), MdmgError>)
        ensures
            r matches Err(e) ==> e is IoError,
    ;

    fn notify_already_setup(&self);

    fn notify_complete(&self);
}

pub struct SetupCommandImpl<D: SetupCommandDeps> {
    pub deps: D,
}

impl<D: SetupCommandDeps> SetupCommandImpl<D> {
    pub fn new(deps: D) -> (r: Self)
        ensures
            r == (SetupCommandImpl { deps }),
    {
        SetupCommandImpl { deps }
    }
}

impl<D: SetupCommandDeps> SetupCommand for SetupCommandImpl<D> {
    fn run(&self) -> (r: Result<(), MdmgError>)
        ensures
            r matches Err(e) ==> e is IoError,
    {
        if self.deps.setup_dir_exists() {
            self.deps.notify_already_setup();
            return Ok(());
        }
        match self.deps.create_setup_dir() {
            Ok(_) => (),
            Err(e) => {
                return Err(e);
            },
        }
        self.deps.notify_complete();
        Ok(())
    }
}

} // verus!
