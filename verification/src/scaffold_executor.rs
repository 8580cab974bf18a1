use vstd::prelude::*;

use crate::error::MdmgError;
use crate::file::parent_of;
use crate::logger::Logger;
use crate::scaffold::Scaffold;

verus! {

/// Applies one scaffold directive to a target.
pub trait ScaffoldExecutor {
    fn execute(self, scaffold: &Scaffold) -> Result<(), MdmgError>;
}

/// What the generating executor needs from the file system; implementations
/// report failures as `IoError` with the underlying reason.
pub trait ScaffoldExecutorDeps {
    fn file_exists(&self, path: &str) -> bool;

    fn create_dir_all(&self, path: &str) -> (r: Result<(), MdmgError>)
        ensures
            r matches Err(e) ==> e is IoError,
    ;

    fn write_file(&self, path: &str, body: &str) -> (r: Result<(), MdmgError>)
        ensures
            r matches Err(e) ==> e is IoError,
    ;

    fn notify_skipped(&self, path: &str);

    fn notify_generated(&self, path: &str);
}

/// Writes each `Complete` scaffold to the file system, skipping files that
/// already exist; `Pending` scaffolds are silently ignored.
#[derive(Clone, Debug, Copy)]
pub struct FSScaffoldExecutor<D: ScaffoldExecutorDeps> {
    pub deps: D,
}

/// Prints a preview of each `Complete` scaffold instead of touching the file
/// system; `Pending` scaffolds are silently ignored.
#[derive(Clone, Debug, Copy)]
pub struct DryRunScaffoldExecutor<L: Logger> {
    pub logger: L,
}

impl<D: ScaffoldExecutorDeps> FSScaffoldExecutor<D> {
    pub fn new(deps: D) -> (r: Self)
        ensures
            r == (FSScaffoldExecutor { deps }),
    {
        FSScaffoldExecutor { deps }
    }
}

impl<L: Logger> DryRunScaffoldExecutor<L> {
    pub fn new(logger: L) -> (r: Self)
        ensures
            r == (DryRunScaffoldExecutor { logger }),
    {
        DryRunScaffoldExecutor { logger }
    }
}

impl<L: Logger> ScaffoldExecutor for DryRunScaffoldExecutor<L> {
    fn execute(self, scaffold: &Scaffold) -> (r: Result<(), MdmgError>)
        ensures
            r is Ok,
    {
        match scaffold {
            Scaffold::Complete { file_name, file_body } => {
                let banner = String::from_str("=== filename: ").concat(file_name.as_str()).concat(
                    " ===",
                );
                self.logger.info(banner.as_str());
                self.logger.info(file_body.as_str());
                self.logger.info("====================");
            },
            Scaffold::Pending { file_name: _ } => {},
        }
        Ok(())
    }
}

impl<D: ScaffoldExecutorDeps> ScaffoldExecutor for FSScaffoldExecutor<D> {
    fn execute(self, scaffold: &Scaffold) -> (r: Result<(), MdmgError>)
        ensures
            scaffold@ is Pending ==> r is Ok,
            r matches Err(e) ==> e is IoError && scaffold@ is Complete,
    {
        match scaffold {
            Scaffold::Complete { file_name, file_body } => {
                if self.deps.file_exists(file_name.as_str()) {
                    self.deps.notify_skipped(file_name.as_str());
                    return Ok(());
                }
                match parent_of(file_name.as_str()) {
                    Option::Some(parent_path) => {
                        match self.deps.create_dir_all(parent_path.as_str()) {
                            Ok(_) => (),
                            Err(e) => {
                                return Err(e);
                            },
                        }
                    },
                    Option::None => {},
                }
                match self.deps.write_file(file_name.as_str(), file_body.as_str()) {
                    Ok(_) => (),
                    Err(e) => {
                        return Err(e);
                    },
                }
                self.deps.notify_generated(file_name.as_str());
                Ok(())
            },
            Scaffold::Pending { file_name: _ } => Ok(()),
        }
    }
}

} // verus!
