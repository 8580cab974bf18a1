use vstd::prelude::*;

use std::sync::Arc;

use crate::error::MdmgError;
use crate::file::{parent_of, parent_of_spec};
use crate::scaffold::Scaffold;

verus! {

/// What the deleting executor needs from the file system; implementations
/// report each failure as the matching error with the path it concerns.
pub trait DeleteExecutorDeps {
    fn delete_file(&self, path: &str) -> (r: Result<(), MdmgError>)
        ensures
            r matches Err(e) ==> (e matches MdmgError::FailedDeleteFile(p) && p@ == path@),
    ;

    fn delete_directory(&self, path: &str) -> (r: Result<(), MdmgError>)
        ensures
            r matches Err(e) ==> (e matches MdmgError::FailedRemoveParentDirectory(p) && p@
                == path@),
    ;

    fn is_empty_directory(&self, directory_path: &str) -> bool;
}

/// Deletes the file that one scaffold directive produced.
pub trait DeleteExecutor {
    fn execute(&self, scaffold: &Scaffold) -> Result<(), MdmgError>;
}

/// Deletes a scaffold's file, and its parent directory too when the deletion
/// leaves that directory empty.
#[derive(Debug, Clone)]
pub struct FSDeleteExecutor<T: DeleteExecutorDeps> {
    pub deps: Arc<T>,
}

impl<T: DeleteExecutorDeps> FSDeleteExecutor<T> {
    pub fn new(deps: Arc<T>) -> (r: Self)
        ensures
            r == (FSDeleteExecutor { deps }),
    {
        FSDeleteExecutor { deps }
    }
}

impl<T: DeleteExecutorDeps> DeleteExecutor for FSDeleteExecutor<T> {
    fn execute(&self, scaffold: &Scaffold) -> (r: Result<(), MdmgError>)
        ensures
            r matches Err(e) ==> match e {
                MdmgError::FailedDeleteFile(p) => p@ == scaffold@.name(),
                MdmgError::ParentDirectoryIsNotFound(p) => p@ == scaffold@.name()
                    && parent_of_spec(scaffold@.name()) is None,
                MdmgError::FailedRemoveParentDirectory(p) => parent_of_spec(scaffold@.name())
                    == Option::Some(p@),
                _ => false,
            },
    {
        let file_name = match scaffold {
            Scaffold::Complete { file_name, file_body: _ } => file_name,
            Scaffold::Pending { file_name } => file_name,
        };

        match self.deps.delete_file(file_name.as_str()) {
            Ok(_) => (),
            Err(e) => {
                return Err(e);
            },
        }

        let parent_path = match parent_of(file_name.as_str()) {
            Option::Some(parent_path) => parent_path,
            Option::None => {
                return Err(MdmgError::ParentDirectoryIsNotFound(file_name.clone()));
            },
        };

        if self.deps.is_empty_directory(parent_path.as_str()) {
            match self.deps.delete_directory(parent_path.as_str()) {
                Ok(_) => (),
                Err(e) => {
                    return Err(e);
                },
            }
        }

        Ok(())
    }
}

} // verus!
