use vstd::prelude::*;

use crate::error::MdmgError;

verus! {

/// Reads back the content of a previously generated file.
pub trait GeneratedFileRepository {
    fn resolve(&self, file_name: &str) -> Result<String, MdmgError>;
}

} // verus!
