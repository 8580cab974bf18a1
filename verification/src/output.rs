use vstd::prelude::*;

use crate::error::MdmgError;

verus! {

/// A sink that materialises one named file.
pub trait Output {
    fn create_file(&self, name: &str, output_file: &str) -> Result<(), MdmgError>;
}

} // verus!
