use vstd::prelude::*;

verus! {

/// Where user-visible messages go; implementations decide the medium.
pub trait Logger {
    fn info(&self, info: &str);

    fn debug(&self, log: &str);
}

} // verus!
