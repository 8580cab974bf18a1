use vstd::prelude::*;

verus! {

/// The command surface: one variant per operation the tool offers.
#[derive(Debug, Clone, PartialEq, Eq)]
pub enum Mdmg {
    Generate { template_name: String, identify: String, dry_run: bool },
    List {},
    Setup {},
    Delete { template_name: String, identify: String },
    Rename { template_name: String, identify: String, replaced_identify: String },
}

} // verus!
