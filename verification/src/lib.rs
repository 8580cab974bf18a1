//! A scaffold-generation library: a named template is rendered with an
//! `identify` value, the resulting markdown is parsed into an ordered
//! sequence of file-producing directives, and those directives are generated,
//! previewed, deleted, or renamed across four casing conventions.
//!
//! The parsing, classification and case-replacement logic is verified; file
//! system access, terminal output and the process environment reach the
//! library only through traits and plain values that a calling program
//! provides.

pub mod case;
pub mod commands;
pub mod delete_executor;
pub mod error;
pub mod file;
pub mod generated_file_repository;
pub mod logger;
pub mod markdown;
pub mod opts;
pub mod output;
pub mod rename_executor;
pub mod replace;
pub mod scaffold;
pub mod scaffold_executor;
pub mod template;
pub mod template_repository;
pub mod text;

use vstd::prelude::*;

use crate::commands::delete::DeleteCommand;
use crate::commands::generate::GenerateCommand;
use crate::commands::list::ListCommand;
use crate::commands::rename::RenameCommand;
use crate::commands::setup::SetupCommand;
use crate::error::MdmgError;
use crate::opts::Mdmg;

verus! {

/// Dispatches one parsed command line to the command that carries it out.
pub fn run<G: GenerateCommand, L: ListCommand, S: SetupCommand, D: DeleteCommand, R: RenameCommand>(
    opts: Mdmg,
    generate_command: G,
    list_command: L,
    setup_command: S,
    delete_command: D,
    rename_command: R,
) -> Result<(), MdmgError> {
    match opts {
        Mdmg::Generate { template_name, identify, dry_run } => generate_command.run(
            template_name,
            identify,
            dry_run,
        ),
        Mdmg::List {  } => list_command.run(),
        Mdmg::Setup {  } => setup_command.run(),
        Mdmg::Delete { template_name, identify } => delete_command.run(template_name, identify),
        Mdmg::Rename { template_name, identify, replaced_identify } => rename_command.run(
            template_name.as_str(),
            identify.as_str(),
            replaced_identify.as_str(),
        ),
    }
}

} // verus!
