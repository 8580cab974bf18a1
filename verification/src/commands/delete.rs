use vstd::prelude::*;

use crate::delete_executor::DeleteExecutor;
use crate::error::MdmgError;
use crate::logger::Logger;
use crate::markdown::parse;
use crate::template::{render, MdmgCtx};
use crate::template_repository::TemplateRepository;

verus! {

/// Renders a template and deletes every file its scaffolds produced, best
/// effort: one scaffold's failure is reported and the rest are still tried,
/// so a delete failure never decides the command's outcome.
pub trait DeleteCommand {
    fn run(&self, plan_name: String, component_name: String) -> Result<(), MdmgError>;
}

pub struct DeleteCommandImpl<T: TemplateRepository, D: DeleteExecutor, L: Logger> {
    pub template_repository_ref: T,
    pub delete_executor_ref: D,
    pub logger: L,
    pub env: Vec<(String, String)>,
}

impl<T: TemplateRepository, D: DeleteExecutor, L: Logger> DeleteCommandImpl<T, D, L> {
    pub fn new(template_repository_ref: T, delete_executor_ref: D, logger: L, env: Vec<
        (String, String),
    >) -> (r: Self)
        ensures
            r == (DeleteCommandImpl { template_repository_ref, delete_executor_ref, logger, env }),
    {
        DeleteCommandImpl { template_repository_ref, delete_executor_ref, logger, env }
    }
}

impl<T: TemplateRepository, D: DeleteExecutor, L: Logger> DeleteCommand for DeleteCommandImpl<
    T,
    D,
    L,
> {
    fn run(&self, plan_name: String, component_name: String) -> (r: Result<(), MdmgError>)
        ensures
            r matches Err(e) ==> (e is TemplateIsNotFound || e matches
                MdmgError::TempalteRenderError { reason: _ }),
    {
        let template = match self.template_repository_ref.resolve(plan_name) {
            Ok(template) => template,
            Err(e) => {
                return Err(e);
            },
        };
        let render_ctx = MdmgCtx::new(component_name.as_str());
        let rendered = match render(template, &render_ctx, &self.env) {
            Ok(rendered) => rendered,
            Err(e) => {
                return Err(e);
            },
        };
        let scaffolds = match parse(rendered.as_str()) {
            Ok(scaffolds) => scaffolds,
            Err(e) => {
                return Err(e);
            },
        };
        let mut index: usize = 0;
        while index < scaffolds.len()
            decreases scaffolds@.len() - index,
        {
            match self.delete_executor_ref.execute(&scaffolds[index]) {
                Ok(_) => (),
                Err(e) => {
                    let message = e.message();
                    self.logger.info(message.as_str());
                },
            }
            index = index + 1;
        }
        Ok(())
    }
}

} // verus!
