use vstd::prelude::*;

use crate::error::MdmgError;
use crate::logger::Logger;
use crate::markdown::parse;
use crate::rename_executor::RenameExecutor;
use crate::template::{render, MdmgCtx};
use crate::template_repository::TemplateRepository;

verus! {

/// Renders a template and rewrites the files its scaffolds produced for a new
/// identifier; the whole batch is aborted at the first failure.
pub trait RenameCommand {
    fn run(&self, plan_name: &str, identify: &str, replaced_identify: &str) -> Result<
        (),
        MdmgError,
    >;
}

pub struct RenameCommandImpl<T: TemplateRepository, L: Logger, R: RenameExecutor> {
    pub template_repository_instance: T,
    pub logger_instance: L,
    pub rename_executor_instance: R,
    pub env: Vec<(String, String)>,
}

impl<T: TemplateRepository, L: Logger, R: RenameExecutor> RenameCommandImpl<T, L, R> {
    pub fn new(
        template_repository_instance: T,
        logger_instance: L,
        rename_executor_instance: R,
        env: Vec<(String, String)>,
    ) -> (r: Self)
        ensures
            r == (RenameCommandImpl {
                template_repository_instance,
                logger_instance,
                rename_executor_instance,
                env,
            }),
    {
        RenameCommandImpl {
            template_repository_instance,
            logger_instance,
            rename_executor_instance,
            env,
        }
    }
}

impl<T: TemplateRepository, L: Logger, R: RenameExecutor> RenameCommand for RenameCommandImpl<
    T,
    L,
    R,
> {
    fn run(&self, plan_name: &str, identify: &str, replaced_identify: &str) -> Result<
        (),
        MdmgError,
    > {
        let template = match self.template_repository_instance.resolve(
            String::from_str(plan_name),
        ) {
            Ok(template) => template,
            Err(e) => {
                return Err(e);
            },
        };
        let render_ctx = MdmgCtx::new(identify);
        let rendered = match render(template, &render_ctx, &self.env) {
            Ok(rendered) => rendered,
            Err(e) => {
                return Err(e);
            },
        };
        let scaffolds = match parse(rendered.as_str()) {
            Ok(scaffolds) => scaffolds,
            Err(_) => {
                return Ok(());
            },
        };
        self.rename_executor_instance.execute(&scaffolds, identify, replaced_identify)
    }
}

} // verus!
