use vstd::prelude::*;

use crate::error::MdmgError;
use crate::logger::Logger;
use crate::markdown::parse;
use crate::scaffold_executor::{
    DryRunScaffoldExecutor, FSScaffoldExecutor, ScaffoldExecutor, ScaffoldExecutorDeps,
};
use crate::template::{render, MdmgCtx};
use crate::template_repository::TemplateRepository;

verus! {

/// Renders a template and materialises every scaffold it describes.
pub trait GenerateCommand {
    fn run(&self, plan_name: String, component_name: String, dry_run: bool) -> Result<
        (),
        MdmgError,
    >;
}

pub struct GenerateCommandImpl<
    T: TemplateRepository,
    D: ScaffoldExecutorDeps + Clone,
    L: Logger + Clone,
> {
    pub template_repository: T,
    pub scaffold_deps: D,
    pub logger: L,
    pub env: Vec<(String, String)>,
}

impl<T: TemplateRepository, D: ScaffoldExecutorDeps + Clone, L: Logger + Clone> GenerateCommandImpl<
    T,
    D,
    L,
> {
    pub fn new(template_repository: T, scaffold_deps: D, logger: L, env: Vec<(String, String)>) -> (r:
        Self)
        ensures
            r == (GenerateCommandImpl { template_repository, scaffold_deps, logger, env }),
    {
        GenerateCommandImpl { template_repository, scaffold_deps, logger, env }
    }
}

impl<
    T: TemplateRepository,
    D: ScaffoldExecutorDeps + Clone,
    L: Logger + Clone,
> GenerateCommand for GenerateCommandImpl<T, D, L> {
    fn run(&self, plan_name: String, component_name: String, dry_run: bool) -> (r: Result<
        (),
        MdmgError,
    >)
        ensures
            r matches Err(e) ==> (e is TemplateIsNotFound || e matches
                MdmgError::TempalteRenderError { reason: _ } || e is IoError),
            dry_run ==> (r matches Err(e) ==> (e is TemplateIsNotFound || e matches
                MdmgError::TempalteRenderError { reason: _ })),
    {
        let template = match self.template_repository.resolve(plan_name) {
            Ok(template) => template,
            Err(e) => {
                return Err(e);
            },
        };
        let render_ctx = MdmgCtx::new(component_name.as_str());
        let rendered = match render(template, &render_ctx, &self.env) {
            Ok(rendered) => rendered,
            Err(e) => {
                return Err(e);
            },
        };
        if let Ok(scaffolds) = parse(rendered.as_str()) {
            let mut index: usize = 0;
            while index < scaffolds.len()
                decreases scaffolds@.len() - index,
            {
                let outcome = if dry_run {
                    DryRunScaffoldExecutor::new(self.logger.clone()).execute(&scaffolds[index])
                } else {
                    FSScaffoldExecutor::new(self.scaffold_deps.clone()).execute(&scaffolds[index])
                };
                match outcome {
                    Ok(_) => (),
                    Err(e) => {
                        return Err(e);
                    },
                }
                index = index + 1;
            }
        }
        Ok(())
    }
}

} // verus!
