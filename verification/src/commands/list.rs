use vstd::prelude::*;

use crate::error::MdmgError;
use crate::logger::Logger;
use crate::template_repository::TemplateRepository;

verus! {

/// Prints the names of every available template.
pub trait ListCommand {
    fn run(&self) -> Result<(), MdmgError>;
}

/// What the list command draws on: a template source and a logger.
pub trait Dependencies {
    type Repo: TemplateRepository;

    type Log: Logger;

    fn template_repository(&self) -> &Self::Repo;

    fn logger(&self) -> &Self::Log;
}

pub struct ListCommandImpl<T: TemplateRepository, L: Logger> {
    pub logger_instance: L,
    pub template_repository_instance: T,
}

impl<T: TemplateRepository, L: Logger> ListCommandImpl<T, L> {
    pub fn new(template_repository_instance: T, logger_instance: L) -> (r: Self)
        ensures
            r == (ListCommandImpl { logger_instance, template_repository_instance }),
    {
        ListCommandImpl { logger_instance, template_repository_instance }
    }
}

impl<T: TemplateRepository, L: Logger> Dependencies for ListCommandImpl<T, L> {
    type Repo = T;

    type Log = L;

    fn template_repository(&self) -> &T {
        &self.template_repository_instance
    }

    fn logger(&self) -> &L {
        &self.logger_instance
    }
}

impl<T: TemplateRepository, L: Logger> ListCommand for ListCommandImpl<T, L> {
    fn run(&self) -> (r: Result<(), MdmgError>)
        ensures
            r matches Err(e) ==> e is IoError,
    {
        let template_list = match self.template_repository().list() {
            Ok(template_list) => template_list,
            Err(e) => {
                return Err(e);
            },
        };
        let mut index: usize = 0;
        while index < template_list.len()
            decreases template_list@.len() - index,
        {
            self.logger().info(template_list[index].0.as_str());
            index = index + 1;
        }
        Ok(())
    }
}

} // verus!
