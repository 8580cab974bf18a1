use std::cell::Cell;
use std::cell::RefCell;
use std::sync::Arc;

use mdmg::delete_executor::{DeleteExecutor, DeleteExecutorDeps, FSDeleteExecutor};
use mdmg::error::MdmgError;
use mdmg::logger::Logger;
use mdmg::scaffold::Scaffold;
use mdmg::scaffold_executor::{
    DryRunScaffoldExecutor, FSScaffoldExecutor, ScaffoldExecutor, ScaffoldExecutorDeps,
};

#[derive(Default)]
struct StubDeleteExecutorDeps {
    pub deleted_file_path: Cell<Option<String>>,
    pub deleted_directory_path: Cell<Option<String>>,
    pub empty_directory: bool,
    pub fail_delete_file: bool,
    pub fail_delete_directory: bool,
}

impl DeleteExecutorDeps for StubDeleteExecutorDeps {
    fn delete_file(&self, path: &str) -> Result<(), MdmgError> {
        if self.fail_delete_file {
            return Err(MdmgError::FailedDeleteFile(path.to_string()));
        }
        self.deleted_file_path.replace(Some(path.to_string()));
        Ok(())
    }
    fn delete_directory(&self, path: &str) -> Result<(), MdmgError> {
        if self.fail_delete_directory {
            return Err(MdmgError::FailedRemoveParentDirectory(path.to_string()));
        }
        self.deleted_directory_path.replace(Some(path.to_string()));
        Ok(())
    }
    fn is_empty_directory(&self, _directory_path: &str) -> bool {
        self.empty_directory
    }
}

#[test]
fn delete_only_file_when_pending_scaffold_only() {
    let stub_deps = Arc::new(StubDeleteExecutorDeps::default());
    let executor = FSDeleteExecutor::new(stub_deps.clone());
    let actual = executor.execute(&Scaffold::Pending {
        file_name: "foo/bar.md".to_string(),
    });

    assert!(actual.is_ok());
    assert_eq!(
        stub_deps.deleted_file_path.take(),
        Some("foo/bar.md".to_string())
    );
    assert_eq!(stub_deps.deleted_directory_path.take(), None)
}

#[test]
fn delete_only_file() {
    let stub_deps = Arc::new(StubDeleteExecutorDeps::default());
    let executor = FSDeleteExecutor::new(stub_deps.clone());
    let actual = executor.execute(&Scaffold::Complete {
        file_name: "foo/bar.md".to_string(),
        file_body: String::default(),
    });

    assert!(actual.is_ok());
    assert_eq!(
        stub_deps.deleted_file_path.take(),
        Some("foo/bar.md".to_string())
    );
    assert_eq!(stub_deps.deleted_directory_path.take(), None)
}

#[test]
fn delete_file_and_parent_directory() {
    let stub_deps = Arc::new(StubDeleteExecutorDeps {
        empty_directory: true,
        ..StubDeleteExecutorDeps::default()
    });
    let executor = FSDeleteExecutor::new(stub_deps.clone());
    let actual = executor.execute(&Scaffold::Complete {
        file_name: "foo/bar.md".to_string(),
        file_body: String::default(),
    });

    assert!(actual.is_ok());
    assert_eq!(
        stub_deps.deleted_file_path.take(),
        Some("foo/bar.md".to_string())
    );
    assert_eq!(
        stub_deps.deleted_directory_path.take(),
        Some("foo".to_string())
    )
}

#[test]
fn when_failed_delete_file() {
    let stub_deps = Arc::new(StubDeleteExecutorDeps {
        fail_delete_file: true,
        ..StubDeleteExecutorDeps::default()
    });
    let executor = FSDeleteExecutor::new(stub_deps.clone());
    let actual = executor.execute(&Scaffold::Complete {
        file_name: "foo/bar.md".to_string(),
        file_body: String::default(),
    });

    assert!(actual.is_err());
    assert_eq!(stub_deps.deleted_file_path.take(), None);
    assert_eq!(stub_deps.deleted_directory_path.take(), None);
}

#[test]
fn when_failed_delete_parent_delete_directory() {
    let stub_deps = Arc::new(StubDeleteExecutorDeps {
        empty_directory: true,
        fail_delete_directory: true,
        ..StubDeleteExecutorDeps::default()
    });
    let executor = FSDeleteExecutor::new(stub_deps.clone());
    let actual = executor.execute(&Scaffold::Complete {
        file_name: "foo/bar.md".to_string(),
        file_body: String::default(),
    });

    assert!(actual.is_err());
    assert_eq!(
        stub_deps.deleted_file_path.take(),
        Some("foo/bar.md".to_string())
    );
    assert_eq!(stub_deps.deleted_directory_path.take(), None);
}

#[test]
fn delete_reports_a_missing_parent_directory() {
    let stub_deps = Arc::new(StubDeleteExecutorDeps::default());
    let executor = FSDeleteExecutor::new(stub_deps.clone());
    let actual = executor.execute(&Scaffold::Pending {
        file_name: "/".to_string(),
    });
    assert!(matches!(
        actual,
        Err(MdmgError::ParentDirectoryIsNotFound(path)) if path == "/"
    ));
}

#[derive(Clone, Default)]
struct StubScaffoldDeps {
    pub existing: bool,
    pub fail_write: bool,
    pub created_dirs: Arc<RefCell<Vec<String>>>,
    pub written: Arc<RefCell<Vec<(String, String)>>>,
    pub skipped: Arc<RefCell<Vec<String>>>,
    pub generated: Arc<RefCell<Vec<String>>>,
}

impl ScaffoldExecutorDeps for StubScaffoldDeps {
    fn file_exists(&self, _path: &str) -> bool {
        self.existing
    }
    fn create_dir_all(&self, path: &str) -> Result<(), MdmgError> {
        self.created_dirs.borrow_mut().push(path.to_string());
        Ok(())
    }
    fn write_file(&self, path: &str, body: &str) -> Result<(), MdmgError> {
        if self.fail_write {
            return Err(MdmgError::IoError("disk full".to_string()));
        }
        self.written
            .borrow_mut()
            .push((path.to_string(), body.to_string()));
        Ok(())
    }
    fn notify_skipped(&self, path: &str) {
        self.skipped.borrow_mut().push(path.to_string());
    }
    fn notify_generated(&self, path: &str) {
        self.generated.borrow_mut().push(path.to_string());
    }
}

#[test]
fn fs_scaffold_executor_writes_a_complete_scaffold() {
    let deps = StubScaffoldDeps::default();
    let executor = FSScaffoldExecutor::new(deps.clone());
    let scaffold = Scaffold::Complete {
        file_name: "support/example/foobar.md".to_string(),
        file_body: "hello_world".to_string(),
    };
    assert!(executor.execute(&scaffold).is_ok());
    assert_eq!(
        deps.created_dirs.borrow().clone(),
        vec!["support/example".to_string()]
    );
    assert_eq!(
        deps.written.borrow().clone(),
        vec![("support/example/foobar.md".to_string(), "hello_world".to_string())]
    );
    assert_eq!(
        deps.generated.borrow().clone(),
        vec!["support/example/foobar.md".to_string()]
    );
}

#[test]
fn fs_scaffold_executor_skips_an_existing_file() {
    let deps = StubScaffoldDeps {
        existing: true,
        ..StubScaffoldDeps::default()
    };
    let executor = FSScaffoldExecutor::new(deps.clone());
    let scaffold = Scaffold::Complete {
        file_name: "foobar.md".to_string(),
        file_body: "hello_world".to_string(),
    };
    assert!(executor.execute(&scaffold).is_ok());
    assert_eq!(deps.skipped.borrow().clone(), vec!["foobar.md".to_string()]);
    assert!(deps.written.borrow().is_empty());
}

#[test]
fn fs_scaffold_executor_ignores_a_pending_scaffold() {
    let deps = StubScaffoldDeps::default();
    let executor = FSScaffoldExecutor::new(deps.clone());
    let scaffold = Scaffold::Pending {
        file_name: "foobar.md".to_string(),
    };
    assert!(executor.execute(&scaffold).is_ok());
    assert!(deps.written.borrow().is_empty());
    assert!(deps.skipped.borrow().is_empty());
}

#[test]
fn fs_scaffold_executor_reports_a_write_failure() {
    let deps = StubScaffoldDeps {
        fail_write: true,
        ..StubScaffoldDeps::default()
    };
    let executor = FSScaffoldExecutor::new(deps.clone());
    let scaffold = Scaffold::Complete {
        file_name: "foobar.md".to_string(),
        file_body: "hello_world".to_string(),
    };
    assert!(matches!(
        executor.execute(&scaffold),
        Err(MdmgError::IoError(reason)) if reason == "disk full"
    ));
}

#[derive(Clone, Default)]
struct RecordingLogger {
    pub lines: Arc<RefCell<Vec<String>>>,
}

impl Logger for RecordingLogger {
    fn info(&self, info: &str) {
        self.lines.borrow_mut().push(info.to_string());
    }
    fn debug(&self, _log: &str) {}
}

#[test]
fn dry_run_executor_previews_a_complete_scaffold() {
    let logger = RecordingLogger::default();
    let executor = DryRunScaffoldExecutor::new(logger.clone());
    let scaffold = Scaffold::Complete {
        file_name: "foobar.md".to_string(),
        file_body: "hello_world".to_string(),
    };
    assert!(executor.execute(&scaffold).is_ok());
    assert_eq!(
        logger.lines.borrow().clone(),
        vec![
            "=== filename: foobar.md ===".to_string(),
            "hello_world".to_string(),
            "====================".to_string(),
        ]
    );
}

#[test]
fn dry_run_executor_ignores_a_pending_scaffold() {
    let logger = RecordingLogger::default();
    let executor = DryRunScaffoldExecutor::new(logger.clone());
    let scaffold = Scaffold::Pending {
        file_name: "foobar.md".to_string(),
    };
    assert!(executor.execute(&scaffold).is_ok());
    assert!(logger.lines.borrow().is_empty());
}
