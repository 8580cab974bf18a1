use std::cell::Cell;
use std::sync::{Arc, Mutex};

use mdmg::error::MdmgError;
use mdmg::rename_executor::{
    rename, run, DefaultRenameExecutor, RenameExecutor, ReplacementOperation,
    ReplacementOperationInterpreter, ReplacementParameter,
};
use mdmg::scaffold::Scaffold;

#[test]
fn test_rename() {
    assert_eq!(
        rename("ExampleService", "Example", "Himanoa"),
        "HimanoaService".to_string(),
        "Pascal case test"
    );
    assert_eq!(
        rename("exampleService", "example", "himanoa"),
        "himanoaService".to_string(),
        "Camel case test"
    );
    assert_eq!(
        rename("example-service", "example", "himanoa"),
        "himanoa-service".to_string(),
        "Kebab case test"
    );
    assert_eq!(
        rename("example_service", "example", "himanoa"),
        "himanoa_service".to_string(),
        "Snake case test"
    );
    assert_eq!(
        rename("example_service", "adfadf", "himanoa"),
        "example_service".to_string(),
        "No replace"
    );
}

#[test]
fn rename_round_trip_restores_the_original() {
    let renamed = rename("ExampleService", "Example", "Himanoa");
    assert_eq!(rename(&renamed, "Himanoa", "Example"), "ExampleService".to_string());

    let body = "exampleService calls example_service via example-service";
    let replaced = rename(body, "example", "himanoa");
    assert_eq!(
        replaced,
        "himanoaService calls himanoa_service via himanoa-service".to_string()
    );
    assert_eq!(rename(&replaced, "himanoa", "example"), body.to_string());
}

#[test]
fn test_replacement_parameter_name_changed() {
    assert!(
        !ReplacementParameter::default().name_changed(),
        "id equal renamed_name"
    );
    assert!(
        ReplacementParameter {
            id: "foo".to_string(),
            renamed_name: "bar".to_string(),
            ..ReplacementParameter::default()
        }
        .name_changed(),
        "id equal renamed_name"
    )
}

#[test]
fn test_replacement_parameter_body_changed() {
    assert!(
        !ReplacementParameter::default().body_changed(),
        "before_replace_body equal replaced_body"
    );
    assert!(
        ReplacementParameter {
            before_replace_body: "foo".to_string(),
            replaced_body: "bar".to_string(),
            ..ReplacementParameter::default()
        }
        .body_changed(),
        "before_replace_body not equal replaced_body"
    )
}

#[test]
fn test_replacement_parameter_all_changed() {
    assert!(
        !ReplacementParameter::default().all_changed(),
        "id equal renamed_name"
    );

    assert!(
        !ReplacementParameter {
            id: "foo".to_string(),
            renamed_name: "bar".to_string(),
            ..ReplacementParameter::default()
        }
        .all_changed(),
        "id equal renamed_name"
    );
    assert!(
        !ReplacementParameter {
            before_replace_body: "foo".to_string(),
            replaced_body: "bar".to_string(),
            ..ReplacementParameter::default()
        }
        .all_changed(),
        "before_replace_body not equal replaced_body"
    );
    assert!(
        ReplacementParameter {
            before_replace_body: "foo".to_string(),
            replaced_body: "bar".to_string(),
            id: "foo".to_string(),
            renamed_name: "bar".to_string()
        }
        .all_changed(),
        "before_replace_body not equal replaced_body"
    )
}

#[test]
fn test_replacement_operator_from() {
    assert_eq!(
        ReplacementOperation::from(&ReplacementParameter::default()),
        ReplacementOperation::NoOperation,
        "before == after"
    );
    assert_eq!(
        ReplacementOperation::from(&ReplacementParameter {
            id: "foo".to_string(),
            renamed_name: "bar".to_string(),
            ..ReplacementParameter::default()
        }),
        ReplacementOperation::Rename,
        "id != renamed_name"
    );
    assert_eq!(
        ReplacementOperation::from(&ReplacementParameter {
            before_replace_body: "foo".to_string(),
            replaced_body: "bar".to_string(),
            ..ReplacementParameter::default()
        }),
        ReplacementOperation::Replace,
        "before_replace_body != replaced_body"
    );
    assert_eq!(
        ReplacementOperation::from(&ReplacementParameter {
            before_replace_body: "foo".to_string(),
            replaced_body: "bar".to_string(),
            id: "foo".to_string(),
            renamed_name: "bar".to_string()
        }),
        ReplacementOperation::RenameAndReplace,
        "all_changed"
    );
}

struct NoneDummy(pub Cell<bool>);

impl ReplacementOperationInterpreter for NoneDummy {
    fn none(&self, _id: &str) {
        self.0.replace(true);
    }
    fn rename(&self, _from_name: &str, _to_name: &str) -> Result<(), MdmgError> {
        unreachable!()
    }
    fn replace(&self, _id: &str, _replaced_body: &str) -> Result<(), MdmgError> {
        unreachable!()
    }
    fn rename_and_replace(&self, _parameter: &ReplacementParameter) -> Result<(), MdmgError> {
        unreachable!()
    }
}

#[test]
fn test_replacement_operation_interpreter_when_operation_is_none() {
    let interpreter = NoneDummy(Cell::new(false));
    assert!(run(
        &ReplacementParameter::new(
            "xxx".to_string(),
            "xxx".to_string(),
            "xxx".to_string(),
            "xxx".to_string(),
        ),
        &interpreter
    )
    .is_ok());
    assert!(interpreter.0.get());
}

struct RenameDummy(pub Cell<bool>);

impl ReplacementOperationInterpreter for RenameDummy {
    fn none(&self, _id: &str) {
        unreachable!()
    }
    fn rename(&self, _from_name: &str, _to_name: &str) -> Result<(), MdmgError> {
        self.0.replace(true);
        Ok(())
    }
    fn replace(&self, _id: &str, _replaced_body: &str) -> Result<(), MdmgError> {
        unreachable!()
    }
    fn rename_and_replace(&self, _parameter: &ReplacementParameter) -> Result<(), MdmgError> {
        unreachable!()
    }
}

#[test]
fn test_replacement_operation_interpreter_when_operation_is_rename() {
    let interpreter = RenameDummy(Cell::new(false));
    assert!(run(
        &ReplacementParameter::new(
            "xxx".to_string(),
            "xxxy".to_string(),
            "xxx".to_string(),
            "xxx".to_string(),
        ),
        &interpreter
    )
    .is_ok());
    assert!(interpreter.0.get());
}

struct ReplaceDummy(pub Cell<bool>);

impl ReplacementOperationInterpreter for ReplaceDummy {
    fn none(&self, _id: &str) {
        unreachable!()
    }
    fn rename(&self, _from_name: &str, _to_name: &str) -> Result<(), MdmgError> {
        unreachable!()
    }
    fn replace(&self, _id: &str, _replaced_body: &str) -> Result<(), MdmgError> {
        self.0.replace(true);
        Ok(())
    }
    fn rename_and_replace(&self, _parameter: &ReplacementParameter) -> Result<(), MdmgError> {
        unreachable!()
    }
}

#[test]
fn test_replacement_operation_interpreter_when_operation_is_replace() {
    let interpreter = ReplaceDummy(Cell::new(false));
    assert!(run(
        &ReplacementParameter::new(
            "xxx".to_string(),
            "xxx".to_string(),
            "xxx".to_string(),
            "xxxy".to_string(),
        ),
        &interpreter
    )
    .is_ok());
    assert!(interpreter.0.get());
}

struct RenameAndReplaceDummy(pub Cell<bool>);

impl ReplacementOperationInterpreter for RenameAndReplaceDummy {
    fn none(&self, _id: &str) {
        unreachable!()
    }
    fn rename(&self, _from_name: &str, _to_name: &str) -> Result<(), MdmgError> {
        unreachable!()
    }
    fn replace(&self, _id: &str, _replaced_body: &str) -> Result<(), MdmgError> {
        unreachable!()
    }
    fn rename_and_replace(&self, _parameter: &ReplacementParameter) -> Result<(), MdmgError> {
        self.0.replace(true);
        Ok(())
    }
}

#[test]
fn test_replacement_operation_interpreter_when_operation_is_rename_and_replace() {
    let interpreter = RenameAndReplaceDummy(Cell::new(false));
    assert!(run(
        &ReplacementParameter::new(
            "xxx".to_string(),
            "xxxy".to_string(),
            "xxx".to_string(),
            "xxxy".to_string(),
        ),
        &interpreter
    )
    .is_ok());
    assert!(interpreter.0.get());
}

#[test]
fn test_from_scafold() {
    let scaffold = Scaffold::Complete {
        file_name: "sooo".to_string(),
        file_body: "".to_string(),
    };
    let parameter =
        ReplacementParameter::from_scaffold(&scaffold, "before_identify", "after_identify").unwrap();
    assert!(!parameter.all_changed());
    assert!(!parameter.name_changed());
    assert!(!parameter.body_changed());

    let scaffold = Scaffold::Complete {
        file_name: "sooo".to_string(),
        file_body: "".to_string(),
    };
    let parameter = ReplacementParameter::from_scaffold(&scaffold, "so", "af").unwrap();
    assert!(parameter.name_changed());
    assert!(!parameter.all_changed());
    assert!(!parameter.body_changed());

    let scaffold = Scaffold::Complete {
        file_name: "ooo".to_string(),
        file_body: "so".to_string(),
    };
    let parameter = ReplacementParameter::from_scaffold(&scaffold, "so", "af").unwrap();
    assert!(parameter.body_changed());
    assert!(!parameter.name_changed());
    assert!(!parameter.all_changed());

    let scaffold = Scaffold::Complete {
        file_name: "so".to_string(),
        file_body: "so".to_string(),
    };
    let parameter = ReplacementParameter::from_scaffold(&scaffold, "so", "af").unwrap();
    assert!(parameter.all_changed());

    let scaffold = Scaffold::Pending {
        file_name: "xxx".to_string(),
    };
    assert!(ReplacementParameter::from_scaffold(&scaffold, "so", "af").is_err())
}

#[test]
fn from_scaffold_classifies_a_rename() {
    let scaffold = Scaffold::Complete {
        file_name: "ExampleService".to_string(),
        file_body: "nothing to rewrite".to_string(),
    };
    let parameter = ReplacementParameter::from_scaffold(&scaffold, "Example", "Himanoa").unwrap();
    assert_eq!(parameter.renamed_name, "HimanoaService".to_string());
    assert_eq!(
        ReplacementOperation::from(&parameter),
        ReplacementOperation::Rename
    );
}

#[test]
fn from_scaffold_reports_the_pending_file_name() {
    let scaffold = Scaffold::Pending {
        file_name: "src/pending.rs".to_string(),
    };
    let result = ReplacementParameter::from_scaffold(&scaffold, "a", "b");
    assert!(matches!(
        result,
        Err(MdmgError::ReadPendingScaffoldError { file_name }) if file_name == "src/pending.rs"
    ));
}

#[derive(Clone, Default)]
struct RecordingInterpreter(pub Arc<Mutex<Vec<String>>>);

impl ReplacementOperationInterpreter for RecordingInterpreter {
    fn none(&self, _id: &str) {
        self.0.lock().unwrap().push("none".to_string());
    }
    fn rename(&self, _from_name: &str, _to_name: &str) -> Result<(), MdmgError> {
        self.0.lock().unwrap().push("rename".to_string());
        Ok(())
    }
    fn replace(&self, _id: &str, _replaced_body: &str) -> Result<(), MdmgError> {
        self.0.lock().unwrap().push("replace".to_string());
        Ok(())
    }
    fn rename_and_replace(&self, _parameter: &ReplacementParameter) -> Result<(), MdmgError> {
        self.0
            .lock()
            .unwrap()
            .push("rename_and_replace".to_string());
        Ok(())
    }
}

#[test]
fn rename_executor_execute() {
    let interpreter = RecordingInterpreter::default();
    let executor = DefaultRenameExecutor::new(interpreter.clone());
    let scaffolds = vec![
        Scaffold::Complete {
            file_name: "xxx".to_string(),
            file_body: "xxx".to_string(),
        },
        Scaffold::Complete {
            file_name: "replace_target".to_string(),
            file_body: "xxx".to_string(),
        },
        Scaffold::Complete {
            file_name: "xxx".to_string(),
            file_body: "replace_target".to_string(),
        },
        Scaffold::Complete {
            file_name: "replace_target".to_string(),
            file_body: "replace_target".to_string(),
        },
    ];
    let expected_plans = vec![
        "none".to_string(),
        "rename".to_string(),
        "replace".to_string(),
        "rename_and_replace".to_string(),
    ];
    assert!(executor
        .execute(&scaffolds, "replace_target", "replaced")
        .is_ok());
    assert_eq!(interpreter.0.lock().unwrap().clone(), expected_plans);
}

#[test]
fn rename_executor_stops_at_a_pending_scaffold() {
    let interpreter = RecordingInterpreter::default();
    let executor = DefaultRenameExecutor::new(interpreter.clone());
    let scaffolds = vec![
        Scaffold::Complete {
            file_name: "xxx".to_string(),
            file_body: "xxx".to_string(),
        },
        Scaffold::Pending {
            file_name: "pending.rs".to_string(),
        },
        Scaffold::Complete {
            file_name: "replace_target".to_string(),
            file_body: "xxx".to_string(),
        },
    ];
    let result = executor.execute(&scaffolds, "replace_target", "replaced");
    assert!(matches!(
        result,
        Err(MdmgError::ReadPendingScaffoldError { file_name }) if file_name == "pending.rs"
    ));
    assert_eq!(interpreter.0.lock().unwrap().clone(), vec!["none".to_string()]);
}
