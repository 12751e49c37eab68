use cpp_to_rust_generator::cpp_data::CppTemplateInstantiation;
use cpp_to_rust_generator::cpp_function::{CppFunction, CppFunctionKind, CppFunctionMemberData};
use cpp_to_rust_generator::cpp_template_instantiator::{
    find_template_instantiations_step, instantiate_templates_step, CandidatePolicy,
};
use cpp_to_rust_generator::cpp_type::{CppBuiltInNumericType, CppClassType, CppType};
use cpp_to_rust_generator::database::{CppItemData, Database, DatabaseItem, DatabaseItemSource};
use cpp_to_rust_generator::errors::Error;
use cpp_to_rust_generator::processor::{
    execution_order, process, run_step, ProcessingStep, ProcessorData, StepFunction,
};

fn step(name: &str, depends_on: &[&str]) -> ProcessingStep {
    ProcessingStep::new(
        name,
        depends_on.iter().map(|s| s.to_string()).collect(),
        StepFunction::External,
    )
}

#[test]
fn standard_steps_name_their_prerequisites() {
    let s = instantiate_templates_step();
    assert_eq!(s.name, "instantiate_templates");
    assert_eq!(s.depends_on, vec!["find_template_instantiations".to_string()]);
    assert_eq!(s.function, StepFunction::InstantiateTemplates(CandidatePolicy::FirstMatch));
    let s = find_template_instantiations_step();
    assert_eq!(s.name, "find_template_instantiations");
    assert_eq!(s.depends_on, vec!["cpp_parser".to_string()]);
    assert_eq!(s.function, StepFunction::FindTemplateInstantiations);
}

#[test]
fn order_respects_prerequisites() {
    let steps = vec![
        instantiate_templates_step(),
        find_template_instantiations_step(),
        step("cpp_parser", &[]),
    ];
    assert_eq!(execution_order(&steps).unwrap(), vec![2, 1, 0]);
}

#[test]
fn order_takes_the_first_step_that_can_run() {
    let steps = vec![
        step("d", &["b", "c"]),
        step("a", &[]),
        step("c", &["a"]),
        step("b", &["a"]),
        step("e", &[]),
    ];
    assert_eq!(execution_order(&steps).unwrap(), vec![1, 2, 3, 0, 4]);
    assert_eq!(execution_order(&vec![]).unwrap(), Vec::<usize>::new());
    let independent = vec![step("x", &[]), step("y", &[]), step("z", &[])];
    assert_eq!(execution_order(&independent).unwrap(), vec![0, 1, 2]);
}

#[test]
fn unknown_prerequisite_is_reported() {
    let steps = vec![instantiate_templates_step(), find_template_instantiations_step()];
    match execution_order(&steps) {
        Err(Error::UnknownStepDependency(name)) => assert_eq!(name, "cpp_parser"),
        other => panic!("{:?}", other),
    }
    let steps = vec![step("a", &["b", "missing1"]), step("b", &["missing2"])];
    match execution_order(&steps) {
        Err(Error::UnknownStepDependency(name)) => assert_eq!(name, "missing1"),
        other => panic!("{:?}", other),
    }
}

#[test]
fn cycle_is_reported() {
    let steps = vec![step("a", &["b"]), step("b", &["c"]), step("c", &["a"]), step("d", &[])];
    assert!(matches!(execution_order(&steps), Err(Error::CyclicStepDependency)));
    let steps = vec![step("a", &["a"])];
    assert!(matches!(execution_order(&steps), Err(Error::CyclicStepDependency)));
}

fn generic_database() -> Database {
    let param = CppType::TemplateParameter { nested_level: 0, index: 0, name: "T".to_string() };
    let int_type = CppType::BuiltInNumeric(CppBuiltInNumericType::Int);
    let get = CppFunction {
        name: "get".to_string(),
        member: Some(CppFunctionMemberData {
            class_type: CppClassType {
                name: "Box".to_string(),
                template_arguments: Some(vec![param.clone()]),
            },
            kind: CppFunctionKind::Regular,
            is_const: true,
            is_static: false,
        }),
        operator: None,
        return_type: param,
        arguments: vec![],
        template_arguments: None,
    };
    let make = CppFunction {
        name: "make".to_string(),
        member: None,
        operator: None,
        return_type: CppType::Class(CppClassType {
            name: "Box".to_string(),
            template_arguments: Some(vec![int_type]),
        }),
        arguments: vec![],
        template_arguments: None,
    };
    Database {
        crate_name: "lib".to_string(),
        items: vec![
            DatabaseItem {
                source: DatabaseItemSource::CppParser,
                cpp_data: CppItemData::Function(get),
            },
            DatabaseItem {
                source: DatabaseItemSource::CppParser,
                cpp_data: CppItemData::Function(make),
            },
        ],
    }
}

#[test]
fn process_runs_each_step_once_in_order() {
    let steps = vec![
        instantiate_templates_step(),
        find_template_instantiations_step(),
        step("cpp_parser", &[]),
    ];
    let mut db = generic_database();
    let deps = vec![];
    let order =
        process(&steps, ProcessorData { current_database: &mut db, dep_databases: &deps }).unwrap();
    assert_eq!(order, vec![2, 1, 0]);
    assert_eq!(db.items.len(), 4);
    assert_eq!(
        db.items[2].cpp_data,
        CppItemData::TemplateInstantiation(CppTemplateInstantiation {
            class_name: "Box".to_string(),
            template_arguments: vec![CppType::BuiltInNumeric(CppBuiltInNumericType::Int)],
        })
    );
    match &db.items[3].cpp_data {
        CppItemData::Function(f) => {
            assert_eq!(f.name, "get");
            assert_eq!(f.return_type, CppType::BuiltInNumeric(CppBuiltInNumericType::Int));
        }
        other => panic!("{:?}", other),
    }
}

#[test]
fn process_runs_nothing_on_a_configuration_error() {
    let steps = vec![
        find_template_instantiations_step(),
        ProcessingStep::new(
            "cpp_parser",
            vec!["find_template_instantiations".to_string()],
            StepFunction::External,
        ),
    ];
    let mut db = generic_database();
    let deps = vec![];
    let r = process(&steps, ProcessorData { current_database: &mut db, dep_databases: &deps });
    assert!(matches!(r, Err(Error::CyclicStepDependency)));
    assert_eq!(db.items.len(), 2);

    let steps = vec![find_template_instantiations_step()];
    let r = process(&steps, ProcessorData { current_database: &mut db, dep_databases: &deps });
    assert!(matches!(r, Err(Error::UnknownStepDependency(_))));
    assert_eq!(db.items.len(), 2);
}

#[test]
fn run_step_applies_the_transformation() {
    let mut db = generic_database();
    let deps = vec![];
    run_step(
        &step("cpp_parser", &[]),
        ProcessorData { current_database: &mut db, dep_databases: &deps },
    )
    .unwrap();
    assert_eq!(db.items.len(), 2);
    run_step(
        &instantiate_templates_step(),
        ProcessorData { current_database: &mut db, dep_databases: &deps },
    )
    .unwrap();
    assert_eq!(db.items.len(), 2);
    run_step(
        &find_template_instantiations_step(),
        ProcessorData { current_database: &mut db, dep_databases: &deps },
    )
    .unwrap();
    assert_eq!(db.items.len(), 3);
}

#[test]
fn all_items_lists_current_then_dependencies() {
    let mut db = Database::empty("lib");
    db.add_cpp_data(DatabaseItemSource::CppParser, CppItemData::Enum { name: "A".to_string() });
    let mut dep1 = Database::empty("dep1");
    dep1.add_cpp_data(DatabaseItemSource::CppParser, CppItemData::Enum { name: "B".to_string() });
    dep1.add_cpp_data(DatabaseItemSource::CppParser, CppItemData::Enum { name: "C".to_string() });
    let mut dep2 = Database::empty("dep2");
    dep2.add_cpp_data(DatabaseItemSource::CppParser, CppItemData::Enum { name: "D".to_string() });
    let deps = vec![dep1, dep2];
    let data = ProcessorData { current_database: &mut db, dep_databases: &deps };
    let names: Vec<String> = data
        .all_items()
        .iter()
        .map(|i| match &i.cpp_data {
            CppItemData::Enum { name } => name.clone(),
            other => panic!("{:?}", other),
        })
        .collect();
    assert_eq!(names, vec!["A", "B", "C", "D"]);
}
