use cpp_to_rust_generator::cpp_data::CppTemplateInstantiation;
use cpp_to_rust_generator::cpp_ffi_data::ReturnValueAllocationPlace;
use cpp_to_rust_generator::cpp_function::{
    CppFunction, CppFunctionArgument, CppFunctionKind, CppFunctionMemberData,
};
use cpp_to_rust_generator::cpp_operator::CppOperator;
use cpp_to_rust_generator::cpp_template_instantiator::{
    apply_instantiation_to_method, check_template_type, find_generic_occurrence,
    find_instantiations, find_template_instantiations, instantiate_templates,
    instantiate_templates_with_report, try_candidates, try_instantiation, CandidatePolicy,
};
use cpp_to_rust_generator::cpp_type::{
    CppBuiltInNumericType, CppClassType, CppFunctionPointerType, CppType,
};
use cpp_to_rust_generator::database::{CppItemData, Database, DatabaseItem, DatabaseItemSource};
use cpp_to_rust_generator::errors::Error;
use cpp_to_rust_generator::processor::ProcessorData;

fn int_type() -> CppType {
    CppType::BuiltInNumeric(CppBuiltInNumericType::Int)
}

fn bool_type() -> CppType {
    CppType::BuiltInNumeric(CppBuiltInNumericType::Bool)
}

fn param(nested_level: usize, index: usize) -> CppType {
    CppType::TemplateParameter { nested_level, index, name: "T".to_string() }
}

fn class_type(name: &str, args: Option<Vec<CppType>>) -> CppClassType {
    CppClassType { name: name.to_string(), template_arguments: args }
}

fn class(name: &str, args: Option<Vec<CppType>>) -> CppType {
    CppType::Class(class_type(name, args))
}

fn inst(name: &str, args: Vec<CppType>) -> CppTemplateInstantiation {
    CppTemplateInstantiation { class_name: name.to_string(), template_arguments: args }
}

fn free_function(name: &str, arguments: Vec<CppType>, return_type: CppType) -> CppFunction {
    CppFunction {
        name: name.to_string(),
        member: None,
        operator: None,
        return_type,
        arguments: arguments
            .into_iter()
            .enumerate()
            .map(|(i, t)| CppFunctionArgument {
                name: format!("arg{}", i + 1),
                argument_type: t,
                has_default_value: false,
            })
            .collect(),
        template_arguments: None,
    }
}

fn method_of(class: CppClassType, name: &str, return_type: CppType) -> CppFunction {
    CppFunction {
        name: name.to_string(),
        member: Some(CppFunctionMemberData {
            class_type: class,
            kind: CppFunctionKind::Regular,
            is_const: false,
            is_static: false,
        }),
        operator: None,
        return_type,
        arguments: Vec::new(),
        template_arguments: None,
    }
}

fn parsed(data: CppItemData) -> DatabaseItem {
    DatabaseItem { source: DatabaseItemSource::CppParser, cpp_data: data }
}

fn database(name: &str, items: Vec<CppItemData>) -> Database {
    Database { crate_name: name.to_string(), items: items.into_iter().map(parsed).collect() }
}

fn instantiations(db: &Database) -> Vec<CppTemplateInstantiation> {
    db.items.iter().filter_map(|i| i.cpp_data.as_template_instantiation_ref().cloned()).collect()
}

fn functions(db: &Database) -> Vec<CppFunction> {
    db.items.iter().filter_map(|i| i.cpp_data.as_function_ref().cloned()).collect()
}

fn discover(db: &mut Database, deps: &Vec<Database>) {
    find_template_instantiations(ProcessorData { current_database: db, dep_databases: deps })
        .unwrap();
}

fn apply(db: &mut Database, deps: &Vec<Database>) {
    instantiate_templates(ProcessorData { current_database: db, dep_databases: deps }).unwrap();
}

#[test]
fn discovery_records_concrete_instantiations_in_order() {
    let vector_of_int = class("QVector", Some(vec![int_type()]));
    let map = class("QMap", Some(vec![bool_type(), vector_of_int.clone()]));
    let mut db = database(
        "lib",
        vec![
            CppItemData::Function(free_function(
                "f",
                vec![CppType::new_reference(true, map.clone()), vector_of_int.clone()],
                CppType::new_pointer(false, class("QList", Some(vec![param(0, 0)]))),
            )),
            CppItemData::Class(class_type("QVector", Some(vec![param(0, 0)]))),
            CppItemData::Enum { name: "Color".to_string() },
            CppItemData::Function(free_function(
                "g",
                vec![],
                class("QPair", Some(vec![param(0, 0), class("QSet", Some(vec![bool_type()]))])),
            )),
        ],
    );
    let before = db.items.len();
    discover(&mut db, &vec![]);
    assert_eq!(
        instantiations(&db),
        vec![
            inst("QMap", vec![bool_type(), vector_of_int.clone()]),
            inst("QVector", vec![int_type()]),
            inst("QSet", vec![bool_type()]),
        ]
    );
    assert_eq!(db.items.len(), before + 3);
    assert!(db.items[before..]
        .iter()
        .all(|i| i.source == DatabaseItemSource::TemplateInstantiation));
    assert_eq!(db.crate_name, "lib");
}

#[test]
fn discovery_looks_into_function_pointers() {
    let callback = CppType::FunctionPointer(CppFunctionPointerType {
        return_type: Box::new(class("A", Some(vec![int_type()]))),
        arguments: vec![CppType::new_pointer(false, class("B", Some(vec![bool_type()])))],
        allows_variadic_arguments: false,
    });
    let mut db =
        database("lib", vec![CppItemData::Function(free_function("f", vec![callback], CppType::Void))]);
    discover(&mut db, &vec![]);
    assert_eq!(
        instantiations(&db),
        vec![inst("A", vec![int_type()]), inst("B", vec![bool_type()])]
    );
}

#[test]
fn discovery_skips_what_is_known() {
    let dep = database(
        "dep",
        vec![CppItemData::TemplateInstantiation(inst("QVector", vec![int_type()]))],
    );
    let mut db = database(
        "lib",
        vec![
            CppItemData::TemplateInstantiation(inst("QList", vec![int_type()])),
            CppItemData::Function(free_function(
                "f",
                vec![
                    class("QVector", Some(vec![int_type()])),
                    class("QList", Some(vec![int_type()])),
                    class("QVector", Some(vec![bool_type()])),
                ],
                class("QVector", Some(vec![bool_type()])),
            )),
        ],
    );
    let deps = vec![dep];
    discover(&mut db, &deps);
    assert_eq!(
        instantiations(&db),
        vec![inst("QList", vec![int_type()]), inst("QVector", vec![bool_type()])]
    );
    assert_eq!(deps[0].items.len(), 1);
}

#[test]
fn discovery_is_idempotent() {
    let mut db = database(
        "lib",
        vec![
            CppItemData::Function(free_function(
                "f",
                vec![class(
                    "Outer",
                    Some(vec![class("Inner", Some(vec![class("Innermost", Some(vec![int_type()]))]))]),
                )],
                CppType::Void,
            )),
            CppItemData::Function(free_function(
                "g",
                vec![class("Generic", Some(vec![param(0, 0)]))],
                class("Inner", Some(vec![class("Innermost", Some(vec![int_type()]))])),
            )),
        ],
    );
    discover(&mut db, &vec![]);
    let once = db.clone();
    assert_eq!(instantiations(&db).len(), 3);
    discover(&mut db, &vec![]);
    assert_eq!(db, once);
    assert_eq!(db.items, once.items);
}

#[test]
fn application_replaces_parameters_everywhere() {
    let mut method = method_of(class_type("Box", Some(vec![param(0, 0)])), "swap", param(0, 0));
    method.arguments.push(CppFunctionArgument {
        name: "other".to_string(),
        argument_type: CppType::new_reference(false, class("Box", Some(vec![param(0, 0)]))),
        has_default_value: true,
    });
    method.template_arguments = Some(vec![param(0, 0)]);
    let r = apply_instantiation_to_method(&method, 0, &inst("Box", vec![int_type()])).unwrap();
    assert_eq!(r.name, "swap");
    assert_eq!(r.return_type, int_type());
    assert_eq!(
        r.arguments,
        vec![CppFunctionArgument {
            name: "other".to_string(),
            argument_type: CppType::new_reference(false, class("Box", Some(vec![int_type()]))),
            has_default_value: true,
        }]
    );
    assert_eq!(r.member.as_ref().unwrap().class_type, class_type("Box", Some(vec![int_type()])));
    assert_eq!(r.template_arguments, Some(vec![int_type()]));
    assert!(r.all_involved_types().iter().all(|t| !t.is_or_contains_template_parameter()));
}

#[test]
fn application_rejects_another_number_of_arguments() {
    let mut method = method_of(class_type("Pair", Some(vec![param(0, 0), param(0, 1)])), "first", param(0, 0));
    method.template_arguments = Some(vec![param(0, 0), param(0, 1)]);
    assert!(matches!(
        apply_instantiation_to_method(&method, 0, &inst("Pair", vec![int_type()])),
        Err(Error::TemplateArgumentsCountMismatch)
    ));
    assert!(matches!(
        apply_instantiation_to_method(
            &method,
            0,
            &inst("Pair", vec![int_type(), int_type(), int_type()])
        ),
        Err(Error::TemplateArgumentsCountMismatch)
    ));
    assert!(apply_instantiation_to_method(&method, 0, &inst("Pair", vec![int_type(), bool_type()]))
        .is_ok());
}

#[test]
fn application_rejects_missing_arguments() {
    let method = method_of(class_type("Pair", Some(vec![param(0, 0), param(0, 1)])), "second", param(0, 1));
    assert!(matches!(
        apply_instantiation_to_method(&method, 0, &inst("Pair", vec![int_type()])),
        Err(Error::NotEnoughTemplateArguments)
    ));
}

#[test]
fn application_rejects_leftover_parameters() {
    let mut method = method_of(class_type("Box", Some(vec![param(0, 0)])), "get", param(0, 0));
    method.template_arguments = Some(vec![param(0, 0)]);
    assert!(matches!(
        apply_instantiation_to_method(&method, 0, &inst("Box", vec![param(1, 0)])),
        Err(Error::ExtraTemplateParametersLeft)
    ));
    assert!(matches!(
        apply_instantiation_to_method(
            &method,
            0,
            &inst("Box", vec![CppType::new_pointer(false, class("C", Some(vec![param(2, 0)])))])
        ),
        Err(Error::ExtraTemplateParametersLeft)
    ));
    let mut nested = method_of(class_type("Box", Some(vec![param(0, 0)])), "convert", param(1, 0));
    nested.template_arguments = Some(vec![param(1, 0)]);
    assert!(matches!(
        apply_instantiation_to_method(&nested, 0, &inst("Box", vec![int_type()])),
        Err(Error::ExtraTemplateParametersLeft)
    ));
}

#[test]
fn application_renames_conversion_operators() {
    let mut method =
        method_of(class_type("Box", Some(vec![param(0, 0)])), "operator T", param(0, 0));
    method.operator = Some(CppOperator::Conversion(CppType::new_reference(true, param(0, 0))));
    let r = apply_instantiation_to_method(&method, 0, &inst("Box", vec![class("ns::A", None)]))
        .unwrap();
    assert_eq!(r.name, "operator const ns::A&");
    assert_eq!(
        r.operator,
        Some(CppOperator::Conversion(CppType::new_reference(true, class("ns::A", None))))
    );
    assert_eq!(
        r.c_base_name(ReturnValueAllocationPlace::NotApplicable, "Box").unwrap(),
        "Box_ns_A_convert_to_const_ns_A_ref"
    );
}

#[test]
fn availability_names_the_first_unknown_type() {
    let mut db = database(
        "lib",
        vec![CppItemData::TemplateInstantiation(inst("A", vec![class("B", Some(vec![int_type()]))]))],
    );
    let deps = vec![database(
        "dep",
        vec![CppItemData::TemplateInstantiation(inst("C", vec![int_type()]))],
    )];
    let data = ProcessorData { current_database: &mut db, dep_databases: &deps };
    assert!(check_template_type(&data, &int_type()).is_ok());
    assert!(check_template_type(&data, &class("Plain", None)).is_ok());
    assert!(check_template_type(&data, &class("C", Some(vec![int_type()]))).is_ok());
    assert!(check_template_type(
        &data,
        &CppType::new_pointer(false, class("C", Some(vec![int_type()])))
    )
    .is_ok());
    let unknown_inside = class("A", Some(vec![class("B", Some(vec![int_type()]))]));
    match check_template_type(&data, &unknown_inside) {
        Err(Error::TypeNotAvailable(t)) => assert_eq!(t, class("B", Some(vec![int_type()]))),
        other => panic!("{:?}", other),
    }
    let unknown_outside = CppType::new_reference(true, class("C", Some(vec![bool_type()])));
    match check_template_type(&data, &unknown_outside) {
        Err(Error::TypeNotAvailable(t)) => assert_eq!(t, class("C", Some(vec![bool_type()]))),
        other => panic!("{:?}", other),
    }
    let in_function = CppType::FunctionPointer(CppFunctionPointerType {
        return_type: Box::new(CppType::Void),
        arguments: vec![int_type(), class("D", Some(vec![int_type()]))],
        allows_variadic_arguments: false,
    });
    match check_template_type(&data, &in_function) {
        Err(Error::TypeNotAvailable(t)) => assert_eq!(t, class("D", Some(vec![int_type()]))),
        other => panic!("{:?}", other),
    }
}

#[test]
fn generic_occurrence_is_found_behind_one_wrapper() {
    let generic = class("Box", Some(vec![param(2, 0), param(2, 1)]));
    let name = "Box".to_string();
    assert_eq!(find_generic_occurrence(&generic), Some((&name, 2)));
    assert_eq!(
        find_generic_occurrence(&CppType::new_reference(true, generic.clone())),
        Some((&name, 2))
    );
    assert_eq!(
        find_generic_occurrence(&CppType::new_pointer(
            false,
            CppType::new_pointer(false, generic.clone())
        )),
        None
    );
    assert_eq!(find_generic_occurrence(&class("Box", Some(vec![param(0, 0), int_type()]))), None);
    assert_eq!(find_generic_occurrence(&class("Box", Some(vec![]))), None);
    assert_eq!(find_generic_occurrence(&class("Box", None)), None);
    assert_eq!(find_generic_occurrence(&param(0, 0)), None);
}

#[test]
fn end_to_end_box_of_int() {
    let boxed = class_type("Box", Some(vec![param(0, 0)]));
    let mut get = method_of(boxed.clone(), "get", param(0, 0));
    get.template_arguments = Some(vec![param(0, 0)]);
    let mut db = database(
        "lib",
        vec![
            CppItemData::Class(boxed),
            CppItemData::Function(get),
            CppItemData::Function(free_function(
                "make",
                vec![],
                class("Box", Some(vec![int_type()])),
            )),
        ],
    );
    let deps = vec![];
    discover(&mut db, &deps);
    assert_eq!(instantiations(&db), vec![inst("Box", vec![int_type()])]);
    apply(&mut db, &deps);
    let all = functions(&db);
    assert_eq!(all.len(), 3);
    let derived = &all[2];
    assert_eq!(db.items.last().unwrap().source, DatabaseItemSource::TemplateInstantiation);
    assert_eq!(derived.name, "get");
    assert_eq!(derived.return_type, int_type());
    assert!(derived.arguments.is_empty());
    assert_eq!(
        derived.member.as_ref().unwrap().class_type,
        class_type("Box", Some(vec![int_type()]))
    );
    assert_eq!(
        derived.c_base_name(ReturnValueAllocationPlace::Stack, "Box").unwrap(),
        "Box_int_get_to_output"
    );
    let items_before = db.items.len();
    apply(&mut db, &deps);
    assert_eq!(db.items.len(), items_before);
    assert_eq!(
        functions(&db)[2].c_base_name(ReturnValueAllocationPlace::Stack, "Box").unwrap(),
        "Box_int_get_to_output"
    );
}

#[test]
fn application_works_without_own_parameter_list() {
    let boxed = class_type("Box", Some(vec![param(0, 0)]));
    let mut db = database(
        "lib",
        vec![
            CppItemData::Function(method_of(boxed, "get", param(0, 0))),
            CppItemData::TemplateInstantiation(inst("Box", vec![bool_type()])),
        ],
    );
    apply(&mut db, &vec![]);
    let all = functions(&db);
    assert_eq!(all.len(), 2);
    assert_eq!(all[1].return_type, bool_type());
    assert_eq!(all[1].template_arguments, None);
}

#[test]
fn application_tries_only_the_first_instantiation() {
    let boxed = class_type("Box", Some(vec![param(0, 0)]));
    let dep = database(
        "dep",
        vec![CppItemData::TemplateInstantiation(inst("Box", vec![int_type()]))],
    );
    let mut db = database(
        "lib",
        vec![
            CppItemData::Function(method_of(boxed, "get", param(0, 0))),
            CppItemData::TemplateInstantiation(inst("Other", vec![int_type()])),
            CppItemData::TemplateInstantiation(inst("Box", vec![bool_type()])),
            CppItemData::TemplateInstantiation(inst("Box", vec![int_type()])),
        ],
    );
    let deps = vec![dep];
    apply(&mut db, &deps);
    let all = functions(&db);
    assert_eq!(all.len(), 2);
    assert_eq!(all[1].return_type, bool_type());
}

#[test]
fn application_uses_instantiations_of_dependencies() {
    let boxed = class_type("Box", Some(vec![param(0, 0)]));
    let dep = database(
        "dep",
        vec![
            CppItemData::TemplateInstantiation(inst("Box", vec![int_type()])),
            CppItemData::Function(method_of(boxed, "get", param(0, 0))),
        ],
    );
    let mut db = database("lib", vec![]);
    let deps = vec![dep];
    apply(&mut db, &deps);
    let all = functions(&db);
    assert_eq!(all.len(), 1);
    assert_eq!(all[0].return_type, int_type());
    assert_eq!(deps[0].items.len(), 2);
}

#[test]
fn rejected_candidates_are_dropped_and_the_step_goes_on() {
    let boxed = class_type("Box", Some(vec![param(0, 0)]));
    let pair = class_type("Pair", Some(vec![param(0, 0), param(0, 1)]));
    let wrapped = method_of(
        boxed.clone(),
        "wrapped",
        class("Wrapper", Some(vec![param(0, 0)])),
    );
    let mut db = database(
        "lib",
        vec![
            CppItemData::TemplateInstantiation(inst("Box", vec![int_type()])),
            CppItemData::TemplateInstantiation(inst("Pair", vec![int_type()])),
            CppItemData::Function(method_of(pair, "second", param(0, 1))),
            CppItemData::Function(wrapped.clone()),
            CppItemData::Function(method_of(boxed, "get", param(0, 0))),
        ],
    );
    let deps = vec![];
    {
        let data = ProcessorData { current_database: &mut db, dep_databases: &deps };
        let items = data.all_items();
        match try_instantiation(&wrapped, 0, &inst("Box", vec![int_type()]), &items) {
            Err(Error::TypeNotAvailable(t)) => {
                assert_eq!(t, class("Wrapper", Some(vec![int_type()])))
            }
            other => panic!("{:?}", other),
        }
        let mut new_methods = Vec::new();
        let mut dropped = Vec::new();
        for t in [int_type(), class("Unknown", Some(vec![param(0, 0)]))] {
            try_candidates(
                &wrapped,
                &t,
                &items,
                CandidatePolicy::EveryMatch,
                7,
                9,
                &mut new_methods,
                &mut dropped,
            );
        }
        assert!(new_methods.is_empty());
        assert!(dropped.is_empty());
        let receiver = &wrapped.all_involved_types()[0];
        try_candidates(
            &wrapped,
            receiver,
            &items,
            CandidatePolicy::FirstMatch,
            7,
            9,
            &mut new_methods,
            &mut dropped,
        );
        assert!(new_methods.is_empty());
        assert_eq!(dropped.len(), 1);
        assert_eq!((dropped[0].item, dropped[0].involved_type), (7, 9));
        assert_eq!(dropped[0].instantiation, inst("Box", vec![int_type()]));
    }
    apply(&mut db, &deps);
    let all = functions(&db);
    assert_eq!(all.len(), 4);
    assert_eq!(all[3].name, "get");
    assert_eq!(all[3].return_type, int_type());
}

#[test]
fn a_function_that_mentions_its_class_twice_is_derived_once() {
    let boxed = class_type("Box", Some(vec![param(0, 0)]));
    let mut assign = method_of(
        boxed.clone(),
        "assign",
        CppType::new_reference(false, CppType::Class(boxed.clone())),
    );
    assign.arguments.push(CppFunctionArgument {
        name: "other".to_string(),
        argument_type: CppType::new_reference(true, CppType::Class(boxed)),
        has_default_value: false,
    });
    let mut db = database(
        "lib",
        vec![
            CppItemData::Function(assign),
            CppItemData::TemplateInstantiation(inst("Box", vec![int_type()])),
        ],
    );
    apply(&mut db, &vec![]);
    assert_eq!(functions(&db).len(), 2);
}

#[test]
fn add_cpp_data_keeps_one_of_each() {
    let mut db = Database::empty("lib");
    assert_eq!(db.crate_name, "lib");
    assert!(db.items.is_empty());
    assert!(db.add_cpp_data(DatabaseItemSource::CppParser, CppItemData::Enum { name: "A".to_string() }));
    assert!(db.add_cpp_data(
        DatabaseItemSource::CppParser,
        CppItemData::Class(class_type("A", None))
    ));
    assert!(!db.add_cpp_data(
        DatabaseItemSource::TemplateInstantiation,
        CppItemData::Enum { name: "A".to_string() }
    ));
    assert_eq!(db.items.len(), 2);
    assert_eq!(db.items[0].source, DatabaseItemSource::CppParser);
    assert!(db.contains_data(&CppItemData::Class(class_type("A", None))));
    assert!(!db.contains_data(&CppItemData::Class(class_type("B", None))));
    assert_eq!(
        CppItemData::Class(class_type("V", Some(vec![int_type()]))).all_involved_types(),
        vec![class("V", Some(vec![int_type()]))]
    );
    assert_eq!(
        CppItemData::Enum { name: "E".to_string() }.all_involved_types(),
        vec![CppType::Enum { name: "E".to_string() }]
    );
    assert_eq!(
        CppItemData::TemplateInstantiation(inst("V", vec![int_type(), bool_type()]))
            .all_involved_types(),
        vec![int_type(), bool_type()]
    );
    assert_eq!(
        inst("V", vec![int_type()]).class_type(),
        class_type("V", Some(vec![int_type()]))
    );
}

#[test]
fn report_lists_the_dropped_candidates_with_reasons() {
    let boxed = class_type("Box", Some(vec![param(0, 0)]));
    let pair = class_type("Pair", Some(vec![param(0, 0), param(0, 1)]));
    let mut first = method_of(pair.clone(), "first", param(0, 0));
    first.template_arguments = Some(vec![param(0, 0), param(0, 1)]);
    let wrapped = method_of(boxed.clone(), "wrapped", class("Wrapper", Some(vec![param(0, 0)])));
    let mut db = database(
        "lib",
        vec![
            CppItemData::TemplateInstantiation(inst("Box", vec![int_type()])),
            CppItemData::TemplateInstantiation(inst("Pair", vec![int_type()])),
            CppItemData::Function(first),
            CppItemData::Function(method_of(pair, "second", param(0, 1))),
            CppItemData::Function(wrapped),
            CppItemData::Function(method_of(boxed, "get", param(0, 0))),
        ],
    );
    let deps = vec![];
    let report = instantiate_templates_with_report(
        ProcessorData { current_database: &mut db, dep_databases: &deps },
        CandidatePolicy::FirstMatch,
    );
    assert_eq!(report.len(), 3);
    assert_eq!((report[0].item, report[0].involved_type), (2, 0));
    assert_eq!(report[0].instantiation, inst("Pair", vec![int_type()]));
    assert!(matches!(report[0].reason, Error::TemplateArgumentsCountMismatch));
    assert_eq!((report[1].item, report[1].involved_type), (3, 0));
    assert!(matches!(report[1].reason, Error::NotEnoughTemplateArguments));
    assert_eq!((report[2].item, report[2].involved_type), (4, 0));
    match &report[2].reason {
        Error::TypeNotAvailable(t) => assert_eq!(*t, class("Wrapper", Some(vec![int_type()]))),
        other => panic!("{:?}", other),
    }
    assert_eq!(functions(&db).len(), 5);
    assert_eq!(functions(&db)[4].name, "get");
}

#[test]
fn every_match_gives_one_function_for_each_instantiation() {
    let boxed = class_type("Box", Some(vec![param(0, 0)]));
    let items = vec![
        CppItemData::Function(method_of(boxed.clone(), "get", param(0, 0))),
        CppItemData::TemplateInstantiation(inst("Other", vec![int_type()])),
        CppItemData::TemplateInstantiation(inst("Box", vec![bool_type()])),
        CppItemData::TemplateInstantiation(inst("Box", vec![param(1, 0)])),
    ];
    let dep = database(
        "dep",
        vec![CppItemData::TemplateInstantiation(inst("Box", vec![int_type()]))],
    );
    let deps = vec![dep];

    let mut db = database("lib", items.clone());
    let report = instantiate_templates_with_report(
        ProcessorData { current_database: &mut db, dep_databases: &deps },
        CandidatePolicy::EveryMatch,
    );
    let all = functions(&db);
    assert_eq!(all.len(), 3);
    assert_eq!(all[1].return_type, bool_type());
    assert_eq!(all[1].member.as_ref().unwrap().class_type, class_type("Box", Some(vec![bool_type()])));
    assert_eq!(all[2].return_type, int_type());
    assert_eq!(report.len(), 1);
    assert_eq!(report[0].instantiation, inst("Box", vec![param(1, 0)]));
    assert!(matches!(report[0].reason, Error::ExtraTemplateParametersLeft));

    let mut db = database("lib", items);
    let report = instantiate_templates_with_report(
        ProcessorData { current_database: &mut db, dep_databases: &deps },
        CandidatePolicy::FirstMatch,
    );
    let all = functions(&db);
    assert_eq!(all.len(), 2);
    assert_eq!(all[1].return_type, bool_type());
    assert!(report.is_empty());
}

#[test]
fn find_instantiations_follows_the_policy() {
    let mut db = database(
        "lib",
        vec![
            CppItemData::TemplateInstantiation(inst("A", vec![int_type()])),
            CppItemData::Enum { name: "B".to_string() },
            CppItemData::TemplateInstantiation(inst("B", vec![int_type()])),
            CppItemData::TemplateInstantiation(inst("B", vec![bool_type()])),
        ],
    );
    let deps = vec![database(
        "dep",
        vec![CppItemData::TemplateInstantiation(inst("B", vec![CppType::Void]))],
    )];
    let data = ProcessorData { current_database: &mut db, dep_databases: &deps };
    let items = data.all_items();
    let name = "B".to_string();
    assert_eq!(
        find_instantiations(&items, &name, CandidatePolicy::FirstMatch),
        vec![&inst("B", vec![int_type()])]
    );
    assert_eq!(
        find_instantiations(&items, &name, CandidatePolicy::EveryMatch),
        vec![
            &inst("B", vec![int_type()]),
            &inst("B", vec![bool_type()]),
            &inst("B", vec![CppType::Void])
        ]
    );
    let missing = "C".to_string();
    assert!(find_instantiations(&items, &missing, CandidatePolicy::FirstMatch).is_empty());
    assert!(find_instantiations(&items, &missing, CandidatePolicy::EveryMatch).is_empty());
}

#[test]
fn leftover_parameters_are_rejected_without_own_parameter_list() {
    let method = method_of(class_type("Box", Some(vec![param(0, 0)])), "get", param(0, 0));
    assert!(matches!(
        apply_instantiation_to_method(&method, 0, &inst("Box", vec![param(1, 0)])),
        Err(Error::ExtraTemplateParametersLeft)
    ));
    let unused = inst("Box", vec![int_type(), class("Other", Some(vec![param(1, 0)]))]);
    let r = apply_instantiation_to_method(&method, 0, &unused).unwrap();
    assert_eq!(r.return_type, int_type());
    assert!(r.all_involved_types().iter().all(|t| !t.is_or_contains_template_parameter()));
}
