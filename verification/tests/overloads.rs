use cpp_to_rust_generator::cpp_ffi_data::{
    ArgumentCaptionStrategy, CppFfiArgumentMeaning, CppFfiFunctionArgument, CppFfiFunctionSignature,
    CppFfiType, CppTypeConversionToFfi, MethodCaptionStrategy,
};
use cpp_to_rust_generator::cpp_type::{
    CppBuiltInNumericType, CppClassType, CppType, TypeCaptionStrategy,
};
use cpp_to_rust_generator::errors::Error;
use cpp_to_rust_generator::overloads::{
    all_distinct, captions_for, choose_caption_strategy, exported_names,
};

fn plain(t: CppType) -> CppFfiType {
    CppFfiType {
        original_type: t.clone(),
        ffi_type: t,
        conversion: CppTypeConversionToFfi::NoChange,
    }
}

fn numeric(kind: CppBuiltInNumericType) -> CppType {
    CppType::BuiltInNumeric(kind)
}

fn signature(receiver_const: Option<bool>, args: Vec<(&str, CppType)>) -> CppFfiFunctionSignature {
    let mut arguments = Vec::new();
    if let Some(is_const) = receiver_const {
        arguments.push(CppFfiFunctionArgument {
            name: "this_ptr".to_string(),
            argument_type: plain(CppType::new_pointer(
                is_const,
                CppType::Class(CppClassType { name: "A".to_string(), template_arguments: None }),
            )),
            meaning: CppFfiArgumentMeaning::This,
        });
    }
    for (i, (name, t)) in args.into_iter().enumerate() {
        arguments.push(CppFfiFunctionArgument {
            name: name.to_string(),
            argument_type: plain(t),
            meaning: CppFfiArgumentMeaning::Argument(i as i8),
        });
    }
    CppFfiFunctionSignature { arguments, return_type: CppFfiType::void() }
}

#[test]
fn strategies_are_tried_from_the_most_terse() {
    assert_eq!(
        ArgumentCaptionStrategy::all(),
        vec![
            ArgumentCaptionStrategy::NameOnly,
            ArgumentCaptionStrategy::TypeOnly(TypeCaptionStrategy::Short),
            ArgumentCaptionStrategy::TypeOnly(TypeCaptionStrategy::Full),
            ArgumentCaptionStrategy::TypeAndName(TypeCaptionStrategy::Short),
            ArgumentCaptionStrategy::TypeAndName(TypeCaptionStrategy::Full),
        ]
    );
    let all = MethodCaptionStrategy::all();
    assert_eq!(all.len(), 11);
    assert_eq!(all[0], MethodCaptionStrategy::ArgumentsOnly(ArgumentCaptionStrategy::NameOnly));
    assert_eq!(
        all[4],
        MethodCaptionStrategy::ArgumentsOnly(ArgumentCaptionStrategy::TypeAndName(
            TypeCaptionStrategy::Full
        ))
    );
    assert_eq!(all[5], MethodCaptionStrategy::ConstOnly);
    assert_eq!(all[6], MethodCaptionStrategy::ConstAndArguments(ArgumentCaptionStrategy::NameOnly));
    assert_eq!(
        all[10],
        MethodCaptionStrategy::ConstAndArguments(ArgumentCaptionStrategy::TypeAndName(
            TypeCaptionStrategy::Full
        ))
    );
}

#[test]
fn single_function_keeps_the_base_name() {
    let sigs = vec![signature(None, vec![("x", numeric(CppBuiltInNumericType::Int))])];
    assert_eq!(exported_names("QRect_G_func1", &sigs).unwrap(), vec!["QRect_G_func1"]);
    assert_eq!(exported_names("base", &vec![]).unwrap(), Vec::<String>::new());
}

#[test]
fn overloads_differing_in_names_get_name_captions() {
    let sigs = vec![
        signature(None, vec![("x", numeric(CppBuiltInNumericType::Int))]),
        signature(None, vec![("x", numeric(CppBuiltInNumericType::Int)), ("y", numeric(CppBuiltInNumericType::Int))]),
        signature(None, vec![]),
    ];
    assert_eq!(
        choose_caption_strategy(&sigs),
        Some(MethodCaptionStrategy::ArgumentsOnly(ArgumentCaptionStrategy::NameOnly))
    );
    assert_eq!(exported_names("f", &sigs).unwrap(), vec!["f_x", "f_x_y", "f_no_args"]);
}

#[test]
fn overloads_differing_in_types_get_type_captions() {
    let sigs = vec![
        signature(None, vec![("x", numeric(CppBuiltInNumericType::Int))]),
        signature(None, vec![("x", numeric(CppBuiltInNumericType::Double))]),
    ];
    assert_eq!(
        choose_caption_strategy(&sigs),
        Some(MethodCaptionStrategy::ArgumentsOnly(ArgumentCaptionStrategy::TypeOnly(
            TypeCaptionStrategy::Short
        )))
    );
    assert_eq!(exported_names("f", &sigs).unwrap(), vec!["f_int", "f_double"]);
}

#[test]
fn overloads_differing_in_indirection_get_full_captions() {
    let int_type = numeric(CppBuiltInNumericType::Int);
    let sigs = vec![
        signature(None, vec![("x", int_type.clone())]),
        signature(None, vec![("x", CppType::new_pointer(false, int_type.clone()))]),
        signature(None, vec![("x", CppType::new_pointer(true, int_type))]),
    ];
    assert_eq!(
        choose_caption_strategy(&sigs),
        Some(MethodCaptionStrategy::ArgumentsOnly(ArgumentCaptionStrategy::TypeOnly(
            TypeCaptionStrategy::Full
        )))
    );
    assert_eq!(
        exported_names("f", &sigs).unwrap(),
        vec!["f_int", "f_int_ptr", "f_const_int_ptr"]
    );
}

#[test]
fn overloads_differing_in_constness_get_const_captions() {
    let sigs = vec![signature(Some(false), vec![]), signature(Some(true), vec![])];
    assert_eq!(choose_caption_strategy(&sigs), Some(MethodCaptionStrategy::ConstOnly));
    assert_eq!(exported_names("A_f", &sigs).unwrap(), vec!["A_f", "A_f_const"]);
    let sigs = vec![
        signature(Some(false), vec![("x", numeric(CppBuiltInNumericType::Int))]),
        signature(Some(true), vec![("x", numeric(CppBuiltInNumericType::Int))]),
        signature(Some(true), vec![("y", numeric(CppBuiltInNumericType::Int))]),
    ];
    assert_eq!(
        choose_caption_strategy(&sigs),
        Some(MethodCaptionStrategy::ConstAndArguments(ArgumentCaptionStrategy::NameOnly))
    );
    assert_eq!(exported_names("A_f", &sigs).unwrap(), vec!["A_f_x", "A_f_const_x", "A_f_const_y"]);
}

#[test]
fn same_signatures_cannot_be_told_apart() {
    let sigs = vec![
        signature(Some(true), vec![("x", numeric(CppBuiltInNumericType::Int))]),
        signature(Some(true), vec![("x", numeric(CppBuiltInNumericType::Int))]),
    ];
    assert_eq!(choose_caption_strategy(&sigs), None);
    assert!(matches!(exported_names("A_f", &sigs), Err(Error::AmbiguousOverloads)));
}

#[test]
fn strategies_that_fail_are_passed_over() {
    let param = CppType::TemplateParameter { nested_level: 0, index: 0, name: "T".to_string() };
    let sigs = vec![
        signature(None, vec![("x", param.clone())]),
        signature(None, vec![("x", numeric(CppBuiltInNumericType::Int))]),
    ];
    assert!(matches!(
        captions_for(
            &sigs,
            MethodCaptionStrategy::ArgumentsOnly(ArgumentCaptionStrategy::TypeOnly(
                TypeCaptionStrategy::Short
            ))
        ),
        Err(Error::UnexpectedTemplateParameter)
    ));
    assert_eq!(
        captions_for(&sigs, MethodCaptionStrategy::ArgumentsOnly(ArgumentCaptionStrategy::NameOnly))
            .unwrap(),
        vec!["x", "x"]
    );
    assert_eq!(choose_caption_strategy(&sigs), None);
}

#[test]
fn all_distinct_compares_every_pair() {
    assert!(all_distinct(&vec![]));
    assert!(all_distinct(&vec!["a".to_string()]));
    assert!(all_distinct(&vec!["a".to_string(), "b".to_string(), "c".to_string()]));
    assert!(!all_distinct(&vec!["a".to_string(), "b".to_string(), "a".to_string()]));
    assert!(!all_distinct(&vec!["a".to_string(), "b".to_string(), "b".to_string()]));
}
