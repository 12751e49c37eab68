use cpp_to_rust_generator::cpp_type::{
    CppBuiltInNumericType, CppClassType, CppFunctionPointerType, CppPointerLikeTypeKind, CppType,
    TypeCaptionStrategy,
};
use cpp_to_rust_generator::errors::Error;
use cpp_to_rust_generator::text::{flatten_scopes, join, spaces_to_underscores};

fn int_type() -> CppType {
    CppType::BuiltInNumeric(CppBuiltInNumericType::Int)
}

fn param(nested_level: usize, index: usize) -> CppType {
    CppType::TemplateParameter { nested_level, index, name: format!("T{}_{}", nested_level, index) }
}

fn class(name: &str, args: Option<Vec<CppType>>) -> CppType {
    CppType::Class(CppClassType { name: name.to_string(), template_arguments: args })
}

#[test]
fn flatten_scopes_replaces_each_separator() {
    assert_eq!(flatten_scopes("ns1::ns2::Class"), "ns1_ns2_Class");
    assert_eq!(flatten_scopes("plain"), "plain");
    assert_eq!(flatten_scopes(""), "");
    assert_eq!(flatten_scopes(":"), ":");
    assert_eq!(flatten_scopes("a:b"), "a:b");
    assert_eq!(flatten_scopes(":::"), "_:");
    assert_eq!(flatten_scopes("::::"), "__");
    assert_eq!(flatten_scopes("é::ü"), "é_ü");
}

#[test]
fn spaces_become_underscores() {
    assert_eq!(spaces_to_underscores("unsigned long long"), "unsigned_long_long");
    assert_eq!(spaces_to_underscores("int"), "int");
    assert_eq!(spaces_to_underscores(" "), "_");
    assert_eq!(spaces_to_underscores(""), "");
}

#[test]
fn join_puts_separator_between_parts() {
    assert_eq!(join(&vec![], ", "), "");
    assert_eq!(join(&vec!["a".to_string()], ", "), "a");
    assert_eq!(join(&vec!["a".to_string(), "b".to_string(), "".to_string()], ", "), "a, b, ");
}

#[test]
fn numeric_types_are_spelled() {
    assert_eq!(CppBuiltInNumericType::Bool.to_cpp_code(), "bool");
    assert_eq!(CppBuiltInNumericType::UChar.to_cpp_code(), "unsigned char");
    assert_eq!(CppBuiltInNumericType::ULongLong.to_cpp_code(), "unsigned long long");
    assert_eq!(CppBuiltInNumericType::LongDouble.to_cpp_code(), "long double");
    assert_eq!(
        CppType::BuiltInNumeric(CppBuiltInNumericType::ULongLong)
            .caption(TypeCaptionStrategy::Full)
            .unwrap(),
        "unsigned_long_long"
    );
}

#[test]
fn predicates_tell_variants_apart() {
    assert!(CppType::Void.is_void());
    assert!(!int_type().is_void());
    assert!(class("A", None).is_class());
    assert!(!CppType::new_pointer(false, class("A", None)).is_class());
    assert!(param(0, 0).is_template_parameter());
    assert!(!CppType::new_pointer(false, param(0, 0)).is_template_parameter());
    let f = CppType::FunctionPointer(CppFunctionPointerType {
        return_type: Box::new(CppType::Void),
        arguments: vec![],
        allows_variadic_arguments: false,
    });
    assert!(f.is_function_pointer());
    assert!(!int_type().is_function_pointer());
}

#[test]
fn contains_template_parameter_looks_inside() {
    assert!(param(0, 0).is_or_contains_template_parameter());
    assert!(!int_type().is_or_contains_template_parameter());
    assert!(!class("A", None).is_or_contains_template_parameter());
    assert!(!class("A", Some(vec![int_type()])).is_or_contains_template_parameter());
    assert!(class("A", Some(vec![int_type(), class("B", Some(vec![param(1, 0)]))]))
        .is_or_contains_template_parameter());
    assert!(CppType::new_reference(true, param(0, 1)).is_or_contains_template_parameter());
    let in_return = CppType::FunctionPointer(CppFunctionPointerType {
        return_type: Box::new(param(0, 0)),
        arguments: vec![int_type()],
        allows_variadic_arguments: false,
    });
    assert!(in_return.is_or_contains_template_parameter());
    let in_argument = CppType::FunctionPointer(CppFunctionPointerType {
        return_type: Box::new(int_type()),
        arguments: vec![int_type(), CppType::new_pointer(false, param(0, 0))],
        allows_variadic_arguments: false,
    });
    assert!(in_argument.is_or_contains_template_parameter());
}

#[test]
fn instantiate_replaces_parameters_of_one_depth() {
    let args = vec![int_type(), class("QString", None)];
    assert_eq!(param(0, 0).instantiate(0, &args).unwrap(), int_type());
    assert_eq!(param(0, 1).instantiate(0, &args).unwrap(), class("QString", None));
    assert_eq!(param(1, 0).instantiate(0, &args).unwrap(), param(1, 0));
    assert_eq!(int_type().instantiate(0, &args).unwrap(), int_type());

    let nested = CppType::new_reference(
        true,
        class("Map", Some(vec![param(0, 1), CppType::new_pointer(false, param(1, 0))])),
    );
    let expected = CppType::new_reference(
        true,
        class("Map", Some(vec![class("QString", None), CppType::new_pointer(false, param(1, 0))])),
    );
    assert_eq!(nested.instantiate(0, &args).unwrap(), expected);

    let function = CppType::FunctionPointer(CppFunctionPointerType {
        return_type: Box::new(param(0, 0)),
        arguments: vec![param(0, 1), param(2, 5)],
        allows_variadic_arguments: true,
    });
    let expected = CppType::FunctionPointer(CppFunctionPointerType {
        return_type: Box::new(int_type()),
        arguments: vec![class("QString", None), param(2, 5)],
        allows_variadic_arguments: true,
    });
    assert_eq!(function.instantiate(0, &args).unwrap(), expected);
}

#[test]
fn instantiate_fails_beyond_the_arguments() {
    let args = vec![int_type()];
    assert!(matches!(param(0, 1).instantiate(0, &args), Err(Error::NotEnoughTemplateArguments)));
    assert!(matches!(
        class("A", Some(vec![param(0, 0), param(0, 3)])).instantiate(0, &args),
        Err(Error::NotEnoughTemplateArguments)
    ));
    assert!(matches!(param(0, 0).instantiate(0, &vec![]), Err(Error::NotEnoughTemplateArguments)));
    assert_eq!(param(1, 7).instantiate(0, &vec![]).unwrap(), param(1, 7));
}

#[test]
fn instantiate_class_keeps_the_name() {
    let c = CppClassType { name: "Box".to_string(), template_arguments: Some(vec![param(0, 0)]) };
    let r = c.instantiate_class(0, &vec![int_type()]).unwrap();
    assert_eq!(r.name, "Box");
    assert_eq!(r.template_arguments, Some(vec![int_type()]));
    let plain = CppClassType { name: "QRect".to_string(), template_arguments: None };
    assert_eq!(plain.instantiate_class(0, &vec![]).unwrap(), plain);
}

#[test]
fn types_are_spelled() {
    assert_eq!(CppType::Void.to_cpp_code(None).unwrap(), "void");
    assert_eq!(CppType::Enum { name: "Qt::Key".to_string() }.to_cpp_code(None).unwrap(), "Qt::Key");
    assert_eq!(class("ns::A", None).to_cpp_code(None).unwrap(), "ns::A");
    assert_eq!(
        class("QMap", Some(vec![int_type(), CppType::new_pointer(true, class("B", None))]))
            .to_cpp_code(None)
            .unwrap(),
        "QMap< int, const B* >"
    );
    assert_eq!(
        CppType::new_reference(true, class("QPoint", None)).to_cpp_code(None).unwrap(),
        "const QPoint&"
    );
    assert_eq!(
        CppType::new_pointer(false, CppType::new_pointer(true, int_type()))
            .to_cpp_code(None)
            .unwrap(),
        "const int**"
    );
}

#[test]
fn spelling_fails_where_there_is_none() {
    assert!(matches!(param(0, 0).to_cpp_code(None), Err(Error::UnexpectedTemplateParameter)));
    assert!(matches!(
        int_type().to_cpp_code(Some("name")),
        Err(Error::UnexpectedFunctionPointerName)
    ));
    let function = |variadic: bool| {
        CppType::FunctionPointer(CppFunctionPointerType {
            return_type: Box::new(CppType::Void),
            arguments: vec![],
            allows_variadic_arguments: variadic,
        })
    };
    assert_eq!(function(false).to_cpp_code(Some("f")).unwrap(), "void (*f)()");
    assert!(matches!(function(false).to_cpp_code(None), Err(Error::MissingFunctionPointerName)));
    assert!(matches!(function(true).to_cpp_code(Some("f")), Err(Error::VariadicFunctionPointer)));
    assert!(matches!(
        CppType::new_pointer(false, function(false)).to_cpp_code(None),
        Err(Error::MissingFunctionPointerName)
    ));
    assert!(matches!(
        class("A", Some(vec![int_type(), param(0, 0)])).to_cpp_code(None),
        Err(Error::UnexpectedTemplateParameter)
    ));
}

#[test]
fn captions_follow_the_strategy() {
    let t = CppType::new_reference(true, class("ns::QPoint", None));
    assert_eq!(t.caption(TypeCaptionStrategy::Short).unwrap(), "ns_QPoint");
    assert_eq!(t.caption(TypeCaptionStrategy::Full).unwrap(), "const_ns_QPoint_ref");
    let t = CppType::new_pointer(false, CppType::new_pointer(true, CppType::Void));
    assert_eq!(t.caption(TypeCaptionStrategy::Short).unwrap(), "void");
    assert_eq!(t.caption(TypeCaptionStrategy::Full).unwrap(), "const_void_ptr_ptr");
    let t = class("QList", Some(vec![CppType::new_pointer(false, class("QObject", None))]));
    assert_eq!(t.caption(TypeCaptionStrategy::Short).unwrap(), "QList_QObject");
    assert_eq!(t.caption(TypeCaptionStrategy::Full).unwrap(), "QList_QObject_ptr");
    assert_eq!(
        CppType::Enum { name: "Qt::Key".to_string() }.caption(TypeCaptionStrategy::Full).unwrap(),
        "Qt_Key"
    );
    let f = CppType::FunctionPointer(CppFunctionPointerType {
        return_type: Box::new(CppType::Void),
        arguments: vec![],
        allows_variadic_arguments: false,
    });
    assert_eq!(f.caption(TypeCaptionStrategy::Short).unwrap(), "func");
    assert_eq!(f.caption(TypeCaptionStrategy::Full).unwrap(), "void_func_");
    let generic = CppType::FunctionPointer(CppFunctionPointerType {
        return_type: Box::new(param(0, 0)),
        arguments: vec![],
        allows_variadic_arguments: false,
    });
    assert_eq!(generic.caption(TypeCaptionStrategy::Short).unwrap(), "func");
    assert!(matches!(
        generic.caption(TypeCaptionStrategy::Full),
        Err(Error::UnexpectedTemplateParameter)
    ));
    assert!(matches!(
        param(0, 0).caption(TypeCaptionStrategy::Short),
        Err(Error::UnexpectedTemplateParameter)
    ));
}

#[test]
fn equality_compares_all_parts() {
    assert_eq!(param(0, 0), param(0, 0));
    assert_ne!(param(0, 0), param(0, 1));
    assert_ne!(param(0, 0), param(1, 0));
    assert_ne!(
        param(0, 0),
        CppType::TemplateParameter { nested_level: 0, index: 0, name: "U".to_string() }
    );
    assert_ne!(CppType::new_pointer(true, int_type()), CppType::new_pointer(false, int_type()));
    assert_ne!(CppType::new_pointer(true, int_type()), CppType::new_reference(true, int_type()));
    assert_eq!(
        CppType::new_pointer(true, int_type()),
        CppType::PointerLike {
            kind: CppPointerLikeTypeKind::Pointer,
            is_const: true,
            target: Box::new(int_type()),
        }
    );
    assert_ne!(class("A", None), class("A", Some(vec![])));
    assert_ne!(class("A", Some(vec![int_type()])), class("A", Some(vec![int_type(), int_type()])));
    assert_ne!(class("A", Some(vec![int_type()])), class("B", Some(vec![int_type()])));
    assert_ne!(class("A", None), CppType::Enum { name: "A".to_string() });
    let deep = class("A", Some(vec![CppType::new_pointer(false, class("B", Some(vec![param(3, 4)])))]));
    assert_eq!(deep.clone(), deep);
}

#[test]
fn well_formed_types_have_no_empty_argument_list() {
    assert!(int_type().is_well_formed());
    assert!(param(0, 0).is_well_formed());
    assert!(class("A", None).is_well_formed());
    assert!(class("A", Some(vec![int_type()])).is_well_formed());
    assert!(!class("A", Some(vec![])).is_well_formed());
    assert!(!CppType::new_pointer(false, class("A", Some(vec![]))).is_well_formed());
    assert!(!class("A", Some(vec![int_type(), class("B", Some(vec![]))])).is_well_formed());
    let function = |ret: CppType, arg: CppType| {
        CppType::FunctionPointer(CppFunctionPointerType {
            return_type: Box::new(ret),
            arguments: vec![arg],
            allows_variadic_arguments: false,
        })
    };
    assert!(function(int_type(), class("A", Some(vec![param(0, 0)]))).is_well_formed());
    assert!(!function(class("A", Some(vec![])), int_type()).is_well_formed());
    assert!(!function(int_type(), class("A", Some(vec![]))).is_well_formed());
}
