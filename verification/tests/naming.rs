use cpp_to_rust_generator::cpp_ffi_data::ReturnValueAllocationPlace;
use cpp_to_rust_generator::cpp_function::{
    CppFunction, CppFunctionArgument, CppFunctionKind, CppFunctionMemberData,
};
use cpp_to_rust_generator::cpp_operator::{CppOperator, CppSymbolicOperator};
use cpp_to_rust_generator::cpp_type::{CppBuiltInNumericType, CppClassType, CppType};
use cpp_to_rust_generator::errors::Error;

fn empty_regular_method() -> CppFunction {
    CppFunction {
        name: String::new(),
        member: None,
        operator: None,
        return_type: CppType::Void,
        arguments: Vec::new(),
        template_arguments: None,
    }
}

fn membership(class_name: &str, kind: CppFunctionKind) -> CppFunctionMemberData {
    CppFunctionMemberData {
        class_type: CppClassType {
            name: class_name.to_string(),
            template_arguments: None,
        },
        kind,
        is_const: false,
        is_static: false,
    }
}

fn names(method: &CppFunction, include_file: &str) -> (String, String, String) {
    (
        method
            .c_base_name(ReturnValueAllocationPlace::NotApplicable, include_file)
            .unwrap(),
        method.c_base_name(ReturnValueAllocationPlace::Stack, include_file).unwrap(),
        method.c_base_name(ReturnValueAllocationPlace::Heap, include_file).unwrap(),
    )
}

#[test]
fn c_base_name_free_func() {
    let mut method = empty_regular_method();
    method.name = "func1".to_string();
    let (plain, stack, heap) = names(&method, "QRect");
    assert_eq!(plain, "QRect_G_func1");
    assert_eq!(stack, "QRect_G_func1_to_output");
    assert_eq!(heap, "QRect_G_func1_as_ptr");
}

#[test]
fn c_base_name_free_func_in_namespace() {
    let mut method = empty_regular_method();
    method.name = "ns::func1".to_string();
    let (plain, stack, heap) = names(&method, "QRect");
    assert_eq!(plain, "QRect_G_ns_func1");
    assert_eq!(stack, "QRect_G_ns_func1_to_output");
    assert_eq!(heap, "QRect_G_ns_func1_as_ptr");
}

#[test]
fn c_base_name_class_method() {
    let mut method = empty_regular_method();
    method.name = "func1".to_string();
    method.member = Some(membership("MyClass", CppFunctionKind::Regular));
    let (plain, stack, heap) = names(&method, "QRect");
    assert_eq!(plain, "MyClass_func1");
    assert_eq!(stack, "MyClass_func1_to_output");
    assert_eq!(heap, "MyClass_func1_as_ptr");
}

#[test]
fn c_base_name_class_method_in_namespace() {
    let mut method = empty_regular_method();
    method.name = "func1".to_string();
    method.member = Some(membership("ns1::MyClass", CppFunctionKind::Regular));
    let (plain, stack, heap) = names(&method, "QRect");
    assert_eq!(plain, "ns1_MyClass_func1");
    assert_eq!(stack, "ns1_MyClass_func1_to_output");
    assert_eq!(heap, "ns1_MyClass_func1_as_ptr");
}

#[test]
fn c_base_name_constructor() {
    let mut method = empty_regular_method();
    method.name = "QRect".to_string();
    method.member = Some(membership("QRect", CppFunctionKind::Constructor));
    assert!(matches!(
        method.c_base_name(ReturnValueAllocationPlace::NotApplicable, "QtCore"),
        Err(Error::AllocationPlaceNotApplicable)
    ));
    assert_eq!(
        method.c_base_name(ReturnValueAllocationPlace::Stack, "QtCore").unwrap(),
        "QRect_constructor"
    );
    assert_eq!(
        method.c_base_name(ReturnValueAllocationPlace::Heap, "QtCore").unwrap(),
        "QRect_new"
    );
}

#[test]
fn c_base_name_destructor() {
    let mut method = empty_regular_method();
    method.name = "~QRect".to_string();
    method.member = Some(membership("QRect", CppFunctionKind::Destructor));
    assert!(matches!(
        method.c_base_name(ReturnValueAllocationPlace::NotApplicable, "QtCore"),
        Err(Error::AllocationPlaceNotApplicable)
    ));
    assert_eq!(
        method.c_base_name(ReturnValueAllocationPlace::Stack, "QtCore").unwrap(),
        "QRect_destructor"
    );
    assert_eq!(
        method.c_base_name(ReturnValueAllocationPlace::Heap, "QtCore").unwrap(),
        "QRect_delete"
    );
}

#[test]
fn c_base_name_class_method_operator() {
    let mut method = empty_regular_method();
    method.name = "operator>".to_string();
    method.member = Some(membership("MyClass", CppFunctionKind::Regular));
    method.operator = Some(CppOperator::Symbolic(CppSymbolicOperator::GreaterThan));
    let (plain, stack, heap) = names(&method, "QRect");
    assert_eq!(plain, "MyClass_operator_gt");
    assert_eq!(stack, "MyClass_operator_gt_to_output");
    assert_eq!(heap, "MyClass_operator_gt_as_ptr");
}

#[test]
fn c_base_name_free_func_operator() {
    let mut method = empty_regular_method();
    method.name = "operator>".to_string();
    method.operator = Some(CppOperator::Symbolic(CppSymbolicOperator::GreaterThan));
    let (plain, stack, heap) = names(&method, "QRect");
    assert_eq!(plain, "QRect_G_operator_gt");
    assert_eq!(stack, "QRect_G_operator_gt_to_output");
    assert_eq!(heap, "QRect_G_operator_gt_as_ptr");
}

#[test]
fn c_base_name_conversion_operator() {
    let mut method = empty_regular_method();
    method.name = "operator const QPoint&".to_string();
    method.member = Some(membership("MyClass", CppFunctionKind::Regular));
    method.operator = Some(CppOperator::Conversion(CppType::new_reference(
        true,
        CppType::Class(CppClassType {
            name: "QPoint".to_string(),
            template_arguments: None,
        }),
    )));
    let (plain, stack, heap) = names(&method, "QRect");
    assert_eq!(plain, "MyClass_convert_to_const_QPoint_ref");
    assert_eq!(stack, "MyClass_convert_to_const_QPoint_ref_to_output");
    assert_eq!(heap, "MyClass_convert_to_const_QPoint_ref_as_ptr");
}

#[test]
fn c_base_name_of_instantiated_class() {
    let mut method = empty_regular_method();
    method.name = "get".to_string();
    method.member = Some(CppFunctionMemberData {
        class_type: CppClassType {
            name: "ns::Box".to_string(),
            template_arguments: Some(vec![
                CppType::BuiltInNumeric(CppBuiltInNumericType::UInt),
                CppType::new_pointer(true, CppType::Enum { name: "ns::Color".to_string() }),
            ]),
        },
        kind: CppFunctionKind::Regular,
        is_const: true,
        is_static: false,
    });
    assert_eq!(
        method.c_base_name(ReturnValueAllocationPlace::Stack, "Box").unwrap(),
        "ns_Box_unsigned_int_const_ns_Color_ptr_get_to_output"
    );
}

#[test]
fn c_base_name_fails_on_template_parameter() {
    let mut method = empty_regular_method();
    method.name = "get".to_string();
    method.member = Some(CppFunctionMemberData {
        class_type: CppClassType {
            name: "Box".to_string(),
            template_arguments: Some(vec![CppType::TemplateParameter {
                nested_level: 0,
                index: 0,
                name: "T".to_string(),
            }]),
        },
        kind: CppFunctionKind::Regular,
        is_const: false,
        is_static: false,
    });
    assert!(matches!(
        method.c_base_name(ReturnValueAllocationPlace::Stack, "Box"),
        Err(Error::UnexpectedTemplateParameter)
    ));
}

#[test]
fn operator_tokens() {
    assert_eq!(CppSymbolicOperator::Assignment.c_name(), "assign");
    assert_eq!(CppSymbolicOperator::UnaryMinus.c_name(), "neg");
    assert_eq!(CppSymbolicOperator::LessThanOrEqualTo.c_name(), "le");
    assert_eq!(CppSymbolicOperator::BitwiseLeftShiftAssignment.c_name(), "shl_assign");
    assert_eq!(CppSymbolicOperator::Subscript.c_name(), "index");
    assert_eq!(CppSymbolicOperator::DeleteArray.c_name(), "delete_array");
    assert_eq!(
        CppOperator::Symbolic(CppSymbolicOperator::FunctionCall).c_name().unwrap(),
        "call"
    );
    assert!(matches!(
        CppOperator::Conversion(CppType::Void).c_name(),
        Err(Error::ConversionOperatorHasNoToken)
    ));
}

#[test]
fn constructor_and_destructor_are_told_apart() {
    let mut method = empty_regular_method();
    assert!(!method.is_constructor());
    assert!(!method.is_destructor());
    method.member = Some(membership("QRect", CppFunctionKind::Constructor));
    assert!(method.is_constructor());
    assert!(!method.is_destructor());
    method.member = Some(membership("QRect", CppFunctionKind::Destructor));
    assert!(!method.is_constructor());
    assert!(method.is_destructor());
    method.member = Some(membership("QRect", CppFunctionKind::Regular));
    assert!(!method.is_constructor());
    assert!(!method.is_destructor());
}

#[test]
fn involved_types_are_listed_in_order() {
    let int_type = CppType::BuiltInNumeric(CppBuiltInNumericType::Int);
    let bool_type = CppType::BuiltInNumeric(CppBuiltInNumericType::Bool);
    let method = CppFunction {
        name: "operator int".to_string(),
        member: Some(CppFunctionMemberData {
            class_type: CppClassType { name: "A".to_string(), template_arguments: None },
            kind: CppFunctionKind::Regular,
            is_const: true,
            is_static: false,
        }),
        operator: Some(CppOperator::Conversion(int_type.clone())),
        return_type: int_type.clone(),
        arguments: vec![CppFunctionArgument {
            name: "flag".to_string(),
            argument_type: bool_type.clone(),
            has_default_value: false,
        }],
        template_arguments: Some(vec![CppType::Void]),
    };
    let receiver = CppType::new_pointer(
        true,
        CppType::Class(CppClassType { name: "A".to_string(), template_arguments: None }),
    );
    assert_eq!(
        method.all_involved_types(),
        vec![receiver, bool_type, int_type.clone(), int_type, CppType::Void]
    );
}
