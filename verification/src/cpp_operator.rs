//! Operators that a function of the wrapped library can implement.

use crate::cpp_type::{type_model, CppType, TypeModel};
use crate::errors::Error;
use vstd::prelude::*;

verus! {

/// An operator that is written with a symbol or a keyword.
#[derive(Clone, Copy, Debug, PartialEq, Eq, Hash, Structural)]
pub enum CppSymbolicOperator {
    Assignment,
    Addition,
    Subtraction,
    UnaryPlus,
    UnaryMinus,
    Multiplication,
    Division,
    Modulo,
    PrefixIncrement,
    PostfixIncrement,
    PrefixDecrement,
    PostfixDecrement,
    EqualTo,
    NotEqualTo,
    GreaterThan,
    LessThan,
    GreaterThanOrEqualTo,
    LessThanOrEqualTo,
    LogicalNot,
    LogicalAnd,
    LogicalOr,
    BitwiseNot,
    BitwiseAnd,
    BitwiseOr,
    BitwiseXor,
    BitwiseLeftShift,
    BitwiseRightShift,
    AdditionAssignment,
    SubtractionAssignment,
    MultiplicationAssignment,
    DivisionAssignment,
    ModuloAssignment,
    BitwiseAndAssignment,
    BitwiseOrAssignment,
    BitwiseXorAssignment,
    BitwiseLeftShiftAssignment,
    BitwiseRightShiftAssignment,
    Subscript,
    Indirection,
    AddressOf,
    StructureDereference,
    PointerToMember,
    FunctionCall,
    Comma,
    New,
    NewArray,
    Delete,
    DeleteArray,
}

/// The operator that a function implements.
#[derive(Debug)]
pub enum CppOperator {
    /// A conversion to the given type.
    Conversion(CppType),
    Symbolic(CppSymbolicOperator),
}

/// Model of an operator.
pub enum OperatorModel {
    Conversion(TypeModel),
    Symbolic(CppSymbolicOperator),
}

/// The token that stands for a symbolic operator in an identifier.
pub open spec fn symbol_token(op: CppSymbolicOperator) -> Seq<char> {
    match op {
        CppSymbolicOperator::Assignment => "assign"@,
        CppSymbolicOperator::Addition => "add"@,
        CppSymbolicOperator::Subtraction => "sub"@,
        CppSymbolicOperator::UnaryPlus => "unary_plus"@,
        CppSymbolicOperator::UnaryMinus => "neg"@,
        CppSymbolicOperator::Multiplication => "mul"@,
        CppSymbolicOperator::Division => "div"@,
        CppSymbolicOperator::Modulo => "rem"@,
        CppSymbolicOperator::PrefixIncrement => "inc"@,
        CppSymbolicOperator::PostfixIncrement => "inc_postfix"@,
        CppSymbolicOperator::PrefixDecrement => "dec"@,
        CppSymbolicOperator::PostfixDecrement => "dec_postfix"@,
        CppSymbolicOperator::EqualTo => "eq"@,
        CppSymbolicOperator::NotEqualTo => "neq"@,
        CppSymbolicOperator::GreaterThan => "gt"@,
        CppSymbolicOperator::LessThan => "lt"@,
        CppSymbolicOperator::GreaterThanOrEqualTo => "ge"@,
        CppSymbolicOperator::LessThanOrEqualTo => "le"@,
        CppSymbolicOperator::LogicalNot => "not"@,
        CppSymbolicOperator::LogicalAnd => "and"@,
        CppSymbolicOperator::LogicalOr => "or"@,
        CppSymbolicOperator::BitwiseNot => "bit_not"@,
        CppSymbolicOperator::BitwiseAnd => "bit_and"@,
        CppSymbolicOperator::BitwiseOr => "bit_or"@,
        CppSymbolicOperator::BitwiseXor => "bit_xor"@,
        CppSymbolicOperator::BitwiseLeftShift => "shl"@,
        CppSymbolicOperator::BitwiseRightShift => "shr"@,
        CppSymbolicOperator::AdditionAssignment => "add_assign"@,
        CppSymbolicOperator::SubtractionAssignment => "sub_assign"@,
        CppSymbolicOperator::MultiplicationAssignment => "mul_assign"@,
        CppSymbolicOperator::DivisionAssignment => "div_assign"@,
        CppSymbolicOperator::ModuloAssignment => "rem_assign"@,
        CppSymbolicOperator::BitwiseAndAssignment => "bit_and_assign"@,
        CppSymbolicOperator::BitwiseOrAssignment => "bit_or_assign"@,
        CppSymbolicOperator::BitwiseXorAssignment => "bit_xor_assign"@,
        CppSymbolicOperator::BitwiseLeftShiftAssignment => "shl_assign"@,
        CppSymbolicOperator::BitwiseRightShiftAssignment => "shr_assign"@,
        CppSymbolicOperator::Subscript => "index"@,
        CppSymbolicOperator::Indirection => "indirection"@,
        CppSymbolicOperator::AddressOf => "address_of"@,
        CppSymbolicOperator::StructureDereference => "struct_deref"@,
        CppSymbolicOperator::PointerToMember => "ptr_to_member"@,
        CppSymbolicOperator::FunctionCall => "call"@,
        CppSymbolicOperator::Comma => "comma"@,
        CppSymbolicOperator::New => "new"@,
        CppSymbolicOperator::NewArray => "new_array"@,
        CppSymbolicOperator::Delete => "delete"@,
        CppSymbolicOperator::DeleteArray => "delete_array"@,
    }
}

impl CppSymbolicOperator {
    /// The token that stands for the operator in an identifier.
    pub fn c_name(&self) -> (r: &'static str)
        ensures
            r@ == symbol_token(*self),
    {
        match self {
            CppSymbolicOperator::Assignment => "assign",
            CppSymbolicOperator::Addition => "add",
            CppSymbolicOperator::Subtraction => "sub",
            CppSymbolicOperator::UnaryPlus => "unary_plus",
            CppSymbolicOperator::UnaryMinus => "neg",
            CppSymbolicOperator::Multiplication => "mul",
            CppSymbolicOperator::Division => "div",
            CppSymbolicOperator::Modulo => "rem",
            CppSymbolicOperator::PrefixIncrement => "inc",
            CppSymbolicOperator::PostfixIncrement => "inc_postfix",
            CppSymbolicOperator::PrefixDecrement => "dec",
            CppSymbolicOperator::PostfixDecrement => "dec_postfix",
            CppSymbolicOperator::EqualTo => "eq",
            CppSymbolicOperator::NotEqualTo => "neq",
            CppSymbolicOperator::GreaterThan => "gt",
            CppSymbolicOperator::LessThan => "lt",
            CppSymbolicOperator::GreaterThanOrEqualTo => "ge",
            CppSymbolicOperator::LessThanOrEqualTo => "le",
            CppSymbolicOperator::LogicalNot => "not",
            CppSymbolicOperator::LogicalAnd => "and",
            CppSymbolicOperator::LogicalOr => "or",
            CppSymbolicOperator::BitwiseNot => "bit_not",
            CppSymbolicOperator::BitwiseAnd => "bit_and",
            CppSymbolicOperator::BitwiseOr => "bit_or",
            CppSymbolicOperator::BitwiseXor => "bit_xor",
            CppSymbolicOperator::BitwiseLeftShift => "shl",
            CppSymbolicOperator::BitwiseRightShift => "shr",
            CppSymbolicOperator::AdditionAssignment => "add_assign",
            CppSymbolicOperator::SubtractionAssignment => "sub_assign",
            CppSymbolicOperator::MultiplicationAssignment => "mul_assign",
            CppSymbolicOperator::DivisionAssignment => "div_assign",
            CppSymbolicOperator::ModuloAssignment => "rem_assign",
            CppSymbolicOperator::BitwiseAndAssignment => "bit_and_assign",
            CppSymbolicOperator::BitwiseOrAssignment => "bit_or_assign",
            CppSymbolicOperator::BitwiseXorAssignment => "bit_xor_assign",
            CppSymbolicOperator::BitwiseLeftShiftAssignment => "shl_assign",
            CppSymbolicOperator::BitwiseRightShiftAssignment => "shr_assign",
            CppSymbolicOperator::Subscript => "index",
            CppSymbolicOperator::Indirection => "indirection",
            CppSymbolicOperator::AddressOf => "address_of",
            CppSymbolicOperator::StructureDereference => "struct_deref",
            CppSymbolicOperator::PointerToMember => "ptr_to_member",
            CppSymbolicOperator::FunctionCall => "call",
            CppSymbolicOperator::Comma => "comma",
            CppSymbolicOperator::New => "new",
            CppSymbolicOperator::NewArray => "new_array",
            CppSymbolicOperator::Delete => "delete",
            CppSymbolicOperator::DeleteArray => "delete_array",
        }
    }
}

impl View for CppOperator {
    type V = OperatorModel;

    open spec fn view(&self) -> OperatorModel {
        match *self {
            CppOperator::Conversion(t) => OperatorModel::Conversion(type_model(t)),
            CppOperator::Symbolic(op) => OperatorModel::Symbolic(op),
        }
    }
}

impl Clone for CppOperator {
    fn clone(&self) -> (r: Self)
        ensures
            r@ == self@,
    {
        match self {
            CppOperator::Conversion(t) => CppOperator::Conversion(t.clone()),
            CppOperator::Symbolic(op) => CppOperator::Symbolic(*op),
        }
    }
}

impl PartialEq for CppOperator {
    fn eq(&self, other: &Self) -> (r: bool) {
        match (self, other) {
            (CppOperator::Conversion(a), CppOperator::Conversion(b)) => a == b,
            (CppOperator::Symbolic(a), CppOperator::Symbolic(b)) => *a == *b,
            _ => false,
        }
    }
}

impl vstd::std_specs::cmp::PartialEqSpecImpl for CppOperator {
    open spec fn obeys_eq_spec() -> bool {
        true
    }

    open spec fn eq_spec(&self, other: &Self) -> bool {
        self@ == other@
    }
}

impl Eq for CppOperator {

}

impl CppOperator {
    /// The token that stands for the operator in an identifier. A conversion
    /// operator has none.
    pub fn c_name(&self) -> (r: Result<&'static str, Error>)
        ensures
            match self@ {
                OperatorModel::Conversion(_) => r matches Err(Error::ConversionOperatorHasNoToken),
                OperatorModel::Symbolic(op) => r is Ok && r->Ok_0@ == symbol_token(op),
            },
    {
        match self {
            CppOperator::Conversion(_) => Err(Error::ConversionOperatorHasNoToken),
            CppOperator::Symbolic(op) => Ok(op.c_name()),
        }
    }
}

} // verus!
