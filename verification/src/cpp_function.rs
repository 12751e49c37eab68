//! Functions and methods of the wrapped library.

use crate::cpp_operator::{CppOperator, OperatorModel};
use crate::cpp_type::{
    clone_types, type_model, types_equal, types_model, ClassModel, CppClassType,
    CppPointerLikeTypeKind, CppType, TypeModel,
};
use vstd::prelude::*;

verus! {

/// What a method does for its class.
#[derive(Clone, Copy, Debug, PartialEq, Eq, Hash, Structural)]
pub enum CppFunctionKind {
    Regular,
    Constructor,
    Destructor,
}

/// An argument of a function.
#[derive(Debug)]
pub struct CppFunctionArgument {
    pub name: String,
    pub argument_type: CppType,
    pub has_default_value: bool,
}

/// What a method knows of the class that it belongs to.
#[derive(Debug)]
pub struct CppFunctionMemberData {
    pub class_type: CppClassType,
    pub kind: CppFunctionKind,
    /// Whether the method leaves its object unchanged.
    pub is_const: bool,
    /// Whether the method is called without an object.
    pub is_static: bool,
}

/// A function or a method.
#[derive(Debug)]
pub struct CppFunction {
    /// The qualified name; for a method, the name within its class.
    pub name: String,
    /// Present where the function is a method.
    pub member: Option<CppFunctionMemberData>,
    /// Present where the function is an operator.
    pub operator: Option<CppOperator>,
    pub return_type: CppType,
    pub arguments: Vec<CppFunctionArgument>,
    /// The template parameters of the function itself, or the values given
    /// to them.
    pub template_arguments: Option<Vec<CppType>>,
}

/// Model of an argument.
pub struct ArgumentModel {
    pub name: Seq<char>,
    pub argument_type: TypeModel,
    pub has_default_value: bool,
}

/// Model of a method's membership.
pub struct MemberModel {
    pub class_type: ClassModel,
    pub kind: CppFunctionKind,
    pub is_const: bool,
    pub is_static: bool,
}

/// Model of a function.
pub struct FunctionModel {
    pub name: Seq<char>,
    pub member: Option<MemberModel>,
    pub operator: Option<OperatorModel>,
    pub return_type: TypeModel,
    pub arguments: Seq<ArgumentModel>,
    pub template_arguments: Option<Seq<TypeModel>>,
}

impl View for CppFunctionArgument {
    type V = ArgumentModel;

    open spec fn view(&self) -> ArgumentModel {
        ArgumentModel {
            name: self.name@,
            argument_type: self.argument_type@,
            has_default_value: self.has_default_value,
        }
    }
}

impl View for CppFunctionMemberData {
    type V = MemberModel;

    open spec fn view(&self) -> MemberModel {
        MemberModel {
            class_type: self.class_type@,
            kind: self.kind,
            is_const: self.is_const,
            is_static: self.is_static,
        }
    }
}

/// The models of a list of arguments.
pub open spec fn arguments_model(args: Seq<CppFunctionArgument>) -> Seq<ArgumentModel> {
    Seq::new(args.len(), |i: int| args[i]@)
}

impl View for CppFunction {
    type V = FunctionModel;

    open spec fn view(&self) -> FunctionModel {
        FunctionModel {
            name: self.name@,
            member: match self.member {
                Some(m) => Some(m@),
                None => None,
            },
            operator: match self.operator {
                Some(op) => Some(op@),
                None => None,
            },
            return_type: self.return_type@,
            arguments: arguments_model(self.arguments@),
            template_arguments: match self.template_arguments {
                Some(ts) => Some(types_model(ts@)),
                None => None,
            },
        }
    }
}

/// The types of the arguments, in order.
pub open spec fn argument_types(args: Seq<ArgumentModel>) -> Seq<TypeModel> {
    Seq::new(args.len(), |i: int| args[i].argument_type)
}

/// The type of the object that a method is called on: a pointer to its
/// class, const where the method is.
pub open spec fn receiver_type(m: MemberModel) -> TypeModel {
    TypeModel::PointerLike {
        kind: CppPointerLikeTypeKind::Pointer,
        is_const: m.is_const,
        target: Box::new(TypeModel::Class(m.class_type)),
    }
}

/// Every type that the function mentions: the receiver of a method, the
/// argument types, the return type, the target of a conversion operator, and
/// the function's own template arguments, in this order.
pub open spec fn involved_types(f: FunctionModel) -> Seq<TypeModel> {
    (match f.member {
        Some(m) => seq![receiver_type(m)],
        None => Seq::empty(),
    }) + argument_types(f.arguments) + seq![f.return_type] + (match f.operator {
        Some(OperatorModel::Conversion(t)) => seq![t],
        _ => Seq::empty(),
    }) + (match f.template_arguments {
        Some(ts) => ts,
        None => Seq::empty(),
    })
}

impl Clone for CppFunctionArgument {
    fn clone(&self) -> (r: Self)
        ensures
            r@ == self@,
    {
        CppFunctionArgument {
            name: self.name.clone(),
            argument_type: self.argument_type.clone(),
            has_default_value: self.has_default_value,
        }
    }
}

impl Clone for CppFunctionMemberData {
    fn clone(&self) -> (r: Self)
        ensures
            r@ == self@,
    {
        CppFunctionMemberData {
            class_type: self.class_type.clone(),
            kind: self.kind,
            is_const: self.is_const,
            is_static: self.is_static,
        }
    }
}

/// Copies a list of arguments.
pub fn clone_arguments(args: &Vec<CppFunctionArgument>) -> (r: Vec<CppFunctionArgument>)
    ensures
        arguments_model(r@) == arguments_model(args@),
{
    let mut out: Vec<CppFunctionArgument> = Vec::new();
    let mut i: usize = 0;
    while i < args.len()
        invariant
            i <= args.len(),
            out.len() == i,
            forall|j: int| 0 <= j < i ==> (#[trigger] out@[j])@ == args@[j]@,
        decreases args.len() - i,
    {
        out.push(args[i].clone());
        i += 1;
    }
    out
}

impl Clone for CppFunction {
    fn clone(&self) -> (r: Self)
        ensures
            r@ == self@,
    {
        CppFunction {
            name: self.name.clone(),
            member: match &self.member {
                Some(m) => Some(m.clone()),
                None => None,
            },
            operator: match &self.operator {
                Some(op) => Some(op.clone()),
                None => None,
            },
            return_type: self.return_type.clone(),
            arguments: clone_arguments(&self.arguments),
            template_arguments: match &self.template_arguments {
                Some(ts) => Some(clone_types(ts)),
                None => None,
            },
        }
    }
}

impl PartialEq for CppFunctionArgument {
    fn eq(&self, other: &Self) -> (r: bool) {
        self.name == other.name && self.argument_type == other.argument_type
            && self.has_default_value == other.has_default_value
    }
}

impl vstd::std_specs::cmp::PartialEqSpecImpl for CppFunctionArgument {
    open spec fn obeys_eq_spec() -> bool {
        true
    }

    open spec fn eq_spec(&self, other: &Self) -> bool {
        self@ == other@
    }
}

impl Eq for CppFunctionArgument {

}

impl PartialEq for CppFunctionMemberData {
    fn eq(&self, other: &Self) -> (r: bool) {
        self.class_type == other.class_type && self.kind == other.kind && self.is_const
            == other.is_const && self.is_static == other.is_static
    }
}

impl vstd::std_specs::cmp::PartialEqSpecImpl for CppFunctionMemberData {
    open spec fn obeys_eq_spec() -> bool {
        true
    }

    open spec fn eq_spec(&self, other: &Self) -> bool {
        self@ == other@
    }
}

impl Eq for CppFunctionMemberData {

}

/// Whether two lists of arguments have the same models.
pub fn arguments_equal(a: &Vec<CppFunctionArgument>, b: &Vec<CppFunctionArgument>) -> (r: bool)
    ensures
        r == (arguments_model(a@) == arguments_model(b@)),
{
    if a.len() != b.len() {
        assert(arguments_model(a@).len() != arguments_model(b@).len());
        return false;
    }
    let mut i: usize = 0;
    while i < a.len()
        invariant
            i <= a.len(),
            a.len() == b.len(),
            forall|j: int| 0 <= j < i ==> (#[trigger] a@[j])@ == b@[j]@,
        decreases a.len() - i,
    {
        if a[i] != b[i] {
            assert(arguments_model(a@)[i as int] != arguments_model(b@)[i as int]);
            return false;
        }
        i += 1;
    }
    assert(arguments_model(a@) =~= arguments_model(b@));
    true
}

impl PartialEq for CppFunction {
    fn eq(&self, other: &Self) -> (r: bool) {
        let members = match (&self.member, &other.member) {
            (Some(a), Some(b)) => a == b,
            (None, None) => true,
            _ => false,
        };
        let operators = match (&self.operator, &other.operator) {
            (Some(a), Some(b)) => a == b,
            (None, None) => true,
            _ => false,
        };
        let template_arguments = match (&self.template_arguments, &other.template_arguments) {
            (Some(a), Some(b)) => types_equal(a, b),
            (None, None) => true,
            _ => false,
        };
        self.name == other.name && members && operators && self.return_type == other.return_type
            && arguments_equal(&self.arguments, &other.arguments) && template_arguments
    }
}

impl vstd::std_specs::cmp::PartialEqSpecImpl for CppFunction {
    open spec fn obeys_eq_spec() -> bool {
        true
    }

    open spec fn eq_spec(&self, other: &Self) -> bool {
        self@ == other@
    }
}

impl Eq for CppFunction {

}

impl CppFunction {
    /// Whether the function is a constructor.
    pub fn is_constructor(&self) -> (r: bool)
        ensures
            r == (self@.member matches Some(m) && m.kind == CppFunctionKind::Constructor),
    {
        match &self.member {
            Some(m) => m.kind == CppFunctionKind::Constructor,
            None => false,
        }
    }

    /// Whether the function is a destructor.
    pub fn is_destructor(&self) -> (r: bool)
        ensures
            r == (self@.member matches Some(m) && m.kind == CppFunctionKind::Destructor),
    {
        match &self.member {
            Some(m) => m.kind == CppFunctionKind::Destructor,
            None => false,
        }
    }

    /// Every type that the function mentions.
    pub fn all_involved_types(&self) -> (r: Vec<CppType>)
        ensures
            types_model(r@) == involved_types(self@),
    {
        let mut out: Vec<CppType> = Vec::new();
        if let Some(m) = &self.member {
            let class_type = CppType::Class(m.class_type.clone());
            out.push(CppType::new_pointer(m.is_const, class_type));
        }
        let ghost head = types_model(out@);
        let ghost s1 = match self@.member {
            Some(m) => seq![receiver_type(m)],
            None => Seq::empty(),
        };
        proof {
            assert(head =~= s1);
        }
        let mut i: usize = 0;
        while i < self.arguments.len()
            invariant
                i <= self.arguments.len(),
                types_model(out@) == head + argument_types(self@.arguments).take(i as int),
            decreases self.arguments.len() - i,
        {
            let ghost before = types_model(out@);
            out.push(self.arguments[i].argument_type.clone());
            proof {
                assert(types_model(out@) =~= before.push(self.arguments@[i as int].argument_type@));
            }
            i += 1;
        }
        proof {
            assert(argument_types(self@.arguments).take(i as int) =~= argument_types(
                self@.arguments,
            ));
        }
        out.push(self.return_type.clone());
        if let Some(CppOperator::Conversion(t)) = &self.operator {
            out.push(t.clone());
        }
        if let Some(ts) = &self.template_arguments {
            let ghost before = types_model(out@);
            let mut j: usize = 0;
            while j < ts.len()
                invariant
                    j <= ts.len(),
                    types_model(out@) == before + types_model(ts@).take(j as int),
                decreases ts.len() - j,
            {
                let ghost prev = types_model(out@);
                out.push(ts[j].clone());
                proof {
                    assert(types_model(out@) =~= prev.push(type_model(ts@[j as int])));
                }
                j += 1;
            }
        }
        out
    }
}

} // verus!
