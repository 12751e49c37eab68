//! The type model: a closed recursive variant for the types of the wrapped
//! library, its mathematical model, and the operations on it.

use crate::errors::{text_result_is, texts_result_is, texts_then, Error};
use crate::text::{
    char_replaced, flatten_scopes, join, joined, scopes_flattened, spaces_to_underscores, texts_of,
};
use vstd::prelude::*;

verus! {

/// Built-in numeric and boolean types.
#[derive(Clone, Copy, Debug, PartialEq, Eq, Hash, Structural)]
pub enum CppBuiltInNumericType {
    Bool,
    Char,
    SChar,
    UChar,
    WChar,
    Char16,
    Char32,
    Short,
    UShort,
    Int,
    UInt,
    Long,
    ULong,
    LongLong,
    ULongLong,
    Int128,
    UInt128,
    Float,
    Double,
    LongDouble,
}

/// How much of a type a caption shows.
#[derive(Clone, Copy, Debug, PartialEq, Eq, Hash, Structural)]
pub enum TypeCaptionStrategy {
    /// The base type only: indirection and qualifiers are dropped, and a
    /// function pointer is the single token `func`.
    Short,
    /// The base type with its indirection and qualifiers.
    Full,
}

/// The indirection that a wrapper adds to its target.
#[derive(Clone, Copy, Debug, PartialEq, Eq, Hash, Structural)]
pub enum CppPointerLikeTypeKind {
    Pointer,
    Reference,
}

/// A class type: its qualified name and, for a template class, its
/// template arguments.
#[derive(Debug)]
pub struct CppClassType {
    pub name: String,
    pub template_arguments: Option<Vec<CppType>>,
}

/// A function-pointer type.
#[derive(Debug)]
pub struct CppFunctionPointerType {
    pub return_type: Box<CppType>,
    pub arguments: Vec<CppType>,
    pub allows_variadic_arguments: bool,
}

/// A type of the wrapped library.
#[derive(Debug)]
pub enum CppType {
    Void,
    BuiltInNumeric(CppBuiltInNumericType),
    Enum { name: String },
    Class(CppClassType),
    /// A placeholder of a template, found by the depth of the template that
    /// declares it and its position in that template's parameter list.
    TemplateParameter { nested_level: usize, index: usize, name: String },
    FunctionPointer(CppFunctionPointerType),
    PointerLike { kind: CppPointerLikeTypeKind, is_const: bool, target: Box<CppType> },
}

/// Model of a class type.
pub struct ClassModel {
    pub name: Seq<char>,
    pub template_arguments: Option<Seq<TypeModel>>,
}

/// Model of a type.
pub enum TypeModel {
    Void,
    BuiltInNumeric(CppBuiltInNumericType),
    Enum { name: Seq<char> },
    Class(ClassModel),
    TemplateParameter { nested_level: nat, index: nat, name: Seq<char> },
    FunctionPointer {
        return_type: Box<TypeModel>,
        arguments: Seq<TypeModel>,
        allows_variadic_arguments: bool,
    },
    PointerLike { kind: CppPointerLikeTypeKind, is_const: bool, target: Box<TypeModel> },
}

/// The models of a list of types.
pub open spec fn types_model(ts: Seq<CppType>) -> Seq<TypeModel>
    decreases ts, 0nat,
{
    Seq::new(
        ts.len(),
        |i: int|
            if 0 <= i < ts.len() {
                type_model(ts[i])
            } else {
                TypeModel::Void
            },
    )
}

/// The model of a type.
pub open spec fn type_model(t: CppType) -> TypeModel
    decreases t, 1nat,
{
    match t {
        CppType::Void => TypeModel::Void,
        CppType::BuiltInNumeric(kind) => TypeModel::BuiltInNumeric(kind),
        CppType::Enum { name } => TypeModel::Enum { name: name@ },
        CppType::Class(c) => TypeModel::Class(
            ClassModel {
                name: c.name@,
                template_arguments: match c.template_arguments {
                    Some(args) => Some(types_model(args@)),
                    None => None,
                },
            },
        ),
        CppType::TemplateParameter { nested_level, index, name } => TypeModel::TemplateParameter {
            nested_level: nested_level as nat,
            index: index as nat,
            name: name@,
        },
        CppType::FunctionPointer(f) => TypeModel::FunctionPointer {
            return_type: Box::new(type_model(*f.return_type)),
            arguments: types_model(f.arguments@),
            allows_variadic_arguments: f.allows_variadic_arguments,
        },
        CppType::PointerLike { kind, is_const, target } => TypeModel::PointerLike {
            kind,
            is_const,
            target: Box::new(type_model(*target)),
        },
    }
}

/// The model of a class type.
pub open spec fn class_model(c: CppClassType) -> ClassModel {
    ClassModel {
        name: c.name@,
        template_arguments: match c.template_arguments {
            Some(args) => Some(types_model(args@)),
            None => None,
        },
    }
}

impl View for CppClassType {
    type V = ClassModel;

    open spec fn view(&self) -> ClassModel {
        class_model(*self)
    }
}

impl View for CppType {
    type V = TypeModel;

    open spec fn view(&self) -> TypeModel {
        type_model(*self)
    }
}

/// Whether each of the types is well formed.
pub open spec fn all_well_formed(ts: Seq<TypeModel>) -> bool
    decreases ts, 0nat,
{
    forall|i: int| 0 <= i < ts.len() ==> well_formed(#[trigger] ts[i])
}

/// Whether the type is well formed: wherever a class type in it has a list
/// of template arguments, the list is not empty.
pub open spec fn well_formed(t: TypeModel) -> bool
    decreases t, 1nat,
{
    match t {
        TypeModel::Class(c) => match c.template_arguments {
            Some(args) => args.len() > 0 && all_well_formed(args),
            None => true,
        },
        TypeModel::FunctionPointer { return_type, arguments, .. } => well_formed(*return_type)
            && all_well_formed(arguments),
        TypeModel::PointerLike { target, .. } => well_formed(*target),
        _ => true,
    }
}

/// Whether one of the types is or contains a template parameter.
pub open spec fn any_contains_parameter(ts: Seq<TypeModel>) -> bool
    decreases ts, 0nat,
{
    exists|i: int| 0 <= i < ts.len() && contains_parameter(#[trigger] ts[i])
}

/// Whether the type is a template parameter or holds one in a template
/// argument, a pointee, or the return or argument types of a function pointer.
pub open spec fn contains_parameter(t: TypeModel) -> bool
    decreases t, 1nat,
{
    match t {
        TypeModel::TemplateParameter { .. } => true,
        TypeModel::Class(c) => match c.template_arguments {
            Some(args) => any_contains_parameter(args),
            None => false,
        },
        TypeModel::FunctionPointer { return_type, arguments, .. } => contains_parameter(
            *return_type,
        ) || any_contains_parameter(arguments),
        TypeModel::PointerLike { target, .. } => contains_parameter(*target),
        _ => false,
    }
}

/// Whether one of the types holds a template parameter of the given depth.
pub open spec fn any_contains_parameter_at(ts: Seq<TypeModel>, depth: nat) -> bool
    decreases ts, 0nat,
{
    exists|i: int| 0 <= i < ts.len() && contains_parameter_at(#[trigger] ts[i], depth)
}

/// Whether the type is or holds a template parameter of the given depth.
pub open spec fn contains_parameter_at(t: TypeModel, depth: nat) -> bool
    decreases t, 1nat,
{
    match t {
        TypeModel::TemplateParameter { nested_level, .. } => nested_level == depth,
        TypeModel::Class(c) => match c.template_arguments {
            Some(args) => any_contains_parameter_at(args, depth),
            None => false,
        },
        TypeModel::FunctionPointer { return_type, arguments, .. } => contains_parameter_at(
            *return_type,
            depth,
        ) || any_contains_parameter_at(arguments, depth),
        TypeModel::PointerLike { target, .. } => contains_parameter_at(*target, depth),
        _ => false,
    }
}

/// Whether one of the types mentions the template parameter of the given
/// depth and index.
pub open spec fn any_mentions_parameter(ts: Seq<TypeModel>, depth: nat, index: nat) -> bool
    decreases ts, 0nat,
{
    exists|i: int| 0 <= i < ts.len() && mentions_parameter(#[trigger] ts[i], depth, index)
}

/// Whether the type is or holds the template parameter of the given depth and
/// index.
pub open spec fn mentions_parameter(t: TypeModel, depth: nat, index: nat) -> bool
    decreases t, 1nat,
{
    match t {
        TypeModel::TemplateParameter { nested_level, index: i, .. } => nested_level == depth && i
            == index,
        TypeModel::Class(c) => match c.template_arguments {
            Some(args) => any_mentions_parameter(args, depth, index),
            None => false,
        },
        TypeModel::FunctionPointer { return_type, arguments, .. } => mentions_parameter(
            *return_type,
            depth,
            index,
        ) || any_mentions_parameter(arguments, depth, index),
        TypeModel::PointerLike { target, .. } => mentions_parameter(*target, depth, index),
        _ => false,
    }
}

/// Whether every template parameter of the given depth in the types has an
/// index below `count`.
pub open spec fn all_indices_within(ts: Seq<TypeModel>, depth: nat, count: nat) -> bool
    decreases ts, 0nat,
{
    forall|i: int| 0 <= i < ts.len() ==> indices_within(#[trigger] ts[i], depth, count)
}

/// Whether every template parameter of the given depth in the type has an
/// index below `count`.
pub open spec fn indices_within(t: TypeModel, depth: nat, count: nat) -> bool
    decreases t, 1nat,
{
    match t {
        TypeModel::TemplateParameter { nested_level, index, .. } => nested_level == depth ==> index
            < count,
        TypeModel::Class(c) => match c.template_arguments {
            Some(args) => all_indices_within(args, depth, count),
            None => true,
        },
        TypeModel::FunctionPointer { return_type, arguments, .. } => indices_within(
            *return_type,
            depth,
            count,
        ) && all_indices_within(arguments, depth, count),
        TypeModel::PointerLike { target, .. } => indices_within(*target, depth, count),
        _ => true,
    }
}

/// Each of the types after the substitution.
pub open spec fn all_substituted(ts: Seq<TypeModel>, depth: nat, args: Seq<TypeModel>) -> Seq<
    TypeModel,
>
    decreases ts, 0nat,
{
    Seq::new(
        ts.len(),
        |i: int|
            if 0 <= i < ts.len() {
                substituted(ts[i], depth, args)
            } else {
                TypeModel::Void
            },
    )
}

/// The type with every template parameter of the given depth replaced by the
/// argument at its index. Parameters of other depths stay, and so do
/// qualifiers and indirection.
pub open spec fn substituted(t: TypeModel, depth: nat, args: Seq<TypeModel>) -> TypeModel
    decreases t, 1nat,
{
    match t {
        TypeModel::TemplateParameter { nested_level, index, .. } => if nested_level == depth
            && index < args.len() {
            args[index as int]
        } else {
            t
        },
        TypeModel::Class(c) => TypeModel::Class(
            ClassModel {
                name: c.name,
                template_arguments: match c.template_arguments {
                    Some(targs) => Some(all_substituted(targs, depth, args)),
                    None => None,
                },
            },
        ),
        TypeModel::FunctionPointer {
            return_type,
            arguments,
            allows_variadic_arguments,
        } => TypeModel::FunctionPointer {
            return_type: Box::new(substituted(*return_type, depth, args)),
            arguments: all_substituted(arguments, depth, args),
            allows_variadic_arguments,
        },
        TypeModel::PointerLike { kind, is_const, target } => TypeModel::PointerLike {
            kind,
            is_const,
            target: Box::new(substituted(*target, depth, args)),
        },
        _ => t,
    }
}

/// The class type after the substitution.
pub open spec fn class_substituted(c: ClassModel, depth: nat, args: Seq<TypeModel>) -> ClassModel {
    ClassModel {
        name: c.name,
        template_arguments: match c.template_arguments {
            Some(targs) => Some(all_substituted(targs, depth, args)),
            None => None,
        },
    }
}

/// Whether every template parameter of the given depth in the class type has
/// an index below `count`.
pub open spec fn class_indices_within(c: ClassModel, depth: nat, count: nat) -> bool {
    match c.template_arguments {
        Some(args) => all_indices_within(args, depth, count),
        None => true,
    }
}

/// How a built-in numeric type is spelled.
pub open spec fn numeric_code(kind: CppBuiltInNumericType) -> Seq<char> {
    match kind {
        CppBuiltInNumericType::Bool => "bool"@,
        CppBuiltInNumericType::Char => "char"@,
        CppBuiltInNumericType::SChar => "signed char"@,
        CppBuiltInNumericType::UChar => "unsigned char"@,
        CppBuiltInNumericType::WChar => "wchar_t"@,
        CppBuiltInNumericType::Char16 => "char16_t"@,
        CppBuiltInNumericType::Char32 => "char32_t"@,
        CppBuiltInNumericType::Short => "short"@,
        CppBuiltInNumericType::UShort => "unsigned short"@,
        CppBuiltInNumericType::Int => "int"@,
        CppBuiltInNumericType::UInt => "unsigned int"@,
        CppBuiltInNumericType::Long => "long"@,
        CppBuiltInNumericType::ULong => "unsigned long"@,
        CppBuiltInNumericType::LongLong => "long long"@,
        CppBuiltInNumericType::ULongLong => "unsigned long long"@,
        CppBuiltInNumericType::Int128 => "__int128_t"@,
        CppBuiltInNumericType::UInt128 => "__uint128_t"@,
        CppBuiltInNumericType::Float => "float"@,
        CppBuiltInNumericType::Double => "double"@,
        CppBuiltInNumericType::LongDouble => "long double"@,
    }
}

/// The view of an optional text.
pub open spec fn text_option(o: Option<&str>) -> Option<Seq<char>> {
    match o {
        Some(s) => Some(s@),
        None => None,
    }
}

/// The spellings of the types in order, or the first failure.
pub open spec fn codes_of(ts: Seq<TypeModel>) -> Result<Seq<Seq<char>>, Error>
    decreases ts, 0nat,
{
    if ts.len() == 0 {
        Ok(Seq::empty())
    } else {
        match code_of(ts.first(), None) {
            Err(e) => Err(e),
            Ok(code) => match codes_of(ts.drop_first()) {
                Err(e) => Err(e),
                Ok(codes) => Ok(seq![code] + codes),
            },
        }
    }
}

/// How the type is spelled in a declaration. A function pointer is spelled
/// around the name `inner`, and no other type takes a name.
pub open spec fn code_of(t: TypeModel, inner: Option<Seq<char>>) -> Result<Seq<char>, Error>
    decreases t, 1nat,
{
    if !(t is FunctionPointer) && inner is Some {
        Err(Error::UnexpectedFunctionPointerName)
    } else {
        match t {
            TypeModel::Void => Ok("void"@),
            TypeModel::BuiltInNumeric(kind) => Ok(numeric_code(kind)),
            TypeModel::Enum { name } => Ok(name),
            TypeModel::Class(c) => match c.template_arguments {
                Some(args) => match codes_of(args) {
                    Err(e) => Err(e),
                    Ok(codes) => Ok(c.name + "< "@ + joined(codes, ", "@) + " >"@),
                },
                None => Ok(c.name),
            },
            TypeModel::TemplateParameter { .. } => Err(Error::UnexpectedTemplateParameter),
            TypeModel::FunctionPointer { return_type, arguments, allows_variadic_arguments } => {
                if allows_variadic_arguments {
                    Err(Error::VariadicFunctionPointer)
                } else if inner is None {
                    Err(Error::MissingFunctionPointerName)
                } else {
                    match code_of(*return_type, None) {
                        Err(e) => Err(e),
                        Ok(ret) => match codes_of(arguments) {
                            Err(e) => Err(e),
                            Ok(codes) => Ok(
                                ret + " (*"@ + inner->0 + ")("@ + joined(codes, ", "@) + ")"@,
                            ),
                        },
                    }
                }
            },
            TypeModel::PointerLike { kind, is_const, target } => match code_of(*target, None) {
                Err(e) => Err(e),
                Ok(code) => Ok(
                    (if is_const {
                        "const "@
                    } else {
                        Seq::empty()
                    }) + code + (match kind {
                        CppPointerLikeTypeKind::Pointer => "*"@,
                        CppPointerLikeTypeKind::Reference => "&"@,
                    }),
                ),
            },
        }
    }
}

/// Spelling a list of types never fails for want of an instantiation.
pub proof fn lemma_codes_failure_names_no_type(ts: Seq<TypeModel>)
    ensures
        codes_of(ts) matches Err(e) ==> !(e is TypeNotAvailable),
    decreases ts, 0nat,
{
    if ts.len() > 0 {
        lemma_code_failure_names_no_type(ts.first(), None);
        lemma_codes_failure_names_no_type(ts.drop_first());
    }
}

/// Spelling a type never fails for want of an instantiation.
pub proof fn lemma_code_failure_names_no_type(t: TypeModel, inner: Option<Seq<char>>)
    ensures
        code_of(t, inner) matches Err(e) ==> !(e is TypeNotAvailable),
    decreases t, 1nat,
{
    match t {
        TypeModel::Class(c) => match c.template_arguments {
            Some(args) => lemma_codes_failure_names_no_type(args),
            None => {},
        },
        TypeModel::FunctionPointer { return_type, arguments, .. } => {
            lemma_code_failure_names_no_type(*return_type, None);
            lemma_codes_failure_names_no_type(arguments);
        },
        TypeModel::PointerLike { target, .. } => {
            lemma_code_failure_names_no_type(*target, None);
        },
        _ => {},
    }
}

/// How a class type is spelled.
pub open spec fn class_code_of(c: ClassModel) -> Result<Seq<char>, Error> {
    code_of(TypeModel::Class(c), None)
}

/// The captions of the types in order, or the first failure.
pub open spec fn captions_of(ts: Seq<TypeModel>, strategy: TypeCaptionStrategy) -> Result<
    Seq<Seq<char>>,
    Error,
>
    decreases ts, 0nat,
{
    if ts.len() == 0 {
        Ok(Seq::empty())
    } else {
        match caption_of(ts.first(), strategy) {
            Err(e) => Err(e),
            Ok(caption) => match captions_of(ts.drop_first(), strategy) {
                Err(e) => Err(e),
                Ok(captions) => Ok(seq![caption] + captions),
            },
        }
    }
}

/// The fragment of an identifier that stands for the type. Under `Short` a
/// wrapper is its target and a function pointer is `func`; under `Full` a
/// wrapper adds `const_` in front and `_ptr` or `_ref` behind, and a function
/// pointer lists its return and argument types around `_func_`.
pub open spec fn caption_of(t: TypeModel, strategy: TypeCaptionStrategy) -> Result<Seq<char>, Error>
    decreases t, 1nat,
{
    match t {
        TypeModel::Void => Ok("void"@),
        TypeModel::BuiltInNumeric(kind) => Ok(char_replaced(numeric_code(kind), ' ', '_')),
        TypeModel::Enum { name } => Ok(scopes_flattened(name)),
        TypeModel::Class(c) => match c.template_arguments {
            Some(args) => match captions_of(args, strategy) {
                Err(e) => Err(e),
                Ok(captions) => Ok(scopes_flattened(c.name) + "_"@ + joined(captions, "_"@)),
            },
            None => Ok(scopes_flattened(c.name)),
        },
        TypeModel::TemplateParameter { .. } => Err(Error::UnexpectedTemplateParameter),
        TypeModel::FunctionPointer { return_type, arguments, .. } => match strategy {
            TypeCaptionStrategy::Short => Ok("func"@),
            TypeCaptionStrategy::Full => match caption_of(*return_type, strategy) {
                Err(e) => Err(e),
                Ok(ret) => match captions_of(arguments, strategy) {
                    Err(e) => Err(e),
                    Ok(captions) => Ok(ret + "_func_"@ + joined(captions, "_"@)),
                },
            },
        },
        TypeModel::PointerLike { kind, is_const, target } => match caption_of(*target, strategy) {
            Err(e) => Err(e),
            Ok(caption) => match strategy {
                TypeCaptionStrategy::Short => Ok(caption),
                TypeCaptionStrategy::Full => Ok(
                    (if is_const {
                        "const_"@
                    } else {
                        Seq::empty()
                    }) + caption + (match kind {
                        CppPointerLikeTypeKind::Pointer => "_ptr"@,
                        CppPointerLikeTypeKind::Reference => "_ref"@,
                    }),
                ),
            },
        },
    }
}

/// The caption of a class type.
pub open spec fn class_caption_of(c: ClassModel, strategy: TypeCaptionStrategy) -> Result<
    Seq<char>,
    Error,
> {
    caption_of(TypeModel::Class(c), strategy)
}

/// Copies a list of types.
pub fn clone_types(types: &Vec<CppType>) -> (r: Vec<CppType>)
    ensures
        types_model(r@) == types_model(types@),
    decreases types, 0nat,
{
    let mut out: Vec<CppType> = Vec::new();
    let mut i: usize = 0;
    while i < types.len()
        invariant
            i <= types.len(),
            out.len() == i,
            forall|j: int| 0 <= j < i ==> type_model(#[trigger] out@[j]) == type_model(types@[j]),
        decreases types.len() - i,
    {
        out.push(types[i].clone());
        i += 1;
    }
    out
}

impl Clone for CppClassType {
    fn clone(&self) -> (r: Self)
        ensures
            r@ == self@,
        decreases self, 1nat,
    {
        CppClassType {
            name: self.name.clone(),
            template_arguments: match &self.template_arguments {
                Some(args) => {
                    Some(clone_types(args))
                },
                None => None,
            },
        }
    }
}

impl Clone for CppType {
    fn clone(&self) -> (r: Self)
        ensures
            r@ == self@,
        decreases self, 2nat,
    {
        match self {
            CppType::Void => CppType::Void,
            CppType::BuiltInNumeric(kind) => CppType::BuiltInNumeric(*kind),
            CppType::Enum { name } => CppType::Enum { name: name.clone() },
            CppType::Class(c) => CppType::Class(c.clone()),
            CppType::TemplateParameter { nested_level, index, name } => CppType::TemplateParameter {
                nested_level: *nested_level,
                index: *index,
                name: name.clone(),
            },
            CppType::FunctionPointer(f) => {
                CppType::FunctionPointer(
                    CppFunctionPointerType {
                        return_type: Box::new((*f.return_type).clone()),
                        arguments: clone_types(&f.arguments),
                        allows_variadic_arguments: f.allows_variadic_arguments,
                    },
                )
            },
            CppType::PointerLike { kind, is_const, target } => CppType::PointerLike {
                kind: *kind,
                is_const: *is_const,
                target: Box::new((**target).clone()),
            },
        }
    }
}

/// Whether two lists of types have the same models.
pub fn types_equal(a: &Vec<CppType>, b: &Vec<CppType>) -> (r: bool)
    ensures
        r == (types_model(a@) == types_model(b@)),
    decreases a, 0nat,
{
    if a.len() != b.len() {
        assert(types_model(a@).len() != types_model(b@).len());
        return false;
    }
    let mut i: usize = 0;
    while i < a.len()
        invariant
            i <= a.len(),
            a.len() == b.len(),
            forall|j: int| 0 <= j < i ==> type_model(#[trigger] a@[j]) == type_model(b@[j]),
        decreases a.len() - i,
    {
        if !a[i].eq(&b[i]) {
            assert(types_model(a@)[i as int] != types_model(b@)[i as int]);
            return false;
        }
        i += 1;
    }
    assert(types_model(a@) =~= types_model(b@));
    true
}

impl PartialEq for CppClassType {
    fn eq(&self, other: &Self) -> (r: bool)
        decreases self, 1nat,
    {
        if self.name != other.name {
            return false;
        }
        match (&self.template_arguments, &other.template_arguments) {
            (Some(a), Some(b)) => {
                types_equal(a, b)
            },
            (None, None) => true,
            _ => false,
        }
    }
}

impl vstd::std_specs::cmp::PartialEqSpecImpl for CppClassType {
    open spec fn obeys_eq_spec() -> bool {
        true
    }

    open spec fn eq_spec(&self, other: &Self) -> bool {
        self@ == other@
    }
}

impl PartialEq for CppType {
    fn eq(&self, other: &Self) -> (r: bool)
        decreases self, 2nat,
    {
        match (self, other) {
            (CppType::Void, CppType::Void) => true,
            (CppType::BuiltInNumeric(a), CppType::BuiltInNumeric(b)) => *a == *b,
            (CppType::Enum { name: a }, CppType::Enum { name: b }) => *a == *b,
            (CppType::Class(a), CppType::Class(b)) => a.eq(b),
            (
                CppType::TemplateParameter { nested_level: l1, index: i1, name: n1 },
                CppType::TemplateParameter { nested_level: l2, index: i2, name: n2 },
            ) => *l1 == *l2 && *i1 == *i2 && *n1 == *n2,
            (CppType::FunctionPointer(a), CppType::FunctionPointer(b)) => {
                a.allows_variadic_arguments == b.allows_variadic_arguments && *a.return_type
                    == *b.return_type && types_equal(&a.arguments, &b.arguments)
            },
            (
                CppType::PointerLike { kind: k1, is_const: c1, target: t1 },
                CppType::PointerLike { kind: k2, is_const: c2, target: t2 },
            ) => *k1 == *k2 && *c1 == *c2 && **t1 == **t2,
            _ => false,
        }
    }
}

impl vstd::std_specs::cmp::PartialEqSpecImpl for CppType {
    open spec fn obeys_eq_spec() -> bool {
        true
    }

    open spec fn eq_spec(&self, other: &Self) -> bool {
        self@ == other@
    }
}

impl Eq for CppClassType {

}

impl Eq for CppType {

}

/// Whether each of the types is well formed.
pub fn are_well_formed(types: &Vec<CppType>) -> (r: bool)
    ensures
        r == all_well_formed(types_model(types@)),
    decreases types, 0nat,
{
    let mut i: usize = 0;
    while i < types.len()
        invariant
            i <= types.len(),
            forall|j: int| 0 <= j < i ==> well_formed(#[trigger] types_model(types@)[j]),
        decreases types.len() - i,
    {
        if !types[i].is_well_formed() {
            assert(!well_formed(types_model(types@)[i as int]));
            return false;
        }
        i += 1;
    }
    true
}

/// Whether one of the types is or contains a template parameter.
pub fn any_is_or_contains_template_parameter(types: &Vec<CppType>) -> (r: bool)
    ensures
        r == any_contains_parameter(types_model(types@)),
    decreases types, 0nat,
{
    let mut i: usize = 0;
    while i < types.len()
        invariant
            i <= types.len(),
            forall|j: int| 0 <= j < i ==> !contains_parameter(#[trigger] types_model(types@)[j]),
        decreases types.len() - i,
    {
        if types[i].is_or_contains_template_parameter() {
            assert(contains_parameter(types_model(types@)[i as int]));
            return true;
        }
        i += 1;
    }
    false
}

/// Replaces the template parameters of the given depth in each of the types.
pub fn instantiate_types(types: &Vec<CppType>, nested_level: usize, arguments: &Vec<CppType>) -> (r:
    Result<Vec<CppType>, Error>)
    ensures
        all_indices_within(types_model(types@), nested_level as nat, arguments@.len()) ==> r is Ok
            && types_model(r->Ok_0@) == all_substituted(
            types_model(types@),
            nested_level as nat,
            types_model(arguments@),
        ),
        !all_indices_within(types_model(types@), nested_level as nat, arguments@.len()) ==> r
            matches Err(Error::NotEnoughTemplateArguments),
    decreases types, 0nat,
{
    let mut out: Vec<CppType> = Vec::new();
    let mut i: usize = 0;
    while i < types.len()
        invariant
            i <= types.len(),
            out.len() == i,
            forall|j: int|
                0 <= j < i ==> indices_within(
                    #[trigger] types_model(types@)[j],
                    nested_level as nat,
                    arguments@.len(),
                ),
            forall|j: int|
                0 <= j < i ==> type_model(#[trigger] out@[j]) == substituted(
                    types_model(types@)[j],
                    nested_level as nat,
                    types_model(arguments@),
                ),
        decreases types.len() - i,
    {
        match types[i].instantiate(nested_level, arguments) {
            Ok(t) => {
                out.push(t);
            },
            Err(e) => {
                assert(!indices_within(
                    types_model(types@)[i as int],
                    nested_level as nat,
                    arguments@.len(),
                ));
                return Err(e);
            },
        }
        i += 1;
    }
    Ok(out)
}

impl CppClassType {
    /// Replaces the template parameters of the given depth in the template
    /// arguments of the class.
    pub fn instantiate_class(&self, nested_level: usize, arguments: &Vec<CppType>) -> (r: Result<
        CppClassType,
        Error,
    >)
        ensures
            class_indices_within(self@, nested_level as nat, arguments@.len()) ==> r is Ok
                && r->Ok_0@ == class_substituted(
                self@,
                nested_level as nat,
                types_model(arguments@),
            ),
            !class_indices_within(self@, nested_level as nat, arguments@.len()) ==> r matches Err(
                Error::NotEnoughTemplateArguments,
            ),
        decreases self, 1nat,
    {
        let template_arguments = match &self.template_arguments {
            Some(args) => {
                Some(instantiate_types(args, nested_level, arguments)?)
            },
            None => None,
        };
        Ok(CppClassType { name: self.name.clone(), template_arguments })
    }
}

impl CppType {
    /// A pointer to `target`.
    pub fn new_pointer(is_const: bool, target: CppType) -> (r: CppType)
        ensures
            r@ == (TypeModel::PointerLike {
                kind: CppPointerLikeTypeKind::Pointer,
                is_const,
                target: Box::new(target@),
            }),
    {
        CppType::PointerLike {
            kind: CppPointerLikeTypeKind::Pointer,
            is_const,
            target: Box::new(target),
        }
    }

    /// A reference to `target`.
    pub fn new_reference(is_const: bool, target: CppType) -> (r: CppType)
        ensures
            r@ == (TypeModel::PointerLike {
                kind: CppPointerLikeTypeKind::Reference,
                is_const,
                target: Box::new(target@),
            }),
    {
        CppType::PointerLike {
            kind: CppPointerLikeTypeKind::Reference,
            is_const,
            target: Box::new(target),
        }
    }

    /// Whether the type is `void`.
    pub fn is_void(&self) -> (r: bool)
        ensures
            r == (self@ is Void),
    {
        match self {
            CppType::Void => true,
            _ => false,
        }
    }

    /// Whether the type is a class, held by value.
    pub fn is_class(&self) -> (r: bool)
        ensures
            r == (self@ is Class),
    {
        match self {
            CppType::Class(_) => true,
            _ => false,
        }
    }

    /// Whether the type is a bare template parameter.
    pub fn is_template_parameter(&self) -> (r: bool)
        ensures
            r == (self@ is TemplateParameter),
    {
        match self {
            CppType::TemplateParameter { .. } => true,
            _ => false,
        }
    }

    /// Whether the type is a function pointer.
    pub fn is_function_pointer(&self) -> (r: bool)
        ensures
            r == (self@ is FunctionPointer),
    {
        match self {
            CppType::FunctionPointer(_) => true,
            _ => false,
        }
    }

    /// Whether the type is well formed: wherever a class type in it has a
    /// list of template arguments, the list is not empty.
    pub fn is_well_formed(&self) -> (r: bool)
        ensures
            r == well_formed(self@),
        decreases self, 1nat,
    {
        match self {
            CppType::Class(c) => match &c.template_arguments {
                Some(args) => {
                    proof {
                        assert(types_model(args@).len() == args.len());
                    }
                    args.len() > 0 && are_well_formed(args)
                },
                None => true,
            },
            CppType::FunctionPointer(f) => {
                f.return_type.is_well_formed() && are_well_formed(&f.arguments)
            },
            CppType::PointerLike { target, .. } => target.is_well_formed(),
            _ => true,
        }
    }

    /// Whether the type is a template parameter or contains one.
    pub fn is_or_contains_template_parameter(&self) -> (r: bool)
        ensures
            r == contains_parameter(self@),
        decreases self, 1nat,
    {
        match self {
            CppType::TemplateParameter { .. } => true,
            CppType::PointerLike { target, .. } => target.is_or_contains_template_parameter(),
            CppType::FunctionPointer(f) => {
                f.return_type.is_or_contains_template_parameter()
                    || any_is_or_contains_template_parameter(&f.arguments)
            },
            CppType::Class(c) => match &c.template_arguments {
                Some(args) => {
                    any_is_or_contains_template_parameter(args)
                },
                None => false,
            },
            _ => false,
        }
    }

    /// Replaces every template parameter of depth `nested_level` by the
    /// argument at its index; parameters of other depths stay. Fails where
    /// such a parameter has an index beyond `arguments`.
    pub fn instantiate(&self, nested_level: usize, arguments: &Vec<CppType>) -> (r: Result<
        CppType,
        Error,
    >)
        ensures
            indices_within(self@, nested_level as nat, arguments@.len()) ==> r is Ok && r->Ok_0@
                == substituted(self@, nested_level as nat, types_model(arguments@)),
            !indices_within(self@, nested_level as nat, arguments@.len()) ==> r matches Err(
                Error::NotEnoughTemplateArguments,
            ),
        decreases self, 2nat,
    {
        match self {
            CppType::TemplateParameter { nested_level: level, index, .. } => {
                if *level == nested_level {
                    if *index >= arguments.len() {
                        return Err(Error::NotEnoughTemplateArguments);
                    }
                    Ok(arguments[*index].clone())
                } else {
                    Ok(self.clone())
                }
            },
            CppType::Class(c) => {
                Ok(CppType::Class(c.instantiate_class(nested_level, arguments)?))
            },
            CppType::FunctionPointer(f) => {
                let return_type = f.return_type.instantiate(nested_level, arguments)?;
                let args = instantiate_types(&f.arguments, nested_level, arguments)?;
                Ok(
                    CppType::FunctionPointer(
                        CppFunctionPointerType {
                            return_type: Box::new(return_type),
                            arguments: args,
                            allows_variadic_arguments: f.allows_variadic_arguments,
                        },
                    ),
                )
            },
            CppType::PointerLike { kind, is_const, target } => {
                let inner = target.instantiate(nested_level, arguments)?;
                Ok(
                    CppType::PointerLike {
                        kind: *kind,
                        is_const: *is_const,
                        target: Box::new(inner),
                    },
                )
            },
            _ => Ok(self.clone()),
        }
    }
}

/// The spellings of the types in order, or the first failure.
pub fn types_to_cpp_code(types: &Vec<CppType>) -> (r: Result<Vec<String>, Error>)
    ensures
        texts_result_is(r, codes_of(types_model(types@))),
    decreases types, 0nat,
{
    let ghost m = types_model(types@);
    let mut out: Vec<String> = Vec::new();
    let mut i: usize = 0;
    proof {
        assert(m.skip(0) =~= m);
    }
    while i < types.len()
        invariant
            i <= types.len(),
            m == types_model(types@),
            codes_of(m) == texts_then(texts_of(out@), codes_of(m.skip(i as int))),
        decreases types.len() - i,
    {
        let ghost rest = m.skip(i as int);
        let ghost before = texts_of(out@);
        proof {
            assert(rest.drop_first() =~= m.skip(i + 1));
        }
        match types[i].to_cpp_code(None) {
            Ok(code) => {
                out.push(code);
                proof {
                    let tail = codes_of(m.skip(i + 1));
                    if tail is Ok {
                        assert(texts_of(out@) + tail->Ok_0 =~= before + (seq![code@] + tail->Ok_0));
                    }
                }
            },
            Err(e) => {
                return Err(e);
            },
        }
        i += 1;
    }
    Ok(out)
}

/// The captions of the types in order, or the first failure.
pub fn types_captions(types: &Vec<CppType>, strategy: TypeCaptionStrategy) -> (r: Result<
    Vec<String>,
    Error,
>)
    ensures
        texts_result_is(r, captions_of(types_model(types@), strategy)),
    decreases types, 0nat,
{
    let ghost m = types_model(types@);
    let mut out: Vec<String> = Vec::new();
    let mut i: usize = 0;
    proof {
        assert(m.skip(0) =~= m);
    }
    while i < types.len()
        invariant
            i <= types.len(),
            m == types_model(types@),
            captions_of(m, strategy) == texts_then(
                texts_of(out@),
                captions_of(m.skip(i as int), strategy),
            ),
        decreases types.len() - i,
    {
        let ghost rest = m.skip(i as int);
        let ghost before = texts_of(out@);
        proof {
            assert(rest.drop_first() =~= m.skip(i + 1));
        }
        match types[i].caption(strategy) {
            Ok(caption) => {
                out.push(caption);
                proof {
                    let tail = captions_of(m.skip(i + 1), strategy);
                    if tail is Ok {
                        assert(texts_of(out@) + tail->Ok_0 =~= before + (seq![caption@]
                            + tail->Ok_0));
                    }
                }
            },
            Err(e) => {
                return Err(e);
            },
        }
        i += 1;
    }
    Ok(out)
}

impl CppBuiltInNumericType {
    /// How the type is spelled.
    pub fn to_cpp_code(&self) -> (r: &'static str)
        ensures
            r@ == numeric_code(*self),
    {
        match self {
            CppBuiltInNumericType::Bool => "bool",
            CppBuiltInNumericType::Char => "char",
            CppBuiltInNumericType::SChar => "signed char",
            CppBuiltInNumericType::UChar => "unsigned char",
            CppBuiltInNumericType::WChar => "wchar_t",
            CppBuiltInNumericType::Char16 => "char16_t",
            CppBuiltInNumericType::Char32 => "char32_t",
            CppBuiltInNumericType::Short => "short",
            CppBuiltInNumericType::UShort => "unsigned short",
            CppBuiltInNumericType::Int => "int",
            CppBuiltInNumericType::UInt => "unsigned int",
            CppBuiltInNumericType::Long => "long",
            CppBuiltInNumericType::ULong => "unsigned long",
            CppBuiltInNumericType::LongLong => "long long",
            CppBuiltInNumericType::ULongLong => "unsigned long long",
            CppBuiltInNumericType::Int128 => "__int128_t",
            CppBuiltInNumericType::UInt128 => "__uint128_t",
            CppBuiltInNumericType::Float => "float",
            CppBuiltInNumericType::Double => "double",
            CppBuiltInNumericType::LongDouble => "long double",
        }
    }
}

impl CppClassType {
    /// How the class type is spelled: its name, then its template arguments
    /// between `< ` and ` >`.
    pub fn to_cpp_code(&self) -> (r: Result<String, Error>)
        ensures
            text_result_is(r, class_code_of(self@)),
        decreases self, 1nat,
    {
        match &self.template_arguments {
            Some(args) => {
                let codes = types_to_cpp_code(args)?;
                let mut out = self.name.clone();
                out.append("< ");
                out.append(join(&codes, ", ").as_str());
                out.append(" >");
                Ok(out)
            },
            None => Ok(self.name.clone()),
        }
    }

    /// The fragment of an identifier that stands for the class type: its
    /// name with `_` for `::`, then the captions of its template arguments.
    pub fn caption(&self, strategy: TypeCaptionStrategy) -> (r: Result<String, Error>)
        ensures
            text_result_is(r, class_caption_of(self@, strategy)),
        decreases self, 1nat,
    {
        let mut out = flatten_scopes(self.name.as_str());
        match &self.template_arguments {
            Some(args) => {
                let captions = types_captions(args, strategy)?;
                out.append("_");
                out.append(join(&captions, "_").as_str());
                Ok(out)
            },
            None => Ok(out),
        }
    }
}

impl CppType {
    /// How the type is spelled in a declaration. A function pointer is
    /// spelled around the name `function_pointer_inner_text`; no other type
    /// takes one.
    pub fn to_cpp_code(&self, function_pointer_inner_text: Option<&str>) -> (r: Result<
        String,
        Error,
    >)
        ensures
            text_result_is(r, code_of(self@, text_option(function_pointer_inner_text))),
        decreases self, 2nat,
    {
        if !self.is_function_pointer() && function_pointer_inner_text.is_some() {
            return Err(Error::UnexpectedFunctionPointerName);
        }
        match self {
            CppType::Void => Ok(String::from_str("void")),
            CppType::BuiltInNumeric(kind) => Ok(String::from_str(kind.to_cpp_code())),
            CppType::Enum { name } => Ok(name.clone()),
            CppType::Class(c) => c.to_cpp_code(),
            CppType::TemplateParameter { .. } => Err(Error::UnexpectedTemplateParameter),
            CppType::FunctionPointer(f) => {
                if f.allows_variadic_arguments {
                    return Err(Error::VariadicFunctionPointer);
                }
                match function_pointer_inner_text {
                    None => Err(Error::MissingFunctionPointerName),
                    Some(inner) => {
                        let mut out = f.return_type.to_cpp_code(None)?;
                        let codes = types_to_cpp_code(&f.arguments)?;
                        out.append(" (*");
                        out.append(inner);
                        out.append(")(");
                        out.append(join(&codes, ", ").as_str());
                        out.append(")");
                        Ok(out)
                    },
                }
            },
            CppType::PointerLike { kind, is_const, target } => {
                let code = target.to_cpp_code(None)?;
                let mut out = String::new();
                if *is_const {
                    out.append("const ");
                }
                out.append(code.as_str());
                match kind {
                    CppPointerLikeTypeKind::Pointer => out.append("*"),
                    CppPointerLikeTypeKind::Reference => out.append("&"),
                }
                Ok(out)
            },
        }
    }

    /// The fragment of an identifier that stands for the type.
    pub fn caption(&self, strategy: TypeCaptionStrategy) -> (r: Result<String, Error>)
        ensures
            text_result_is(r, caption_of(self@, strategy)),
        decreases self, 2nat,
    {
        match self {
            CppType::Void => Ok(String::from_str("void")),
            CppType::BuiltInNumeric(kind) => Ok(spaces_to_underscores(kind.to_cpp_code())),
            CppType::Enum { name } => Ok(flatten_scopes(name.as_str())),
            CppType::Class(c) => c.caption(strategy),
            CppType::TemplateParameter { .. } => Err(Error::UnexpectedTemplateParameter),
            CppType::FunctionPointer(f) => {
                match strategy {
                    TypeCaptionStrategy::Short => Ok(String::from_str("func")),
                    TypeCaptionStrategy::Full => {
                        let mut out = f.return_type.caption(strategy)?;
                        let captions = types_captions(&f.arguments, strategy)?;
                        out.append("_func_");
                        out.append(join(&captions, "_").as_str());
                        Ok(out)
                    },
                }
            },
            CppType::PointerLike { kind, is_const, target } => {
                let caption = target.caption(strategy)?;
                match strategy {
                    TypeCaptionStrategy::Short => Ok(caption),
                    TypeCaptionStrategy::Full => {
                        let mut out = String::new();
                        if *is_const {
                            out.append("const_");
                        }
                        out.append(caption.as_str());
                        match kind {
                            CppPointerLikeTypeKind::Pointer => out.append("_ptr"),
                            CppPointerLikeTypeKind::Reference => out.append("_ref"),
                        }
                        Ok(out)
                    },
                }
            },
        }
    }
}

} // verus!
