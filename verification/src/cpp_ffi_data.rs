//! The boundary between the wrapped library and its host: boundary-safe
//! types, signatures, and the captions that tell overloads apart.

use crate::cpp_function::{CppFunction, CppFunctionKind, FunctionModel};
use crate::cpp_operator::{symbol_token, CppOperator, OperatorModel};
use crate::cpp_type::{
    caption_of, class_caption_of, code_of, contains_parameter, types_model, CppPointerLikeTypeKind,
    CppType, TypeCaptionStrategy, TypeModel,
};
use crate::errors::{text_result_is, texts_then, Error};
use crate::text::{flatten_scopes, join, joined, scopes_flattened, texts_of};
use vstd::prelude::*;

verus! {

/// What an argument of a boundary function stands for.
#[derive(Clone, Copy, Debug, PartialEq, Eq, Hash, Structural)]
pub enum CppFfiArgumentMeaning {
    /// The object that a method is called on.
    This,
    /// The argument of the wrapped function at the given position.
    Argument(i8),
    /// The place that receives the return value.
    ReturnValue,
}

impl CppFfiArgumentMeaning {
    /// Whether the argument is an argument of the wrapped function.
    pub fn is_argument(&self) -> (r: bool)
        ensures
            r == (*self is Argument),
    {
        match self {
            CppFfiArgumentMeaning::Argument(_) => true,
            _ => false,
        }
    }
}

/// How a value is changed on its way across the boundary.
#[derive(Clone, Copy, Debug, PartialEq, Eq, Hash, Structural)]
pub enum CppTypeConversionToFfi {
    /// The value crosses as it is.
    NoChange,
    /// An object held by value crosses behind a pointer.
    ValueToPointer,
    /// A reference crosses as a pointer.
    ReferenceToPointer,
}

/// Whether a type is the type of a return value.
#[derive(Clone, Copy, Debug, PartialEq, Eq, Hash, Structural)]
pub enum CppTypeRole {
    ReturnValue,
    NotReturnValue,
}

/// A type with the type that stands for it at the boundary.
#[derive(Debug)]
pub struct CppFfiType {
    pub original_type: CppType,
    pub ffi_type: CppType,
    pub conversion: CppTypeConversionToFfi,
}

/// Model of a boundary type.
pub struct FfiTypeModel {
    pub original_type: TypeModel,
    pub ffi_type: TypeModel,
    pub conversion: CppTypeConversionToFfi,
}

impl View for CppFfiType {
    type V = FfiTypeModel;

    open spec fn view(&self) -> FfiTypeModel {
        FfiTypeModel {
            original_type: self.original_type@,
            ffi_type: self.ffi_type@,
            conversion: self.conversion,
        }
    }
}

/// Whether the type is a reference, or leads to one through pointers or the
/// components of a function pointer.
pub open spec fn any_contains_reference(ts: Seq<TypeModel>) -> bool
    decreases ts, 0nat,
{
    exists|i: int| 0 <= i < ts.len() && contains_reference(#[trigger] ts[i])
}

/// Whether the type is a reference, or leads to one through pointers or the
/// components of a function pointer.
pub open spec fn contains_reference(t: TypeModel) -> bool
    decreases t, 1nat,
{
    match t {
        TypeModel::PointerLike { kind, target, .. } => match kind {
            CppPointerLikeTypeKind::Pointer => contains_reference(*target),
            CppPointerLikeTypeKind::Reference => true,
        },
        TypeModel::FunctionPointer { return_type, arguments, .. } => contains_reference(
            *return_type,
        ) || any_contains_reference(arguments),
        _ => false,
    }
}

/// Whether a component of a function pointer can cross the boundary as it
/// is: it is neither a function pointer nor a class held by value, and leads
/// to no reference.
pub open spec fn is_plain_component(t: TypeModel) -> bool {
    !(t is FunctionPointer) && !(t is Class) && !contains_reference(t)
}

/// Whether each of the types is a plain component.
pub open spec fn all_plain_components(ts: Seq<TypeModel>) -> bool {
    forall|i: int| 0 <= i < ts.len() ==> is_plain_component(#[trigger] ts[i])
}

/// Whether a type can stand at the boundary: a scalar, a pointer, or a
/// function pointer made of plain components; and free of template
/// parameters.
pub open spec fn is_boundary_safe(t: TypeModel) -> bool {
    !contains_parameter(t) && match t {
        TypeModel::Void => true,
        TypeModel::BuiltInNumeric(_) => true,
        TypeModel::Enum { .. } => true,
        TypeModel::PointerLike { kind, .. } => kind == CppPointerLikeTypeKind::Pointer,
        TypeModel::FunctionPointer {
            return_type,
            arguments,
            allows_variadic_arguments,
        } => !allows_variadic_arguments && is_plain_component(*return_type)
            && all_plain_components(arguments),
        _ => false,
    }
}

/// The boundary type that stands for a type in the given role, or why there
/// is none.
///
/// A type with a template parameter has none. A function pointer crosses as
/// it is, where it takes no variadic arguments and its components are plain.
/// A class held by value crosses behind a pointer, which is const unless the
/// value is returned. A reference crosses as a pointer to the same target.
/// Every other type crosses as it is.
pub open spec fn ffi_type_of(t: TypeModel, role: CppTypeRole) -> Result<FfiTypeModel, Error> {
    if contains_parameter(t) {
        Err(Error::UnexpectedTemplateParameter)
    } else {
        match t {
            TypeModel::FunctionPointer { return_type, arguments, allows_variadic_arguments } => {
                if allows_variadic_arguments {
                    Err(Error::VariadicFunctionPointer)
                } else if !is_plain_component(*return_type) || !all_plain_components(arguments) {
                    Err(Error::UnsupportedFunctionPointer)
                } else {
                    Ok(
                        FfiTypeModel {
                            original_type: t,
                            ffi_type: t,
                            conversion: CppTypeConversionToFfi::NoChange,
                        },
                    )
                }
            },
            TypeModel::Class(_) => Ok(
                FfiTypeModel {
                    original_type: t,
                    ffi_type: TypeModel::PointerLike {
                        kind: CppPointerLikeTypeKind::Pointer,
                        is_const: role != CppTypeRole::ReturnValue,
                        target: Box::new(t),
                    },
                    conversion: CppTypeConversionToFfi::ValueToPointer,
                },
            ),
            TypeModel::PointerLike {
                kind: CppPointerLikeTypeKind::Reference,
                is_const,
                target,
            } => Ok(
                FfiTypeModel {
                    original_type: t,
                    ffi_type: TypeModel::PointerLike {
                        kind: CppPointerLikeTypeKind::Pointer,
                        is_const,
                        target,
                    },
                    conversion: CppTypeConversionToFfi::ReferenceToPointer,
                },
            ),
            _ => Ok(
                FfiTypeModel {
                    original_type: t,
                    ffi_type: t,
                    conversion: CppTypeConversionToFfi::NoChange,
                },
            ),
        }
    }
}

/// A boundary type is free of template parameters, and it is a scalar, a
/// pointer, or a function pointer made of plain components.
pub proof fn lemma_ffi_type_is_boundary_safe(t: TypeModel, role: CppTypeRole)
    requires
        ffi_type_of(t, role) is Ok,
    ensures
        is_boundary_safe(ffi_type_of(t, role)->Ok_0.ffi_type),
        ffi_type_of(t, role)->Ok_0.original_type == t,
{
    reveal_with_fuel(contains_parameter, 2);
}

/// Whether one of the types is a reference or leads to one.
pub fn any_type_contains_reference(types: &Vec<CppType>) -> (r: bool)
    ensures
        r == any_contains_reference(types_model(types@)),
    decreases types, 0nat,
{
    let mut i: usize = 0;
    while i < types.len()
        invariant
            i <= types.len(),
            forall|j: int| 0 <= j < i ==> !contains_reference(#[trigger] types_model(types@)[j]),
        decreases types.len() - i,
    {
        if type_contains_reference(&types[i]) {
            assert(contains_reference(types_model(types@)[i as int]));
            return true;
        }
        i += 1;
    }
    false
}

/// Whether the type is a reference, or leads to one through pointers or the
/// components of a function pointer.
pub fn type_contains_reference(t: &CppType) -> (r: bool)
    ensures
        r == contains_reference(t@),
    decreases t, 1nat,
{
    match t {
        CppType::PointerLike { kind, target, .. } => match kind {
            CppPointerLikeTypeKind::Pointer => type_contains_reference(target),
            CppPointerLikeTypeKind::Reference => true,
        },
        CppType::FunctionPointer(f) => {
            type_contains_reference(&f.return_type) || any_type_contains_reference(
                &f.arguments,
            )
        },
        _ => false,
    }
}

/// Whether a component of a function pointer can cross the boundary as it is.
pub fn is_plain_function_component(t: &CppType) -> (r: bool)
    ensures
        r == is_plain_component(t@),
{
    !t.is_function_pointer() && !t.is_class() && !type_contains_reference(t)
}

impl CppFfiType {
    /// The boundary type of an absent return value.
    pub fn void() -> (r: CppFfiType)
        ensures
            r@ == (FfiTypeModel {
                original_type: TypeModel::Void,
                ffi_type: TypeModel::Void,
                conversion: CppTypeConversionToFfi::NoChange,
            }),
    {
        CppFfiType {
            original_type: CppType::Void,
            ffi_type: CppType::Void,
            conversion: CppTypeConversionToFfi::NoChange,
        }
    }
}

impl CppType {
    /// The boundary type that stands for this type in the given role.
    pub fn to_cpp_ffi_type(&self, role: CppTypeRole) -> (r: Result<CppFfiType, Error>)
        ensures
            match ffi_type_of(self@, role) {
                Ok(t) => r is Ok && r->Ok_0@ == t && is_boundary_safe(r->Ok_0@.ffi_type),
                Err(e) => r is Err && r->Err_0 == e,
            },
    {
        if self.is_or_contains_template_parameter() {
            return Err(Error::UnexpectedTemplateParameter);
        }
        match self {
            CppType::FunctionPointer(f) => {
                if f.allows_variadic_arguments {
                    return Err(Error::VariadicFunctionPointer);
                }
                if !is_plain_function_component(&f.return_type) {
                    return Err(Error::UnsupportedFunctionPointer);
                }
                let mut i: usize = 0;
                while i < f.arguments.len()
                    invariant
                        i <= f.arguments.len(),
                        !contains_parameter(self@),
                        self@ matches TypeModel::FunctionPointer {
                            return_type,
                            arguments,
                            allows_variadic_arguments,
                        } && arguments == types_model(f.arguments@) && !allows_variadic_arguments
                            && is_plain_component(*return_type),
                        forall|j: int|
                            0 <= j < i ==> is_plain_component(
                                #[trigger] types_model(f.arguments@)[j],
                            ),
                    decreases f.arguments.len() - i,
                {
                    if !is_plain_function_component(&f.arguments[i]) {
                        assert(!is_plain_component(types_model(f.arguments@)[i as int]));
                        return Err(Error::UnsupportedFunctionPointer);
                    }
                    i += 1;
                }
                Ok(
                    CppFfiType {
                        original_type: self.clone(),
                        ffi_type: self.clone(),
                        conversion: CppTypeConversionToFfi::NoChange,
                    },
                )
            },
            CppType::Class(_) => Ok(
                CppFfiType {
                    original_type: self.clone(),
                    ffi_type: CppType::new_pointer(role != CppTypeRole::ReturnValue, self.clone()),
                    conversion: CppTypeConversionToFfi::ValueToPointer,
                },
            ),
            CppType::PointerLike {
                kind: CppPointerLikeTypeKind::Reference,
                is_const,
                target,
            } => Ok(
                CppFfiType {
                    original_type: self.clone(),
                    ffi_type: CppType::new_pointer(*is_const, (**target).clone()),
                    conversion: CppTypeConversionToFfi::ReferenceToPointer,
                },
            ),
            _ => Ok(
                CppFfiType {
                    original_type: self.clone(),
                    ffi_type: self.clone(),
                    conversion: CppTypeConversionToFfi::NoChange,
                },
            ),
        }
    }
}

/// How an argument is rendered in a caption.
#[derive(Clone, Copy, Debug, PartialEq, Eq, Hash, Structural)]
pub enum ArgumentCaptionStrategy {
    /// The name of the argument.
    NameOnly,
    /// The caption of the argument's type.
    TypeOnly(TypeCaptionStrategy),
    /// The caption of the argument's type, then the name.
    TypeAndName(TypeCaptionStrategy),
}

/// How a signature is rendered in a caption.
#[derive(Clone, Copy, Debug, PartialEq, Eq, Hash, Structural)]
pub enum MethodCaptionStrategy {
    /// The captions of the arguments.
    ArgumentsOnly(ArgumentCaptionStrategy),
    /// `const` where the method leaves its object unchanged.
    ConstOnly,
    /// Both.
    ConstAndArguments(ArgumentCaptionStrategy),
}

/// Where the value that a function returns is placed.
#[derive(Clone, Copy, Debug, PartialEq, Eq, Hash, Structural)]
pub enum ReturnValueAllocationPlace {
    /// In a slot that the caller provides.
    Stack,
    /// On the heap, behind a pointer.
    Heap,
    /// The function returns no object.
    NotApplicable,
}

/// An argument of a boundary function.
#[derive(Debug)]
pub struct CppFfiFunctionArgument {
    pub name: String,
    pub argument_type: CppFfiType,
    pub meaning: CppFfiArgumentMeaning,
}

/// The signature of a boundary function.
#[derive(Debug)]
pub struct CppFfiFunctionSignature {
    pub arguments: Vec<CppFfiFunctionArgument>,
    pub return_type: CppFfiType,
}

/// Model of an argument of a boundary function.
pub struct FfiArgumentModel {
    pub name: Seq<char>,
    pub argument_type: FfiTypeModel,
    pub meaning: CppFfiArgumentMeaning,
}

/// Model of the signature of a boundary function.
pub struct FfiSignatureModel {
    pub arguments: Seq<FfiArgumentModel>,
    pub return_type: FfiTypeModel,
}

impl View for CppFfiFunctionArgument {
    type V = FfiArgumentModel;

    open spec fn view(&self) -> FfiArgumentModel {
        FfiArgumentModel {
            name: self.name@,
            argument_type: self.argument_type@,
            meaning: self.meaning,
        }
    }
}

/// The models of a list of arguments.
pub open spec fn ffi_arguments_model(args: Seq<CppFfiFunctionArgument>) -> Seq<FfiArgumentModel> {
    Seq::new(args.len(), |i: int| args[i]@)
}

impl View for CppFfiFunctionSignature {
    type V = FfiSignatureModel;

    open spec fn view(&self) -> FfiSignatureModel {
        FfiSignatureModel {
            arguments: ffi_arguments_model(self.arguments@),
            return_type: self.return_type@,
        }
    }
}

/// The models of a list of signatures.
pub open spec fn ffi_signatures_model(sigs: Seq<CppFfiFunctionSignature>) -> Seq<
    FfiSignatureModel,
> {
    Seq::new(sigs.len(), |i: int| sigs[i]@)
}

/// The caption of an argument: its name, the caption of the type that it has
/// in the wrapped library, or both joined by `_`.
pub open spec fn argument_caption_of(
    arg: FfiArgumentModel,
    strategy: ArgumentCaptionStrategy,
) -> Result<Seq<char>, Error> {
    match strategy {
        ArgumentCaptionStrategy::NameOnly => Ok(arg.name),
        ArgumentCaptionStrategy::TypeOnly(s) => caption_of(arg.argument_type.original_type, s),
        ArgumentCaptionStrategy::TypeAndName(s) => match caption_of(
            arg.argument_type.original_type,
            s,
        ) {
            Ok(caption) => Ok(caption + "_"@ + arg.name),
            Err(e) => Err(e),
        },
    }
}

/// How an argument is declared: its boundary type, then its name; a function
/// pointer is spelled around the name.
pub open spec fn argument_code_of(arg: FfiArgumentModel) -> Result<Seq<char>, Error> {
    if arg.argument_type.ffi_type is FunctionPointer {
        code_of(arg.argument_type.ffi_type, Some(arg.name))
    } else {
        match code_of(arg.argument_type.ffi_type, None) {
            Ok(code) => Ok(code + " "@ + arg.name),
            Err(e) => Err(e),
        }
    }
}

/// The captions, in order, of those of the arguments that are arguments of
/// the wrapped function, or the first failure.
pub open spec fn argument_captions_of(
    args: Seq<FfiArgumentModel>,
    strategy: ArgumentCaptionStrategy,
) -> Result<Seq<Seq<char>>, Error>
    decreases args.len(),
{
    if args.len() == 0 {
        Ok(Seq::empty())
    } else if !(args.first().meaning is Argument) {
        argument_captions_of(args.drop_first(), strategy)
    } else {
        match argument_caption_of(args.first(), strategy) {
            Err(e) => Err(e),
            Ok(caption) => match argument_captions_of(args.drop_first(), strategy) {
                Err(e) => Err(e),
                Ok(captions) => Ok(seq![caption] + captions),
            },
        }
    }
}

/// The caption of the arguments of a signature: their captions joined by
/// `_`, or `no_args` where the wrapped function takes none.
pub open spec fn arguments_caption_of(
    sig: FfiSignatureModel,
    strategy: ArgumentCaptionStrategy,
) -> Result<Seq<char>, Error> {
    match argument_captions_of(sig.arguments, strategy) {
        Err(e) => Err(e),
        Ok(captions) => if captions.len() == 0 {
            Ok("no_args"@)
        } else {
            Ok(joined(captions, "_"@))
        },
    }
}

/// Whether the argument is the object that a method is called on, behind a
/// pointer to const.
pub open spec fn is_const_receiver(arg: FfiArgumentModel) -> bool {
    arg.meaning == CppFfiArgumentMeaning::This && match arg.argument_type.ffi_type {
        TypeModel::PointerLike { is_const, .. } => is_const,
        _ => false,
    }
}

/// Whether the object that the method is called on crosses the boundary
/// behind a pointer to const.
pub open spec fn has_const_receiver(sig: FfiSignatureModel) -> bool {
    exists|i: int| 0 <= i < sig.arguments.len() && is_const_receiver(#[trigger] sig.arguments[i])
}

/// The caption of a signature.
pub open spec fn signature_caption_of(
    sig: FfiSignatureModel,
    strategy: MethodCaptionStrategy,
) -> Result<Seq<char>, Error> {
    match strategy {
        MethodCaptionStrategy::ArgumentsOnly(s) => arguments_caption_of(sig, s),
        MethodCaptionStrategy::ConstOnly => Ok(
            if has_const_receiver(sig) {
                "const"@
            } else {
                Seq::empty()
            },
        ),
        MethodCaptionStrategy::ConstAndArguments(s) => match arguments_caption_of(sig, s) {
            Err(e) => Err(e),
            Ok(caption) => Ok(
                (if has_const_receiver(sig) {
                    "const_"@
                } else {
                    Seq::empty()
                }) + caption,
            ),
        },
    }
}

impl CppFfiFunctionArgument {
    /// The caption of the argument.
    pub fn caption(&self, strategy: ArgumentCaptionStrategy) -> (r: Result<String, Error>)
        ensures
            text_result_is(r, argument_caption_of(self@, strategy)),
    {
        match strategy {
            ArgumentCaptionStrategy::NameOnly => Ok(self.name.clone()),
            ArgumentCaptionStrategy::TypeOnly(s) => self.argument_type.original_type.caption(s),
            ArgumentCaptionStrategy::TypeAndName(s) => {
                let mut out = self.argument_type.original_type.caption(s)?;
                out.append("_");
                out.append(self.name.as_str());
                Ok(out)
            },
        }
    }

    /// How the argument is declared.
    pub fn to_cpp_code(&self) -> (r: Result<String, Error>)
        ensures
            text_result_is(r, argument_code_of(self@)),
    {
        if self.argument_type.ffi_type.is_function_pointer() {
            self.argument_type.ffi_type.to_cpp_code(Some(self.name.as_str()))
        } else {
            let mut out = self.argument_type.ffi_type.to_cpp_code(None)?;
            out.append(" ");
            out.append(self.name.as_str());
            Ok(out)
        }
    }
}

impl CppFfiFunctionSignature {
    /// Whether the object that the method is called on crosses the boundary
    /// behind a pointer to const.
    pub fn has_const_this(&self) -> (r: bool)
        ensures
            r == has_const_receiver(self@),
    {
        let mut i: usize = 0;
        while i < self.arguments.len()
            invariant
                i <= self.arguments.len(),
                forall|j: int| 0 <= j < i ==> !is_const_receiver(#[trigger] self@.arguments[j]),
            decreases self.arguments.len() - i,
        {
            let arg = &self.arguments[i];
            assert(self@.arguments[i as int] == arg@);
            if arg.meaning == CppFfiArgumentMeaning::This {
                if let CppType::PointerLike { is_const, .. } = &arg.argument_type.ffi_type {
                    if *is_const {
                        return true;
                    }
                }
            }
            i += 1;
        }
        false
    }

    /// The caption of the arguments.
    pub fn arguments_caption(&self, strategy: ArgumentCaptionStrategy) -> (r: Result<String, Error>)
        ensures
            text_result_is(r, arguments_caption_of(self@, strategy)),
    {
        let ghost m = self@.arguments;
        let mut captions: Vec<String> = Vec::new();
        let mut i: usize = 0;
        proof {
            assert(m.skip(0) =~= m);
        }
        while i < self.arguments.len()
            invariant
                i <= self.arguments.len(),
                m == self@.arguments,
                argument_captions_of(m, strategy) == texts_then(
                    texts_of(captions@),
                    argument_captions_of(m.skip(i as int), strategy),
                ),
            decreases self.arguments.len() - i,
        {
            let ghost before = texts_of(captions@);
            proof {
                assert(m.skip(i as int).drop_first() =~= m.skip(i + 1));
            }
            if self.arguments[i].meaning.is_argument() {
                let caption = self.arguments[i].caption(strategy)?;
                captions.push(caption);
                proof {
                    let tail = argument_captions_of(m.skip(i + 1), strategy);
                    if tail is Ok {
                        assert(texts_of(captions@) + tail->Ok_0 =~= before + (seq![caption@]
                            + tail->Ok_0));
                    }
                }
            }
            i += 1;
        }
        if captions.len() == 0 {
            Ok(String::from_str("no_args"))
        } else {
            Ok(join(&captions, "_"))
        }
    }

    /// The caption of the signature.
    pub fn caption(&self, strategy: MethodCaptionStrategy) -> (r: Result<String, Error>)
        ensures
            text_result_is(r, signature_caption_of(self@, strategy)),
    {
        match strategy {
            MethodCaptionStrategy::ArgumentsOnly(s) => self.arguments_caption(s),
            MethodCaptionStrategy::ConstOnly => Ok(
                if self.has_const_this() {
                    String::from_str("const")
                } else {
                    String::new()
                },
            ),
            MethodCaptionStrategy::ConstAndArguments(s) => {
                let caption = self.arguments_caption(s)?;
                let mut out = String::new();
                if self.has_const_this() {
                    out.append("const_");
                }
                out.append(caption.as_str());
                Ok(out)
            },
        }
    }
}

/// What the allocation place adds to the name of a function that is neither
/// a constructor nor a destructor.
pub open spec fn place_suffix(place: ReturnValueAllocationPlace) -> Seq<char> {
    match place {
        ReturnValueAllocationPlace::Stack => "_to_output"@,
        ReturnValueAllocationPlace::Heap => "_as_ptr"@,
        ReturnValueAllocationPlace::NotApplicable => Seq::empty(),
    }
}

/// The part of the base name that names the function within its scope.
pub open spec fn member_name_of(f: FunctionModel, place: ReturnValueAllocationPlace) -> Result<
    Seq<char>,
    Error,
> {
    if f.member matches Some(m) && m.kind == CppFunctionKind::Constructor {
        match place {
            ReturnValueAllocationPlace::Stack => Ok("constructor"@),
            ReturnValueAllocationPlace::Heap => Ok("new"@),
            ReturnValueAllocationPlace::NotApplicable => Err(Error::AllocationPlaceNotApplicable),
        }
    } else if f.member matches Some(m) && m.kind == CppFunctionKind::Destructor {
        match place {
            ReturnValueAllocationPlace::Stack => Ok("destructor"@),
            ReturnValueAllocationPlace::Heap => Ok("delete"@),
            ReturnValueAllocationPlace::NotApplicable => Err(Error::AllocationPlaceNotApplicable),
        }
    } else {
        match f.operator {
            Some(OperatorModel::Conversion(t)) => match caption_of(t, TypeCaptionStrategy::Full) {
                Ok(caption) => Ok("convert_to_"@ + caption + place_suffix(place)),
                Err(e) => Err(e),
            },
            Some(OperatorModel::Symbolic(op)) => Ok(
                "operator_"@ + symbol_token(op) + place_suffix(place),
            ),
            None => Ok(scopes_flattened(f.name) + place_suffix(place)),
        }
    }
}

/// The part of the base name that names the scope of the function: the
/// caption of the class of a method, or the include file of a free function.
pub open spec fn scope_prefix_of(f: FunctionModel, include_file: Seq<char>) -> Result<
    Seq<char>,
    Error,
> {
    match f.member {
        Some(m) => match class_caption_of(m.class_type, TypeCaptionStrategy::Full) {
            Ok(caption) => Ok(caption + "_"@),
            Err(e) => Err(e),
        },
        None => Ok(include_file + "_G_"@),
    }
}

/// The base name of the boundary function that wraps `f`.
pub open spec fn base_name_of(
    f: FunctionModel,
    place: ReturnValueAllocationPlace,
    include_file: Seq<char>,
) -> Result<Seq<char>, Error> {
    match scope_prefix_of(f, include_file) {
        Err(e) => Err(e),
        Ok(prefix) => match member_name_of(f, place) {
            Err(e) => Err(e),
            Ok(name) => Ok(prefix + name),
        },
    }
}

impl ReturnValueAllocationPlace {
    /// What the allocation place adds to the name of a function.
    pub fn suffix(&self) -> (r: &'static str)
        ensures
            r@ == place_suffix(*self),
    {
        match self {
            ReturnValueAllocationPlace::Stack => "_to_output",
            ReturnValueAllocationPlace::Heap => "_as_ptr",
            ReturnValueAllocationPlace::NotApplicable => {
                proof {
                    reveal_strlit("");
                }
                ""
            },
        }
    }
}

impl CppFunction {
    /// The part of the base name that names the function within its scope.
    pub fn c_member_name(&self, allocation_place: ReturnValueAllocationPlace) -> (r: Result<
        String,
        Error,
    >)
        ensures
            text_result_is(r, member_name_of(self@, allocation_place)),
    {
        if self.is_constructor() {
            match allocation_place {
                ReturnValueAllocationPlace::Stack => Ok(String::from_str("constructor")),
                ReturnValueAllocationPlace::Heap => Ok(String::from_str("new")),
                ReturnValueAllocationPlace::NotApplicable => Err(
                    Error::AllocationPlaceNotApplicable,
                ),
            }
        } else if self.is_destructor() {
            match allocation_place {
                ReturnValueAllocationPlace::Stack => Ok(String::from_str("destructor")),
                ReturnValueAllocationPlace::Heap => Ok(String::from_str("delete")),
                ReturnValueAllocationPlace::NotApplicable => Err(
                    Error::AllocationPlaceNotApplicable,
                ),
            }
        } else {
            let mut out = match &self.operator {
                Some(CppOperator::Conversion(t)) => {
                    let caption = t.caption(TypeCaptionStrategy::Full)?;
                    let mut name = String::from_str("convert_to_");
                    name.append(caption.as_str());
                    name
                },
                Some(CppOperator::Symbolic(op)) => {
                    let mut name = String::from_str("operator_");
                    name.append(op.c_name());
                    name
                },
                None => flatten_scopes(self.name.as_str()),
            };
            out.append(allocation_place.suffix());
            Ok(out)
        }
    }

    /// The base name of the boundary function that wraps this function:
    /// the scope, then the name within the scope, then what the allocation
    /// place adds. Overloads share it.
    pub fn c_base_name(
        &self,
        allocation_place: ReturnValueAllocationPlace,
        include_file: &str,
    ) -> (r: Result<String, Error>)
        ensures
            text_result_is(r, base_name_of(self@, allocation_place, include_file@)),
    {
        let mut out = match &self.member {
            Some(info) => {
                let mut prefix = info.class_type.caption(TypeCaptionStrategy::Full)?;
                prefix.append("_");
                prefix
            },
            None => {
                let mut prefix = String::from_str(include_file);
                prefix.append("_G_");
                prefix
            },
        };
        let name = self.c_member_name(allocation_place)?;
        out.append(name.as_str());
        Ok(out)
    }
}

} // verus!
