//! Exported names are identifiers: what the naming rules make of names that
//! are written with letters, digits, underscores and scope separators holds
//! nothing but letters, digits and underscores, and does not start with a
//! digit.

use crate::cpp_ffi_data::{
    argument_captions_of, base_name_of, member_name_of, scope_prefix_of, signature_caption_of,
    ArgumentCaptionStrategy, FfiArgumentModel, FfiSignatureModel, MethodCaptionStrategy,
    ReturnValueAllocationPlace,
};
use crate::cpp_function::{CppFunctionKind, FunctionModel};
use crate::cpp_operator::{symbol_token, CppSymbolicOperator, OperatorModel};
use crate::cpp_type::{
    caption_of, captions_of, numeric_code, CppBuiltInNumericType, TypeCaptionStrategy, TypeModel,
};
use crate::overloads::{
    caption_strategies, captions_under, exported_names_of, first_distinguishing,
    lemma_first_distinguishing_distinguishes,
};
use crate::text::{char_replaced, joined, scopes_flattened};
use vstd::prelude::*;

verus! {

/// Whether the character is a digit.
pub open spec fn is_digit(c: char) -> bool {
    '0' <= c <= '9'
}

/// Whether the character can stand in an identifier.
pub open spec fn is_identifier_char(c: char) -> bool {
    ('a' <= c <= 'z') || ('A' <= c <= 'Z') || is_digit(c) || c == '_'
}

/// Whether every character of the text can stand in an identifier.
pub open spec fn is_identifier_text(s: Seq<char>) -> bool {
    forall|i: int| 0 <= i < s.len() ==> is_identifier_char(#[trigger] s[i])
}

/// Whether the text is an identifier: it is not empty, it is made of
/// letters, digits and underscores, and it does not start with a digit.
pub open spec fn is_identifier(s: Seq<char>) -> bool {
    s.len() > 0 && !is_digit(s[0]) && is_identifier_text(s)
}

/// Whether the text is made of identifier characters and scope separators.
pub open spec fn is_scoped_text(s: Seq<char>) -> bool
    decreases s.len(),
{
    if s.len() == 0 {
        true
    } else if s.len() >= 2 && s[0] == ':' && s[1] == ':' {
        is_scoped_text(s.skip(2))
    } else {
        is_identifier_char(s[0]) && is_scoped_text(s.skip(1))
    }
}

/// Whether the text is a qualified name: identifier characters and scope
/// separators, not empty, and not starting with a digit.
pub open spec fn is_scoped_name(s: Seq<char>) -> bool {
    s.len() > 0 && !is_digit(s[0]) && is_scoped_text(s)
}

/// Flattening the scopes of a text of identifier characters and scope
/// separators leaves identifier characters only.
pub proof fn lemma_scopes_flattened_text(s: Seq<char>)
    requires
        is_scoped_text(s),
    ensures
        is_identifier_text(scopes_flattened(s)),
    decreases s.len(),
{
    if s.len() >= 2 && s[0] == ':' && s[1] == ':' {
        lemma_scopes_flattened_text(s.skip(2));
    } else if s.len() > 0 {
        lemma_scopes_flattened_text(s.skip(1));
    }
}

/// Flattening the scopes of a qualified name gives an identifier.
pub proof fn lemma_scopes_flattened_identifier(s: Seq<char>)
    requires
        is_scoped_name(s),
    ensures
        is_identifier(scopes_flattened(s)),
{
    lemma_scopes_flattened_text(s);
}

/// Texts of identifier characters, joined by such a text, are such a text.
pub proof fn lemma_joined_identifier_text(parts: Seq<Seq<char>>, sep: Seq<char>)
    requires
        forall|i: int| 0 <= i < parts.len() ==> is_identifier_text(#[trigger] parts[i]),
        is_identifier_text(sep),
    ensures
        is_identifier_text(joined(parts, sep)),
    decreases parts.len(),
{
    if parts.len() > 1 {
        lemma_joined_identifier_text(parts.drop_last(), sep);
    }
}

/// The caption of a built-in numeric type is an identifier.
pub proof fn lemma_numeric_caption_identifier(kind: CppBuiltInNumericType)
    ensures
        is_identifier(char_replaced(numeric_code(kind), ' ', '_')),
{
    reveal_strlit("bool");
    reveal_strlit("char");
    reveal_strlit("signed char");
    reveal_strlit("unsigned char");
    reveal_strlit("wchar_t");
    reveal_strlit("char16_t");
    reveal_strlit("char32_t");
    reveal_strlit("short");
    reveal_strlit("unsigned short");
    reveal_strlit("int");
    reveal_strlit("unsigned int");
    reveal_strlit("long");
    reveal_strlit("unsigned long");
    reveal_strlit("long long");
    reveal_strlit("unsigned long long");
    reveal_strlit("__int128_t");
    reveal_strlit("__uint128_t");
    reveal_strlit("float");
    reveal_strlit("double");
    reveal_strlit("long double");
}

/// The token of a symbolic operator is made of identifier characters.
pub proof fn lemma_symbol_token_identifier_text(op: CppSymbolicOperator)
    ensures
        is_identifier_text(symbol_token(op)),
{
    reveal_strlit("assign");
    reveal_strlit("add");
    reveal_strlit("sub");
    reveal_strlit("unary_plus");
    reveal_strlit("neg");
    reveal_strlit("mul");
    reveal_strlit("div");
    reveal_strlit("rem");
    reveal_strlit("inc");
    reveal_strlit("inc_postfix");
    reveal_strlit("dec");
    reveal_strlit("dec_postfix");
    reveal_strlit("eq");
    reveal_strlit("neq");
    reveal_strlit("gt");
    reveal_strlit("lt");
    reveal_strlit("ge");
    reveal_strlit("le");
    reveal_strlit("not");
    reveal_strlit("and");
    reveal_strlit("or");
    reveal_strlit("bit_not");
    reveal_strlit("bit_and");
    reveal_strlit("bit_or");
    reveal_strlit("bit_xor");
    reveal_strlit("shl");
    reveal_strlit("shr");
    reveal_strlit("add_assign");
    reveal_strlit("sub_assign");
    reveal_strlit("mul_assign");
    reveal_strlit("div_assign");
    reveal_strlit("rem_assign");
    reveal_strlit("bit_and_assign");
    reveal_strlit("bit_or_assign");
    reveal_strlit("bit_xor_assign");
    reveal_strlit("shl_assign");
    reveal_strlit("shr_assign");
    reveal_strlit("index");
    reveal_strlit("indirection");
    reveal_strlit("address_of");
    reveal_strlit("struct_deref");
    reveal_strlit("ptr_to_member");
    reveal_strlit("call");
    reveal_strlit("comma");
    reveal_strlit("new");
    reveal_strlit("new_array");
    reveal_strlit("delete");
    reveal_strlit("delete_array");
}

/// Whether the names of the classes and enums in each of the types are
/// qualified names.
pub open spec fn all_have_scoped_names(ts: Seq<TypeModel>) -> bool
    decreases ts, 0nat,
{
    forall|i: int| 0 <= i < ts.len() ==> has_scoped_names(#[trigger] ts[i])
}

/// Whether the names of the classes and enums in the type are qualified
/// names.
pub open spec fn has_scoped_names(t: TypeModel) -> bool
    decreases t, 1nat,
{
    match t {
        TypeModel::Enum { name } => is_scoped_name(name),
        TypeModel::Class(c) => is_scoped_name(c.name) && match c.template_arguments {
            Some(args) => all_have_scoped_names(args),
            None => true,
        },
        TypeModel::FunctionPointer { return_type, arguments, .. } => has_scoped_names(*return_type)
            && all_have_scoped_names(arguments),
        TypeModel::PointerLike { target, .. } => has_scoped_names(*target),
        _ => true,
    }
}

/// The captions of types whose names are qualified names are identifiers.
pub proof fn lemma_captions_identifiers(ts: Seq<TypeModel>, strategy: TypeCaptionStrategy)
    requires
        all_have_scoped_names(ts),
        captions_of(ts, strategy) is Ok,
    ensures
        forall|i: int|
            0 <= i < captions_of(ts, strategy)->Ok_0.len() ==> is_identifier(
                #[trigger] captions_of(ts, strategy)->Ok_0[i],
            ),
    decreases ts, 0nat,
{
    if ts.len() > 0 {
        lemma_caption_identifier(ts.first(), strategy);
        lemma_captions_identifiers(ts.drop_first(), strategy);
    }
}

/// The caption of a type whose names are qualified names is an identifier.
pub proof fn lemma_caption_identifier(t: TypeModel, strategy: TypeCaptionStrategy)
    requires
        has_scoped_names(t),
        caption_of(t, strategy) is Ok,
    ensures
        is_identifier(caption_of(t, strategy)->Ok_0),
    decreases t, 1nat,
{
    reveal_strlit("void");
    reveal_strlit("func");
    reveal_strlit("_");
    reveal_strlit("_func_");
    reveal_strlit("const_");
    reveal_strlit("_ptr");
    reveal_strlit("_ref");
    match t {
        TypeModel::Void => {},
        TypeModel::BuiltInNumeric(kind) => lemma_numeric_caption_identifier(kind),
        TypeModel::Enum { name } => lemma_scopes_flattened_identifier(name),
        TypeModel::Class(c) => {
            lemma_scopes_flattened_identifier(c.name);
            match c.template_arguments {
                Some(args) => {
                    lemma_captions_identifiers(args, strategy);
                    let captions = captions_of(args, strategy)->Ok_0;
                    lemma_joined_identifier_text(captions, "_"@);
                },
                None => {},
            }
        },
        TypeModel::TemplateParameter { .. } => {},
        TypeModel::FunctionPointer { return_type, arguments, .. } => match strategy {
            TypeCaptionStrategy::Short => {},
            TypeCaptionStrategy::Full => {
                lemma_caption_identifier(*return_type, strategy);
                lemma_captions_identifiers(arguments, strategy);
                let captions = captions_of(arguments, strategy)->Ok_0;
                lemma_joined_identifier_text(captions, "_"@);
            },
        },
        TypeModel::PointerLike { target, .. } => {
            lemma_caption_identifier(*target, strategy);
        },
    }
}

/// Whether the names that the base name of a function is made of are
/// qualified names: the name of the class of a method, the names in the
/// target of a conversion operator, and the name of a function that is
/// neither an operator nor a constructor or destructor.
pub open spec fn function_has_scoped_names(f: FunctionModel) -> bool {
    &&& (f.member matches Some(m) ==> has_scoped_names(TypeModel::Class(m.class_type)))
    &&& (f.operator matches Some(OperatorModel::Conversion(t)) ==> has_scoped_names(t))
    &&& (f.operator is None && !(f.member matches Some(m) && m.kind != CppFunctionKind::Regular)
        ==> is_scoped_text(f.name))
}

/// The base name of a function whose names are qualified names, within an
/// include file whose name is an identifier, is an identifier.
pub proof fn lemma_base_name_identifier(
    f: FunctionModel,
    place: ReturnValueAllocationPlace,
    include_file: Seq<char>,
)
    requires
        function_has_scoped_names(f),
        f.member is None ==> is_identifier(include_file),
        base_name_of(f, place, include_file) is Ok,
    ensures
        is_identifier(base_name_of(f, place, include_file)->Ok_0),
{
    reveal_strlit("_");
    reveal_strlit("_G_");
    reveal_strlit("constructor");
    reveal_strlit("new");
    reveal_strlit("destructor");
    reveal_strlit("delete");
    reveal_strlit("convert_to_");
    reveal_strlit("operator_");
    reveal_strlit("_to_output");
    reveal_strlit("_as_ptr");
    let prefix = scope_prefix_of(f, include_file)->Ok_0;
    let name = member_name_of(f, place)->Ok_0;
    assert(is_identifier(prefix)) by {
        if f.member is Some {
            lemma_caption_identifier(
                TypeModel::Class(f.member->0.class_type),
                TypeCaptionStrategy::Full,
            );
        }
    }
    assert(is_identifier_text(name)) by {
        match f.operator {
            Some(OperatorModel::Conversion(t)) => {
                if caption_of(t, TypeCaptionStrategy::Full) is Ok {
                    lemma_caption_identifier(t, TypeCaptionStrategy::Full);
                }
            },
            Some(OperatorModel::Symbolic(op)) => {
                lemma_symbol_token_identifier_text(op);
            },
            None => {
                if is_scoped_text(f.name) {
                    lemma_scopes_flattened_text(f.name);
                }
            },
        }
    }
}

/// Where the names of the arguments are made of identifier characters and
/// the names in their types are qualified names, the captions of the
/// arguments are made of identifier characters.
pub open spec fn arguments_have_plain_names(args: Seq<FfiArgumentModel>) -> bool {
    forall|i: int|
        0 <= i < args.len() ==> is_identifier_text((#[trigger] args[i]).name) && has_scoped_names(
            args[i].argument_type.original_type,
        )
}

/// The captions of arguments with plain names are made of identifier
/// characters.
pub proof fn lemma_argument_captions_identifier_text(
    args: Seq<FfiArgumentModel>,
    strategy: ArgumentCaptionStrategy,
)
    requires
        arguments_have_plain_names(args),
        argument_captions_of(args, strategy) is Ok,
    ensures
        forall|i: int|
            0 <= i < argument_captions_of(args, strategy)->Ok_0.len() ==> is_identifier_text(
                #[trigger] argument_captions_of(args, strategy)->Ok_0[i],
            ),
    decreases args.len(),
{
    reveal_strlit("_");
    if args.len() > 0 {
        lemma_argument_captions_identifier_text(args.drop_first(), strategy);
        if args.first().meaning is Argument {
            let arg = args[0];
            match strategy {
                ArgumentCaptionStrategy::NameOnly => {},
                ArgumentCaptionStrategy::TypeOnly(s) => {
                    lemma_caption_identifier(arg.argument_type.original_type, s);
                },
                ArgumentCaptionStrategy::TypeAndName(s) => {
                    lemma_caption_identifier(arg.argument_type.original_type, s);
                },
            }
        }
    }
}

/// The caption of a signature whose arguments have plain names is made of
/// identifier characters.
pub proof fn lemma_signature_caption_identifier_text(
    sig: FfiSignatureModel,
    strategy: MethodCaptionStrategy,
)
    requires
        arguments_have_plain_names(sig.arguments),
        signature_caption_of(sig, strategy) is Ok,
    ensures
        is_identifier_text(signature_caption_of(sig, strategy)->Ok_0),
{
    reveal_strlit("_");
    reveal_strlit("no_args");
    reveal_strlit("const");
    reveal_strlit("const_");
    match strategy {
        MethodCaptionStrategy::ArgumentsOnly(s) => {
            lemma_argument_captions_identifier_text(sig.arguments, s);
            lemma_joined_identifier_text(argument_captions_of(sig.arguments, s)->Ok_0, "_"@);
        },
        MethodCaptionStrategy::ConstOnly => {},
        MethodCaptionStrategy::ConstAndArguments(s) => {
            lemma_argument_captions_identifier_text(sig.arguments, s);
            lemma_joined_identifier_text(argument_captions_of(sig.arguments, s)->Ok_0, "_"@);
        },
    }
}

/// Each caption of signatures whose arguments have plain names is made of
/// identifier characters.
pub proof fn lemma_captions_under_identifier_text(
    sigs: Seq<FfiSignatureModel>,
    strategy: MethodCaptionStrategy,
)
    requires
        forall|i: int|
            0 <= i < sigs.len() ==> arguments_have_plain_names((#[trigger] sigs[i]).arguments),
        captions_under(sigs, strategy) is Ok,
    ensures
        forall|i: int|
            0 <= i < captions_under(sigs, strategy)->Ok_0.len() ==> is_identifier_text(
                #[trigger] captions_under(sigs, strategy)->Ok_0[i],
            ),
    decreases sigs.len(),
{
    if sigs.len() > 0 {
        lemma_signature_caption_identifier_text(sigs.first(), strategy);
        lemma_captions_under_identifier_text(sigs.drop_first(), strategy);
    }
}

/// The names under which overloads are exported are identifiers, where their
/// base name is one and their arguments have plain names.
pub proof fn lemma_exported_names_identifiers(base: Seq<char>, sigs: Seq<FfiSignatureModel>)
    requires
        is_identifier(base),
        forall|i: int|
            0 <= i < sigs.len() ==> arguments_have_plain_names((#[trigger] sigs[i]).arguments),
        exported_names_of(base, sigs) is Some,
    ensures
        forall|i: int|
            0 <= i < exported_names_of(base, sigs)->Some_0.len() ==> is_identifier(
                #[trigger] exported_names_of(base, sigs)->Some_0[i],
            ),
{
    reveal_strlit("_");
    if sigs.len() != 1 {
        let strategy = first_distinguishing(sigs, caption_strategies())->Some_0;
        lemma_first_distinguishing_distinguishes(sigs, caption_strategies());
        lemma_captions_under_identifier_text(sigs, strategy);
    }
}

} // verus!
