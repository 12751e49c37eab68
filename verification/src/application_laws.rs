//! What holds of substitution and of the application of template
//! instantiations.

use crate::cpp_data::InstantiationModel;
use crate::cpp_function::{argument_types, involved_types, receiver_type, FunctionModel};
use crate::cpp_operator::OperatorModel;
use crate::cpp_template_instantiator::{
    applied, function_indices_within, function_substituted, has_own_parameters,
};
use crate::cpp_type::{
    all_indices_within, all_substituted, all_well_formed, any_contains_parameter,
    any_contains_parameter_at, any_mentions_parameter, contains_parameter, contains_parameter_at,
    indices_within, mentions_parameter, substituted, well_formed, TypeModel,
};
use crate::errors::Error;
use vstd::prelude::*;

verus! {

/// A template parameter of some depth in one of the types is a template
/// parameter in one of the types.
pub proof fn lemma_any_parameter_at_is_parameter(ts: Seq<TypeModel>, depth: nat)
    ensures
        any_contains_parameter_at(ts, depth) ==> any_contains_parameter(ts),
    decreases ts, 0nat,
{
    if any_contains_parameter_at(ts, depth) {
        let i = choose|i: int| 0 <= i < ts.len() && contains_parameter_at(#[trigger] ts[i], depth);
        lemma_parameter_at_is_parameter(ts[i], depth);
    }
}

/// A template parameter of some depth in a type is a template parameter in
/// the type.
pub proof fn lemma_parameter_at_is_parameter(t: TypeModel, depth: nat)
    ensures
        contains_parameter_at(t, depth) ==> contains_parameter(t),
    decreases t, 1nat,
{
    match t {
        TypeModel::Class(c) => match c.template_arguments {
            Some(args) => lemma_any_parameter_at_is_parameter(args, depth),
            None => {},
        },
        TypeModel::FunctionPointer { return_type, arguments, .. } => {
            lemma_parameter_at_is_parameter(*return_type, depth);
            lemma_any_parameter_at_is_parameter(arguments, depth);
        },
        TypeModel::PointerLike { target, .. } => lemma_parameter_at_is_parameter(*target, depth),
        _ => {},
    }
}

/// Substitution in a list of types leaves no template parameter of the
/// substituted depth, as `lemma_substituted_has_no_parameter_at` says of one
/// type.
pub proof fn lemma_all_substituted_have_no_parameter_at(
    ts: Seq<TypeModel>,
    depth: nat,
    args: Seq<TypeModel>,
)
    requires
        all_indices_within(ts, depth, args.len()),
        !any_contains_parameter_at(args, depth),
    ensures
        !any_contains_parameter_at(all_substituted(ts, depth, args), depth),
    decreases ts, 0nat,
{
    assert forall|i: int| 0 <= i < ts.len() implies !contains_parameter_at(
        #[trigger] all_substituted(ts, depth, args)[i],
        depth,
    ) by {
        lemma_substituted_has_no_parameter_at(ts[i], depth, args);
    }
}

/// Soundness of substitution: where the arguments hold no template parameter
/// of the substituted depth, and every parameter of that depth in the type
/// has an argument, the result holds no template parameter of that depth.
pub proof fn lemma_substituted_has_no_parameter_at(t: TypeModel, depth: nat, args: Seq<TypeModel>)
    requires
        indices_within(t, depth, args.len()),
        !any_contains_parameter_at(args, depth),
    ensures
        !contains_parameter_at(substituted(t, depth, args), depth),
    decreases t, 1nat,
{
    match t {
        TypeModel::Class(c) => match c.template_arguments {
            Some(targs) => lemma_all_substituted_have_no_parameter_at(targs, depth, args),
            None => {},
        },
        TypeModel::FunctionPointer { return_type, arguments, .. } => {
            lemma_substituted_has_no_parameter_at(*return_type, depth, args);
            lemma_all_substituted_have_no_parameter_at(arguments, depth, args);
        },
        TypeModel::PointerLike { target, .. } => {
            lemma_substituted_has_no_parameter_at(*target, depth, args);
        },
        _ => {},
    }
}

/// Substitution leaves a list of types without template parameters of the
/// substituted depth as it is.
pub proof fn lemma_all_substituted_unchanged(ts: Seq<TypeModel>, depth: nat, args: Seq<TypeModel>)
    requires
        !any_contains_parameter_at(ts, depth),
    ensures
        all_substituted(ts, depth, args) == ts,
    decreases ts, 0nat,
{
    assert forall|i: int| 0 <= i < ts.len() implies #[trigger] all_substituted(ts, depth, args)[i]
        == ts[i] by {
        lemma_substituted_unchanged(ts[i], depth, args);
    }
}

/// Substitution touches the template parameters of one depth only: a type
/// without template parameters of that depth stays as it is, whatever
/// parameters of other depths it holds.
pub proof fn lemma_substituted_unchanged(t: TypeModel, depth: nat, args: Seq<TypeModel>)
    requires
        !contains_parameter_at(t, depth),
    ensures
        substituted(t, depth, args) == t,
    decreases t, 1nat,
{
    match t {
        TypeModel::Class(c) => match c.template_arguments {
            Some(targs) => lemma_all_substituted_unchanged(targs, depth, args),
            None => {},
        },
        TypeModel::FunctionPointer { return_type, arguments, .. } => {
            lemma_substituted_unchanged(*return_type, depth, args);
            lemma_all_substituted_unchanged(arguments, depth, args);
        },
        TypeModel::PointerLike { target, .. } => {
            lemma_substituted_unchanged(*target, depth, args);
        },
        _ => {},
    }
}

/// Substitution of well-formed arguments in well-formed types gives
/// well-formed types.
pub proof fn lemma_all_substituted_well_formed(ts: Seq<TypeModel>, depth: nat, args: Seq<TypeModel>)
    requires
        all_well_formed(ts),
        all_well_formed(args),
    ensures
        all_well_formed(all_substituted(ts, depth, args)),
        all_substituted(ts, depth, args).len() == ts.len(),
    decreases ts, 0nat,
{
    assert forall|i: int| 0 <= i < ts.len() implies well_formed(
        #[trigger] all_substituted(ts, depth, args)[i],
    ) by {
        lemma_substituted_well_formed(ts[i], depth, args);
    }
}

/// Substitution of well-formed arguments in a well-formed type gives a
/// well-formed type.
pub proof fn lemma_substituted_well_formed(t: TypeModel, depth: nat, args: Seq<TypeModel>)
    requires
        well_formed(t),
        all_well_formed(args),
    ensures
        well_formed(substituted(t, depth, args)),
    decreases t, 1nat,
{
    match t {
        TypeModel::Class(c) => match c.template_arguments {
            Some(targs) => lemma_all_substituted_well_formed(targs, depth, args),
            None => {},
        },
        TypeModel::FunctionPointer { return_type, arguments, .. } => {
            lemma_substituted_well_formed(*return_type, depth, args);
            lemma_all_substituted_well_formed(arguments, depth, args);
        },
        TypeModel::PointerLike { target, .. } => {
            lemma_substituted_well_formed(*target, depth, args);
        },
        _ => {},
    }
}

/// The types of a concatenation are well formed where those of both parts
/// are.
pub proof fn lemma_all_well_formed_concat(a: Seq<TypeModel>, b: Seq<TypeModel>)
    ensures
        all_well_formed(a + b) <==> all_well_formed(a) && all_well_formed(b),
{
    if all_well_formed(a + b) {
        assert forall|i: int| 0 <= i < a.len() implies well_formed(#[trigger] a[i]) by {
            assert((a + b)[i] == a[i]);
        }
        assert forall|i: int| 0 <= i < b.len() implies well_formed(#[trigger] b[i]) by {
            assert((a + b)[i + a.len()] == b[i]);
        }
    }
}

/// Applying an instantiation with well-formed arguments to a function that
/// mentions only well-formed types gives such a function.
pub proof fn lemma_applied_well_formed(f: FunctionModel, depth: nat, inst: InstantiationModel)
    requires
        all_well_formed(involved_types(f)),
        all_well_formed(inst.template_arguments),
        applied(f, depth, inst) is Ok,
    ensures
        all_well_formed(involved_types(applied(f, depth, inst)->Ok_0)),
{
    let args = inst.template_arguments;
    let g = function_substituted(f, depth, args);
    let receiver_f = match f.member {
        Some(m) => seq![receiver_type(m)],
        None => Seq::empty(),
    };
    let conversion_f = match f.operator {
        Some(OperatorModel::Conversion(t)) => seq![t],
        _ => Seq::empty(),
    };
    let own_f = match f.template_arguments {
        Some(ts) => ts,
        None => Seq::empty(),
    };
    let receiver = match g.member {
        Some(m) => seq![receiver_type(m)],
        None => Seq::empty(),
    };
    let arguments = argument_types(g.arguments);
    let returned = seq![g.return_type];
    let conversion = match g.operator {
        Some(OperatorModel::Conversion(t)) => seq![t],
        _ => Seq::empty(),
    };
    lemma_all_well_formed_concat(receiver_f, argument_types(f.arguments));
    lemma_all_well_formed_concat(receiver_f + argument_types(f.arguments), seq![f.return_type]);
    lemma_all_well_formed_concat(
        receiver_f + argument_types(f.arguments) + seq![f.return_type],
        conversion_f,
    );
    lemma_all_well_formed_concat(
        receiver_f + argument_types(f.arguments) + seq![f.return_type] + conversion_f,
        own_f,
    );
    assert(all_well_formed(receiver)) by {
        if f.member is Some {
            let c = f.member->0.class_type;
            let c2 = g.member->0.class_type;
            assert(well_formed(receiver_f[0]));
            assert(well_formed(TypeModel::Class(c)));
            if c.template_arguments is Some {
                lemma_all_substituted_well_formed(c.template_arguments->0, depth, args);
            }
            assert(well_formed(TypeModel::Class(c2)));
        }
    }
    assert(all_well_formed(arguments)) by {
        assert forall|i: int| 0 <= i < arguments.len() implies well_formed(
            #[trigger] arguments[i],
        ) by {
            assert(well_formed(argument_types(f.arguments)[i]));
            lemma_substituted_well_formed(f.arguments[i].argument_type, depth, args);
        }
    }
    assert(all_well_formed(returned)) by {
        assert(well_formed(seq![f.return_type][0]));
        lemma_substituted_well_formed(f.return_type, depth, args);
    }
    assert(all_well_formed(conversion)) by {
        match f.operator {
            Some(OperatorModel::Conversion(t)) => {
                assert(well_formed(conversion_f[0]));
                lemma_substituted_well_formed(t, depth, args);
            },
            _ => {},
        }
    }
}

/// Soundness of substitution in a function that is itself a template of the
/// substituted depth: where the arguments hold no template parameter of that
/// depth, and every parameter of that depth in the function has an argument,
/// the function after the substitution mentions no template parameter of
/// that depth.
pub proof fn lemma_function_substituted_has_no_parameter_at(
    f: FunctionModel,
    depth: nat,
    args: Seq<TypeModel>,
)
    requires
        has_own_parameters(f, depth),
        function_indices_within(f, depth, args.len()),
        !any_contains_parameter_at(args, depth),
    ensures
        !any_contains_parameter_at(involved_types(function_substituted(f, depth, args)), depth),
{
    let g = function_substituted(f, depth, args);
    let receiver = match g.member {
        Some(m) => seq![receiver_type(m)],
        None => Seq::empty(),
    };
    let arguments = argument_types(g.arguments);
    let returned = seq![g.return_type];
    let conversion = match g.operator {
        Some(OperatorModel::Conversion(t)) => seq![t],
        _ => Seq::empty(),
    };
    assert(!any_contains_parameter_at(receiver, depth)) by {
        if f.member is Some {
            let c = f.member->0.class_type;
            let c2 = g.member->0.class_type;
            let class_type = TypeModel::Class(c2);
            if c.template_arguments is Some {
                lemma_all_substituted_have_no_parameter_at(c.template_arguments->0, depth, args);
            }
            assert(!contains_parameter_at(class_type, depth));
        }
    }
    assert(!any_contains_parameter_at(arguments, depth)) by {
        assert forall|i: int| 0 <= i < arguments.len() implies !contains_parameter_at(
            #[trigger] arguments[i],
            depth,
        ) by {
            assert(indices_within(argument_types(f.arguments)[i], depth, args.len()));
            lemma_substituted_has_no_parameter_at(f.arguments[i].argument_type, depth, args);
        }
    }
    assert(!any_contains_parameter_at(returned, depth)) by {
        lemma_substituted_has_no_parameter_at(f.return_type, depth, args);
    }
    assert(!any_contains_parameter_at(conversion, depth)) by {
        match f.operator {
            Some(OperatorModel::Conversion(t)) => {
                lemma_substituted_has_no_parameter_at(t, depth, args);
            },
            _ => {},
        }
    }
}

/// Soundness of application: a function that results from applying an
/// instantiation mentions no template parameter, of the substituted depth or
/// of any other. And where the function's own template parameters are those
/// of the substituted depth, an instantiation with another number of
/// arguments is rejected.
pub proof fn lemma_application_sound(f: FunctionModel, depth: nat, inst: InstantiationModel)
    ensures
        applied(f, depth, inst) matches Ok(g) ==> !any_contains_parameter(involved_types(g))
            && !any_contains_parameter_at(involved_types(g), depth),
        has_own_parameters(f, depth) && f.template_arguments->0.len()
            != inst.template_arguments.len() ==> applied(f, depth, inst) == Err::<
            FunctionModel,
            Error,
        >(Error::TemplateArgumentsCountMismatch),
{
    if applied(f, depth, inst) is Ok {
        let g = applied(f, depth, inst)->Ok_0;
        lemma_any_parameter_at_is_parameter(involved_types(g), depth);
    }
}

/// Whether the argument types, the return type, the class of a method or the
/// target of a conversion operator mention the template parameter of the
/// given depth and index.
pub open spec fn function_mentions_parameter(f: FunctionModel, depth: nat, index: nat) -> bool {
    ||| any_mentions_parameter(argument_types(f.arguments), depth, index)
    ||| mentions_parameter(f.return_type, depth, index)
    ||| (f.member matches Some(m) && mentions_parameter(TypeModel::Class(m.class_type), depth, index))
    ||| (f.operator matches Some(OperatorModel::Conversion(t)) && mentions_parameter(
        t,
        depth,
        index,
    ))
}

/// Substitution in a list of types carries over the template parameters of
/// an argument that one of the types mentions.
pub proof fn lemma_all_substituted_keep_parameters(
    ts: Seq<TypeModel>,
    depth: nat,
    args: Seq<TypeModel>,
    index: nat,
)
    requires
        any_mentions_parameter(ts, depth, index),
        index < args.len(),
        contains_parameter(args[index as int]),
    ensures
        any_contains_parameter(all_substituted(ts, depth, args)),
    decreases ts, 0nat,
{
    let i = choose|i: int| 0 <= i < ts.len() && mentions_parameter(#[trigger] ts[i], depth, index);
    lemma_substituted_keeps_parameters(ts[i], depth, args, index);
    assert(contains_parameter(all_substituted(ts, depth, args)[i]));
}

/// Substitution carries over the template parameters of an argument that the
/// type mentions.
pub proof fn lemma_substituted_keeps_parameters(
    t: TypeModel,
    depth: nat,
    args: Seq<TypeModel>,
    index: nat,
)
    requires
        mentions_parameter(t, depth, index),
        index < args.len(),
        contains_parameter(args[index as int]),
    ensures
        contains_parameter(substituted(t, depth, args)),
    decreases t, 1nat,
{
    match t {
        TypeModel::Class(c) => match c.template_arguments {
            Some(targs) => lemma_all_substituted_keep_parameters(targs, depth, args, index),
            None => {},
        },
        TypeModel::FunctionPointer { return_type, arguments, .. } => {
            if mentions_parameter(*return_type, depth, index) {
                lemma_substituted_keeps_parameters(*return_type, depth, args, index);
            } else {
                lemma_all_substituted_keep_parameters(arguments, depth, args, index);
            }
        },
        TypeModel::PointerLike { target, .. } => {
            lemma_substituted_keeps_parameters(*target, depth, args, index);
        },
        _ => {},
    }
}

/// The occurs-check: an instantiation one of whose arguments holds a template
/// parameter, of whatever depth, is rejected, where the function's own
/// template parameters are those of the substituted depth, or where the
/// function mentions the parameter that the argument stands for.
pub proof fn lemma_leftover_parameter_is_rejected(
    f: FunctionModel,
    depth: nat,
    inst: InstantiationModel,
    i: int,
)
    requires
        has_own_parameters(f, depth) || function_mentions_parameter(f, depth, i as nat),
        0 <= i < inst.template_arguments.len(),
        contains_parameter(inst.template_arguments[i]),
    ensures
        applied(f, depth, inst) is Err,
{
    let args = inst.template_arguments;
    let g = function_substituted(f, depth, args);
    let types = involved_types(g);
    if applied(f, depth, inst) is Ok {
        if has_own_parameters(f, depth) {
            let k = types.len() - args.len() + i;
            assert(types[k] == args[i]);
        } else {
            let receiver = match g.member {
                Some(m) => seq![receiver_type(m)],
                None => Seq::empty(),
            };
            let arguments = argument_types(g.arguments);
            if any_mentions_parameter(argument_types(f.arguments), depth, i as nat) {
                let j = choose|j: int|
                    0 <= j < f.arguments.len() && mentions_parameter(
                        #[trigger] argument_types(f.arguments)[j],
                        depth,
                        i as nat,
                    );
                lemma_substituted_keeps_parameters(
                    f.arguments[j].argument_type,
                    depth,
                    args,
                    i as nat,
                );
                assert(types[receiver.len() + j] == arguments[j]);
            } else if mentions_parameter(f.return_type, depth, i as nat) {
                lemma_substituted_keeps_parameters(f.return_type, depth, args, i as nat);
                assert(types[receiver.len() + arguments.len() as int] == g.return_type);
            } else if f.member matches Some(m) && mentions_parameter(
                TypeModel::Class(m.class_type),
                depth,
                i as nat,
            ) {
                lemma_substituted_keeps_parameters(
                    TypeModel::Class(f.member->0.class_type),
                    depth,
                    args,
                    i as nat,
                );
                assert(contains_parameter(TypeModel::Class(g.member->0.class_type)));
                assert(contains_parameter(receiver_type(g.member->0)));
                assert(types[0] == receiver_type(g.member->0));
            } else {
                let t = f.operator->0->Conversion_0;
                lemma_substituted_keeps_parameters(t, depth, args, i as nat);
                assert(types[receiver.len() + arguments.len() + 1 as int] == substituted(
                    t,
                    depth,
                    args,
                ));
            }
        }
    }
}

} // verus!
