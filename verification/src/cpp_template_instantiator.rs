//! Discovery of template instantiations in a library's interface, and their
//! application to the functions that mention the template.

use crate::cpp_data::{CppTemplateInstantiation, InstantiationModel};
use crate::cpp_function::{
    argument_types, arguments_model, involved_types, ArgumentModel, CppFunction,
    CppFunctionArgument, CppFunctionMemberData, FunctionModel, MemberModel,
};
use crate::cpp_operator::{CppOperator, OperatorModel};
use crate::cpp_type::{
    all_indices_within, any_contains_parameter, any_is_or_contains_template_parameter,
    class_indices_within, class_substituted, clone_types, code_of, indices_within,
    lemma_code_failure_names_no_type, substituted, type_model, types_equal, types_model, ClassModel,
    CppType, TypeModel,
};
use crate::database::{
    databases_model, item_involved_types, items_with, CppItemData, DatabaseItem, DatabaseItemSource,
    DatabaseModel, ItemDataModel, ItemModel,
};
use crate::errors::Error;
use crate::processor::{
    all_items_model, borrowed_items_model, ProcessingStep, ProcessorData, StepFunction, StepModel,
};
use crate::text::texts_of;
use vstd::prelude::*;

verus! {

/// Whether one of the items records the instantiation.
pub open spec fn has_instantiation(items: Seq<ItemModel>, inst: InstantiationModel) -> bool {
    exists|i: int|
        0 <= i < items.len() && (#[trigger] items[i]).cpp_data
            == ItemDataModel::TemplateInstantiation(inst)
}

/// The first of the types, in order, that mentions an unavailable class type,
/// as `first_unavailable` finds it.
pub open spec fn first_unavailable_in(ts: Seq<TypeModel>, items: Seq<ItemModel>) -> Option<
    TypeModel,
>
    decreases ts, 0nat,
{
    if ts.len() == 0 {
        None
    } else {
        match first_unavailable(ts.first(), items) {
            Some(t) => Some(t),
            None => first_unavailable_in(ts.drop_first(), items),
        }
    }
}

/// The first class type with template arguments, reading the type from the
/// outside in, that none of the items records as an instantiation. A class
/// without template arguments is always available.
pub open spec fn first_unavailable(t: TypeModel, items: Seq<ItemModel>) -> Option<TypeModel>
    decreases t, 1nat,
{
    match t {
        TypeModel::Class(c) => match c.template_arguments {
            Some(args) => if !has_instantiation(
                items,
                InstantiationModel { class_name: c.name, template_arguments: args },
            ) {
                Some(t)
            } else {
                first_unavailable_in(args, items)
            },
            None => None,
        },
        TypeModel::PointerLike { target, .. } => first_unavailable(*target, items),
        TypeModel::FunctionPointer { return_type, arguments, .. } => match first_unavailable(
            *return_type,
            items,
        ) {
            Some(t) => Some(t),
            None => first_unavailable_in(arguments, items),
        },
        _ => None,
    }
}

/// Whether the result reports exactly the expected unavailable type.
pub open spec fn availability_is(r: Result<(), Error>, expected: Option<TypeModel>) -> bool {
    match expected {
        Some(t) => r matches Err(Error::TypeNotAvailable(x)) && x@ == t,
        None => r is Ok,
    }
}

/// Whether one of the items records the instantiation of `name` with
/// `arguments`.
pub fn is_known_instantiation(
    items: &Vec<&DatabaseItem>,
    name: &String,
    arguments: &Vec<CppType>,
) -> (r: bool)
    ensures
        r == has_instantiation(
            borrowed_items_model(items@),
            InstantiationModel { class_name: name@, template_arguments: types_model(arguments@) },
        ),
{
    let ghost wanted = InstantiationModel {
        class_name: name@,
        template_arguments: types_model(arguments@),
    };
    let mut i: usize = 0;
    while i < items.len()
        invariant
            i <= items.len(),
            wanted == (InstantiationModel {
                class_name: name@,
                template_arguments: types_model(arguments@),
            }),
            forall|j: int|
                0 <= j < i ==> (#[trigger] borrowed_items_model(items@)[j]).cpp_data
                    != ItemDataModel::TemplateInstantiation(wanted),
        decreases items.len() - i,
    {
        if let Some(inst) = items[i].cpp_data.as_template_instantiation_ref() {
            if inst.class_name == *name && types_equal(&inst.template_arguments, arguments) {
                assert(borrowed_items_model(items@)[i as int].cpp_data
                    == ItemDataModel::TemplateInstantiation(wanted));
                return true;
            }
        }
        i += 1;
    }
    false
}

/// Checks each of the types as `type_available` does, and reports the first
/// failure.
pub fn types_available(items: &Vec<&DatabaseItem>, types: &Vec<CppType>) -> (r: Result<(), Error>)
    ensures
        availability_is(r, first_unavailable_in(types_model(types@), borrowed_items_model(items@))),
    decreases types, 0nat,
{
    let ghost m = types_model(types@);
    let ghost known = borrowed_items_model(items@);
    let mut i: usize = 0;
    proof {
        assert(m.skip(0) =~= m);
    }
    while i < types.len()
        invariant
            i <= types.len(),
            m == types_model(types@),
            known == borrowed_items_model(items@),
            first_unavailable_in(m, known) == first_unavailable_in(m.skip(i as int), known),
        decreases types.len() - i,
    {
        proof {
            assert(m.skip(i as int).drop_first() =~= m.skip(i + 1));
        }
        type_available(items, &types[i])?;
        i += 1;
    }
    Ok(())
}

/// Checks that every class type with template arguments in `type1` is
/// recorded as an instantiation by one of the items, and reports the first
/// that is not.
pub fn type_available(items: &Vec<&DatabaseItem>, type1: &CppType) -> (r: Result<(), Error>)
    ensures
        availability_is(r, first_unavailable(type1@, borrowed_items_model(items@))),
    decreases type1, 1nat,
{
    match type1 {
        CppType::Class(c) => match &c.template_arguments {
            Some(args) => {
                if !is_known_instantiation(items, &c.name, args) {
                    return Err(Error::TypeNotAvailable(type1.clone()));
                }
                types_available(items, args)
            },
            None => Ok(()),
        },
        CppType::PointerLike { target, .. } => type_available(items, target),
        CppType::FunctionPointer(f) => {
            type_available(items, &f.return_type)?;
            types_available(items, &f.arguments)
        },
        _ => Ok(()),
    }
}

/// Checks that every class type with template arguments in `type1` is a
/// known template instantiation, of this library or of a dependency.
pub fn check_template_type(data: &ProcessorData, type1: &CppType) -> (r: Result<(), Error>)
    ensures
        availability_is(
            r,
            first_unavailable(
                type1@,
                all_items_model(
                    old(data.current_database)@,
                    databases_model(data.dep_databases@),
                ),
            ),
        ),
{
    let items = data.all_items();
    type_available(&items, type1)
}

/// The models of a list of instantiations.
pub open spec fn instantiations_model(v: Seq<CppTemplateInstantiation>) -> Seq<InstantiationModel> {
    Seq::new(v.len(), |i: int| v[i]@)
}

/// The instantiations that the types mention, one type after another.
pub open spec fn types_instantiations(ts: Seq<TypeModel>) -> Seq<InstantiationModel>
    decreases ts, 0nat,
{
    if ts.len() == 0 {
        Seq::empty()
    } else {
        type_instantiations(ts.first()) + types_instantiations(ts.drop_first())
    }
}

/// The instantiations that the type mentions, from the outside in: every
/// class type whose template arguments hold no template parameter, found
/// through pointees, template arguments, and the return and argument types of
/// function pointers.
pub open spec fn type_instantiations(t: TypeModel) -> Seq<InstantiationModel>
    decreases t, 1nat,
{
    match t {
        TypeModel::Class(c) => match c.template_arguments {
            Some(args) => (if !any_contains_parameter(args) {
                seq![InstantiationModel { class_name: c.name, template_arguments: args }]
            } else {
                Seq::empty()
            }) + types_instantiations(args),
            None => Seq::empty(),
        },
        TypeModel::PointerLike { target, .. } => type_instantiations(*target),
        TypeModel::FunctionPointer { return_type, arguments, .. } => type_instantiations(
            *return_type,
        ) + types_instantiations(arguments),
        _ => Seq::empty(),
    }
}

/// The instantiations that the items mention, one item after another.
pub open spec fn items_instantiations(items: Seq<ItemModel>) -> Seq<InstantiationModel>
    decreases items.len(),
{
    if items.len() == 0 {
        Seq::empty()
    } else {
        types_instantiations(item_involved_types(items.first().cpp_data)) + items_instantiations(
            items.drop_first(),
        )
    }
}

/// `found`, extended by each of the candidates in order that neither the
/// known items record nor the list holds by then.
pub open spec fn recorded(
    found: Seq<InstantiationModel>,
    candidates: Seq<InstantiationModel>,
    known: Seq<ItemModel>,
) -> Seq<InstantiationModel>
    decreases candidates.len(),
{
    if candidates.len() == 0 {
        found
    } else {
        let c = candidates.first();
        recorded(
            if !has_instantiation(known, c) && !found.contains(c) {
                found.push(c)
            } else {
                found
            },
            candidates.drop_first(),
            known,
        )
    }
}

/// The instantiations that discovery adds to the current library: those that
/// its items mention and that neither it nor a dependency records, each once,
/// in the order of their first mention.
pub open spec fn discovered(current: DatabaseModel, deps: Seq<DatabaseModel>) -> Seq<
    InstantiationModel,
> {
    recorded(Seq::empty(), items_instantiations(current.items), all_items_model(current, deps))
}

/// The database after discovery has added what it found.
pub open spec fn after_discovery(
    current: DatabaseModel,
    deps: Seq<DatabaseModel>,
) -> DatabaseModel {
    DatabaseModel {
        crate_name: current.crate_name,
        items: current.items + instantiation_items(discovered(current, deps)),
    }
}

/// The instantiations as items derived by instantiation.
pub open spec fn instantiation_items(insts: Seq<InstantiationModel>) -> Seq<ItemModel> {
    Seq::new(
        insts.len(),
        |i: int|
            ItemModel {
                source: DatabaseItemSource::TemplateInstantiation,
                cpp_data: ItemDataModel::TemplateInstantiation(insts[i]),
            },
    )
}

/// Recording candidates in two parts is recording them at once.
pub proof fn lemma_recorded_concat(
    found: Seq<InstantiationModel>,
    a: Seq<InstantiationModel>,
    b: Seq<InstantiationModel>,
    known: Seq<ItemModel>,
)
    ensures
        recorded(found, a + b, known) == recorded(recorded(found, a, known), b, known),
    decreases a.len(),
{
    if a.len() > 0 {
        let c = a.first();
        let next = if !has_instantiation(known, c) && !found.contains(c) {
            found.push(c)
        } else {
            found
        };
        assert((a + b).drop_first() =~= a.drop_first() + b);
        lemma_recorded_concat(next, a.drop_first(), b, known);
    }
}

/// Whether the list holds the instantiation of `name` with `arguments`.
pub fn contains_instantiation(
    list: &Vec<CppTemplateInstantiation>,
    name: &String,
    arguments: &Vec<CppType>,
) -> (r: bool)
    ensures
        r == instantiations_model(list@).contains(
            InstantiationModel { class_name: name@, template_arguments: types_model(arguments@) },
        ),
{
    let ghost wanted = InstantiationModel {
        class_name: name@,
        template_arguments: types_model(arguments@),
    };
    let mut i: usize = 0;
    while i < list.len()
        invariant
            i <= list.len(),
            wanted == (InstantiationModel {
                class_name: name@,
                template_arguments: types_model(arguments@),
            }),
            forall|j: int| 0 <= j < i ==> #[trigger] instantiations_model(list@)[j] != wanted,
        decreases list.len() - i,
    {
        if list[i].class_name == *name && types_equal(&list[i].template_arguments, arguments) {
            assert(instantiations_model(list@)[i as int] == wanted);
            return true;
        }
        i += 1;
    }
    false
}

/// Records the instantiations that the types mention, as `check_type` does
/// for each.
pub fn check_types(
    types: &Vec<CppType>,
    items: &Vec<&DatabaseItem>,
    result: &mut Vec<CppTemplateInstantiation>,
)
    ensures
        instantiations_model(final(result)@) == recorded(
            instantiations_model(old(result)@),
            types_instantiations(types_model(types@)),
            borrowed_items_model(items@),
        ),
    decreases types, 0nat,
{
    let ghost m = types_model(types@);
    let ghost known = borrowed_items_model(items@);
    let ghost start = instantiations_model(result@);
    let mut i: usize = 0;
    proof {
        assert(m.skip(0) =~= m);
    }
    while i < types.len()
        invariant
            i <= types.len(),
            m == types_model(types@),
            known == borrowed_items_model(items@),
            recorded(start, types_instantiations(m), known) == recorded(
                instantiations_model(result@),
                types_instantiations(m.skip(i as int)),
                known,
            ),
        decreases types.len() - i,
    {
        proof {
            assert(m.skip(i as int).drop_first() =~= m.skip(i + 1));
            lemma_recorded_concat(
                instantiations_model(result@),
                type_instantiations(m[i as int]),
                types_instantiations(m.skip(i + 1)),
                known,
            );
        }
        check_type(&types[i], items, result);
        i += 1;
    }
}

/// Records in `result` each instantiation that `type1` mentions and that
/// neither the items nor `result` hold yet.
pub fn check_type(
    type1: &CppType,
    items: &Vec<&DatabaseItem>,
    result: &mut Vec<CppTemplateInstantiation>,
)
    ensures
        instantiations_model(final(result)@) == recorded(
            instantiations_model(old(result)@),
            type_instantiations(type1@),
            borrowed_items_model(items@),
        ),
    decreases type1, 1nat,
{
    let ghost known = borrowed_items_model(items@);
    let ghost start = instantiations_model(result@);
    match type1 {
        CppType::Class(c) => {
            if let Some(args) = &c.template_arguments {
                let ghost inst = InstantiationModel {
                    class_name: c.name@,
                    template_arguments: types_model(args@),
                };
                let ghost head = if !any_contains_parameter(types_model(args@)) {
                    seq![inst]
                } else {
                    Seq::empty()
                };
                if !any_is_or_contains_template_parameter(args) {
                    if !is_known_instantiation(items, &c.name, args) {
                        if !contains_instantiation(result, &c.name, args) {
                            result.push(
                                CppTemplateInstantiation {
                                    class_name: c.name.clone(),
                                    template_arguments: clone_types(args),
                                },
                            );
                            proof {
                                assert(instantiations_model(result@) =~= start.push(inst));
                            }
                        }
                    }
                }
                proof {
                    if head.len() > 0 {
                        let next = if !has_instantiation(known, inst) && !start.contains(inst) {
                            start.push(inst)
                        } else {
                            start
                        };
                        assert(recorded(next, head.drop_first(), known) == next);
                    }
                    lemma_recorded_concat(
                        start,
                        head,
                        types_instantiations(types_model(args@)),
                        known,
                    );
                }
                check_types(args, items, result);
            }
        },
        CppType::PointerLike { target, .. } => check_type(target, items, result),
        CppType::FunctionPointer(f) => {
            proof {
                lemma_recorded_concat(
                    start,
                    type_instantiations(type_model(*f.return_type)),
                    types_instantiations(types_model(f.arguments@)),
                    known,
                );
            }
            check_type(&f.return_type, items, result);
            check_types(&f.arguments, items, result);
        },
        _ => {},
    }
}

/// What `recorded` adds is recorded by none of the known items and occurs
/// once, and what was found before stays in front.
pub proof fn lemma_recorded_fresh(
    found: Seq<InstantiationModel>,
    candidates: Seq<InstantiationModel>,
    known: Seq<ItemModel>,
)
    requires
        forall|i: int| 0 <= i < found.len() ==> !has_instantiation(known, #[trigger] found[i]),
        found.no_duplicates(),
    ensures
        forall|i: int|
            0 <= i < recorded(found, candidates, known).len() ==> !has_instantiation(
                known,
                #[trigger] recorded(found, candidates, known)[i],
            ),
        recorded(found, candidates, known).no_duplicates(),
        found.len() <= recorded(found, candidates, known).len(),
        recorded(found, candidates, known).take(found.len() as int) == found,
    decreases candidates.len(),
{
    if candidates.len() > 0 {
        let c = candidates.first();
        let next = if !has_instantiation(known, c) && !found.contains(c) {
            found.push(c)
        } else {
            found
        };
        lemma_recorded_fresh(next, candidates.drop_first(), known);
    }
}

/// Searches for template instantiations in this library's interface, and adds
/// those that neither this library nor a dependency records yet. The search
/// never fails.
pub fn find_template_instantiations(data: ProcessorData) -> (r: Result<(), Error>)
    ensures
        r is Ok,
        final(data.current_database)@ == after_discovery(
            old(data.current_database)@,
            databases_model(data.dep_databases@),
        ),
{
    let ghost current = data.current_database@;
    let ghost known = all_items_model(current, databases_model(data.dep_databases@));
    let ghost at_return = *final(data.current_database);
    let mut result: Vec<CppTemplateInstantiation> = Vec::new();
    {
        let items = data.all_items();
        let mut i: usize = 0;
        proof {
            assert(current.items.skip(0) =~= current.items);
            assert(instantiations_model(result@) =~= Seq::empty());
        }
        while i < data.current_database.items.len()
            invariant
                i <= data.current_database.items.len(),
                data.current_database@ == current,
                *final(data.current_database) == at_return,
                borrowed_items_model(items@) == known,
                discovered(current, databases_model(data.dep_databases@)) == recorded(
                    instantiations_model(result@),
                    items_instantiations(current.items.skip(i as int)),
                    known,
                ),
            decreases data.current_database.items.len() - i,
        {
            let types = data.current_database.items[i].cpp_data.all_involved_types();
            proof {
                let rest = current.items.skip(i as int);
                assert(rest.drop_first() =~= current.items.skip(i + 1));
                lemma_recorded_concat(
                    instantiations_model(result@),
                    types_instantiations(item_involved_types(current.items[i as int].cpp_data)),
                    items_instantiations(current.items.skip(i + 1)),
                    known,
                );
            }
            check_types(&types, &items, &mut result);
            i += 1;
        }
    }
    let ghost found = instantiations_model(result@);
    proof {
        lemma_recorded_fresh(Seq::empty(), items_instantiations(current.items), known);
    }
    let mut k: usize = 0;
    while k < result.len()
        invariant
            k <= result.len(),
            *final(data.current_database) == at_return,
            found == instantiations_model(result@),
            known == all_items_model(current, databases_model(data.dep_databases@)),
            forall|i: int| 0 <= i < found.len() ==> !has_instantiation(known, #[trigger] found[i]),
            found.no_duplicates(),
            data.current_database@.crate_name == current.crate_name,
            data.current_database@.items == current.items + instantiation_items(
                found.take(k as int),
            ),
        decreases result.len() - k,
    {
        let item = CppItemData::TemplateInstantiation(result[k].clone());
        proof {
            let before = data.current_database@.items;
            assert(item@ == ItemDataModel::TemplateInstantiation(found[k as int]));
            assert forall|j: int| 0 <= j < before.len() implies (#[trigger] before[j]).cpp_data
                != item@ by {
                if j < current.items.len() {
                    assert(known[j] == current.items[j]);
                }
            }
        }
        data.current_database.add_cpp_data(DatabaseItemSource::TemplateInstantiation, item);
        k += 1;
    }
    proof {
        assert(found.take(k as int) =~= found);
    }
    Ok(())
}

/// Whether the type is the template parameter of the given depth and index.
pub open spec fn is_placeholder(t: TypeModel, depth: nat, index: int) -> bool {
    match t {
        TypeModel::TemplateParameter { nested_level, index: i, .. } => nested_level == depth && i
            == index,
        _ => false,
    }
}

/// Whether the types are exactly the template parameters of the given depth
/// with the indices 0, 1, 2 and so on, in order.
pub open spec fn is_placeholder_list(ts: Seq<TypeModel>, depth: nat) -> bool {
    forall|i: int| 0 <= i < ts.len() ==> is_placeholder(#[trigger] ts[i], depth, i)
}

/// Whether the function is itself a template whose parameters are those of
/// the given depth.
pub open spec fn has_own_parameters(f: FunctionModel, depth: nat) -> bool {
    f.template_arguments matches Some(ps) && is_placeholder_list(ps, depth)
}

/// Whether every template parameter of the given depth in the argument types,
/// the return type, the class of a method and the target of a conversion
/// operator has an index below `count`.
pub open spec fn function_indices_within(f: FunctionModel, depth: nat, count: nat) -> bool {
    &&& all_indices_within(argument_types(f.arguments), depth, count)
    &&& indices_within(f.return_type, depth, count)
    &&& (f.member matches Some(m) ==> class_indices_within(m.class_type, depth, count))
    &&& (f.operator matches Some(OperatorModel::Conversion(t)) ==> indices_within(t, depth, count))
}

/// The arguments with their types after the substitution.
pub open spec fn arguments_substituted(
    arguments: Seq<ArgumentModel>,
    depth: nat,
    args: Seq<TypeModel>,
) -> Seq<ArgumentModel> {
    Seq::new(
        arguments.len(),
        |i: int|
            ArgumentModel {
                name: arguments[i].name,
                argument_type: substituted(arguments[i].argument_type, depth, args),
                has_default_value: arguments[i].has_default_value,
            },
    )
}

/// The function after the substitution of the template parameters of the
/// given depth in its argument types, its return type, the class of a method
/// and the target of a conversion operator. Where the function's own template
/// parameters are those of that depth, the arguments take their place.
pub open spec fn function_substituted(
    f: FunctionModel,
    depth: nat,
    args: Seq<TypeModel>,
) -> FunctionModel {
    FunctionModel {
        name: f.name,
        member: match f.member {
            Some(m) => Some(
                MemberModel {
                    class_type: class_substituted(m.class_type, depth, args),
                    kind: m.kind,
                    is_const: m.is_const,
                    is_static: m.is_static,
                },
            ),
            None => None,
        },
        operator: match f.operator {
            Some(OperatorModel::Conversion(t)) => Some(
                OperatorModel::Conversion(substituted(t, depth, args)),
            ),
            other => other,
        },
        return_type: substituted(f.return_type, depth, args),
        arguments: arguments_substituted(f.arguments, depth, args),
        template_arguments: if has_own_parameters(f, depth) {
            Some(args)
        } else {
            f.template_arguments
        },
    }
}

/// The result of applying an instantiation to a function at the given depth.
///
/// The application is rejected where the function's own template parameters
/// are those of that depth and their number differs from the number of the
/// instantiation's arguments; where a template parameter of that depth has an
/// index beyond these arguments; and where a template parameter of any depth
/// is left after the substitution. A conversion operator is then named after
/// the spelling of its new target, and rejected where that has none.
pub open spec fn applied(f: FunctionModel, depth: nat, inst: InstantiationModel) -> Result<
    FunctionModel,
    Error,
> {
    let args = inst.template_arguments;
    if has_own_parameters(f, depth) && f.template_arguments->0.len() != args.len() {
        Err(Error::TemplateArgumentsCountMismatch)
    } else if !function_indices_within(f, depth, args.len()) {
        Err(Error::NotEnoughTemplateArguments)
    } else {
        let g = function_substituted(f, depth, args);
        if any_contains_parameter(involved_types(g)) {
            Err(Error::ExtraTemplateParametersLeft)
        } else {
            match g.operator {
                Some(OperatorModel::Conversion(t)) => match code_of(t, None) {
                    Ok(code) => Ok(
                        FunctionModel {
                            name: "operator "@ + code,
                            member: g.member,
                            operator: g.operator,
                            return_type: g.return_type,
                            arguments: g.arguments,
                            template_arguments: g.template_arguments,
                        },
                    ),
                    Err(e) => Err(e),
                },
                _ => Ok(g),
            }
        }
    }
}

/// Whether the types are exactly the template parameters of the given depth
/// with the indices 0, 1, 2 and so on.
pub fn is_template_parameter_list(types: &Vec<CppType>, nested_level: usize) -> (r: bool)
    ensures
        r == is_placeholder_list(types_model(types@), nested_level as nat),
{
    let mut i: usize = 0;
    while i < types.len()
        invariant
            i <= types.len(),
            forall|j: int|
                0 <= j < i ==> is_placeholder(
                    #[trigger] types_model(types@)[j],
                    nested_level as nat,
                    j,
                ),
        decreases types.len() - i,
    {
        let ok = match &types[i] {
            CppType::TemplateParameter { nested_level: level, index, .. } => *level == nested_level
                && *index == i,
            _ => false,
        };
        if !ok {
            assert(types_model(types@)[i as int] == types@[i as int]@);
            return false;
        }
        i += 1;
    }
    true
}

/// Applies `template_instantiation` to `method`: replaces the template
/// parameters of depth `nested_level1` by the instantiation's arguments.
/// Fails where the instantiation does not fit the method.
pub fn apply_instantiation_to_method(
    method: &CppFunction,
    nested_level1: usize,
    template_instantiation: &CppTemplateInstantiation,
) -> (r: Result<CppFunction, Error>)
    ensures
        match applied(method@, nested_level1 as nat, template_instantiation@) {
            Ok(g) => r is Ok && r->Ok_0@ == g,
            Err(e) => r is Err && r->Err_0 == e,
        },
{
    let ghost f = method@;
    let ghost depth = nested_level1 as nat;
    let ghost args = template_instantiation@.template_arguments;
    let values = &template_instantiation.template_arguments;
    let mut own = false;
    if let Some(ps) = &method.template_arguments {
        if is_template_parameter_list(ps, nested_level1) {
            if ps.len() != values.len() {
                return Err(Error::TemplateArgumentsCountMismatch);
            }
            own = true;
        }
    }
    let template_arguments = if own {
        Some(clone_types(values))
    } else {
        match &method.template_arguments {
            Some(ts) => Some(clone_types(ts)),
            None => None,
        }
    };
    let mut arguments: Vec<CppFunctionArgument> = Vec::new();
    let mut i: usize = 0;
    while i < method.arguments.len()
        invariant
            i <= method.arguments.len(),
            arguments.len() == i,
            f == method@,
            depth == nested_level1 as nat,
            args == types_model(values@),
            args == template_instantiation@.template_arguments,
            !(has_own_parameters(f, depth) && f.template_arguments->0.len() != args.len()),
            forall|j: int|
                0 <= j < i ==> indices_within(
                    #[trigger] argument_types(f.arguments)[j],
                    depth,
                    args.len(),
                ),
            forall|j: int|
                0 <= j < i ==> (#[trigger] arguments@[j])@ == arguments_substituted(
                    f.arguments,
                    depth,
                    args,
                )[j],
        decreases method.arguments.len() - i,
    {
        let arg = &method.arguments[i];
        assert(argument_types(f.arguments)[i as int] == arg.argument_type@);
        let argument_type = arg.argument_type.instantiate(nested_level1, values)?;
        arguments.push(
            CppFunctionArgument {
                name: arg.name.clone(),
                argument_type,
                has_default_value: arg.has_default_value,
            },
        );
        i += 1;
    }
    proof {
        assert(arguments_model(arguments@) =~= arguments_substituted(f.arguments, depth, args));
    }
    let return_type = method.return_type.instantiate(nested_level1, values)?;
    let member = match &method.member {
        Some(info) => Some(
            CppFunctionMemberData {
                class_type: info.class_type.instantiate_class(nested_level1, values)?,
                kind: info.kind,
                is_const: info.is_const,
                is_static: info.is_static,
            },
        ),
        None => None,
    };
    let mut conversion_code: Option<Result<String, Error>> = None;
    let operator = match &method.operator {
        Some(CppOperator::Conversion(cpp_type)) => {
            let target = cpp_type.instantiate(nested_level1, values)?;
            conversion_code = Some(target.to_cpp_code(None));
            Some(CppOperator::Conversion(target))
        },
        Some(CppOperator::Symbolic(op)) => Some(CppOperator::Symbolic(*op)),
        None => None,
    };
    let mut new_method = CppFunction {
        name: method.name.clone(),
        member,
        operator,
        return_type,
        arguments,
        template_arguments,
    };
    let types = new_method.all_involved_types();
    if any_is_or_contains_template_parameter(&types) {
        return Err(Error::ExtraTemplateParametersLeft);
    }
    if let Some(code) = conversion_code {
        let code = code?;
        let mut name = String::from_str("operator ");
        name.append(code.as_str());
        new_method.name = name;
    }
    Ok(new_method)
}

/// The class that a type names: the type itself, or what a single pointer or
/// reference leads to.
pub open spec fn named_class(t: TypeModel) -> Option<ClassModel> {
    match t {
        TypeModel::Class(c) => Some(c),
        TypeModel::PointerLike { target, .. } => match *target {
            TypeModel::Class(c) => Some(c),
            _ => None,
        },
        _ => None,
    }
}

/// Whether each of the types is a bare template parameter.
pub open spec fn all_parameters(ts: Seq<TypeModel>) -> bool {
    forall|i: int| 0 <= i < ts.len() ==> #[trigger] ts[i] is TemplateParameter
}

/// The template that a type mentions with nothing but template parameters
/// for arguments: the name of the class, and the depth of the first
/// parameter.
pub open spec fn generic_occurrence(t: TypeModel) -> Option<(Seq<char>, nat)> {
    match named_class(t) {
        Some(c) => match c.template_arguments {
            Some(targs) => if targs.len() > 0 && all_parameters(targs) {
                Some((c.name, targs[0]->nested_level))
            } else {
                None
            },
            None => None,
        },
        None => None,
    }
}

/// Which of the instantiations of a template are tried on a function that
/// mentions the template.
#[derive(Clone, Copy, Debug, PartialEq, Eq, Hash, Structural)]
pub enum CandidatePolicy {
    /// The first instantiation only, whether it fits the function or not.
    FirstMatch,
    /// Every instantiation, each giving a function of its own where it fits.
    EveryMatch,
}

/// The instantiations of the class among the items, in their order.
pub open spec fn instantiations_of(items: Seq<ItemModel>, name: Seq<char>) -> Seq<
    InstantiationModel,
>
    decreases items.len(),
{
    if items.len() == 0 {
        Seq::empty()
    } else {
        (match items.first().cpp_data {
            ItemDataModel::TemplateInstantiation(inst) if inst.class_name == name => seq![inst],
            _ => Seq::empty(),
        }) + instantiations_of(items.drop_first(), name)
    }
}

/// Those of the instantiations that the policy has tried.
pub open spec fn tried(all: Seq<InstantiationModel>, policy: CandidatePolicy) -> Seq<
    InstantiationModel,
> {
    match policy {
        CandidatePolicy::FirstMatch => if all.len() > 0 {
            seq![all[0]]
        } else {
            Seq::empty()
        },
        CandidatePolicy::EveryMatch => all,
    }
}

/// The instantiations that are tried for a type that a function mentions:
/// those among the items of the template that the type mentions, as far as
/// the policy has them tried.
pub open spec fn candidates(t: TypeModel, items: Seq<ItemModel>, policy: CandidatePolicy) -> Seq<
    InstantiationModel,
> {
    match generic_occurrence(t) {
        Some((name, _)) => tried(instantiations_of(items, name), policy),
        None => Seq::empty(),
    }
}

/// The depth at which the candidates of a type are applied.
pub open spec fn candidate_depth(t: TypeModel) -> nat {
    match generic_occurrence(t) {
        Some((_, depth)) => depth,
        None => 0,
    }
}

/// Why a candidate is dropped.
pub enum Rejection {
    /// The instantiation cannot be applied to the function.
    Inapplicable(Error),
    /// The function that results mentions a class type that is no known
    /// instantiation.
    Unavailable(TypeModel),
}

/// The rejection that a failure stands for.
pub open spec fn rejection_of(e: Error) -> Rejection {
    match e {
        Error::TypeNotAvailable(t) => Rejection::Unavailable(t@),
        other => Rejection::Inapplicable(other),
    }
}

/// What comes of a candidate: the function that results from applying it,
/// where the application succeeds and every class type in the result is
/// available among the items; else the reason for which it is dropped.
pub open spec fn candidate_outcome(
    f: FunctionModel,
    depth: nat,
    inst: InstantiationModel,
    items: Seq<ItemModel>,
) -> Result<FunctionModel, Rejection> {
    match applied(f, depth, inst) {
        Ok(g) => match first_unavailable_in(involved_types(g), items) {
            Some(t) => Err(Rejection::Unavailable(t)),
            None => Ok(g),
        },
        Err(e) => Err(Rejection::Inapplicable(e)),
    }
}

/// A candidate that was dropped: the position of the function among all
/// items, the position of the type among the types that the function
/// mentions, the instantiation that was tried, and the reason.
#[derive(Debug)]
pub struct DroppedCandidate {
    pub item: usize,
    pub involved_type: usize,
    pub instantiation: CppTemplateInstantiation,
    pub reason: Error,
}

/// Model of a dropped candidate.
pub struct DroppedModel {
    pub item: nat,
    pub involved_type: nat,
    pub instantiation: InstantiationModel,
    pub reason: Rejection,
}

impl View for DroppedCandidate {
    type V = DroppedModel;

    open spec fn view(&self) -> DroppedModel {
        DroppedModel {
            item: self.item as nat,
            involved_type: self.involved_type as nat,
            instantiation: self.instantiation@,
            reason: rejection_of(self.reason),
        }
    }
}

/// The models of a list of dropped candidates.
pub open spec fn dropped_models(v: Seq<DroppedCandidate>) -> Seq<DroppedModel> {
    Seq::new(v.len(), |i: int| v[i]@)
}

/// The functions that the candidates give rise to, in the order of the
/// candidates.
pub open spec fn accepted(
    f: FunctionModel,
    depth: nat,
    candidates: Seq<InstantiationModel>,
    items: Seq<ItemModel>,
) -> Seq<FunctionModel>
    decreases candidates.len(),
{
    if candidates.len() == 0 {
        Seq::empty()
    } else {
        (match candidate_outcome(f, depth, candidates.first(), items) {
            Ok(g) => seq![g],
            Err(_) => Seq::empty(),
        }) + accepted(f, depth, candidates.drop_first(), items)
    }
}

/// Those of the candidates that are dropped, with the reasons, in the order
/// of the candidates.
pub open spec fn rejected(
    f: FunctionModel,
    depth: nat,
    candidates: Seq<InstantiationModel>,
    items: Seq<ItemModel>,
    item: nat,
    involved_type: nat,
) -> Seq<DroppedModel>
    decreases candidates.len(),
{
    if candidates.len() == 0 {
        Seq::empty()
    } else {
        (match candidate_outcome(f, depth, candidates.first(), items) {
            Ok(_) => Seq::empty(),
            Err(reason) => seq![
                DroppedModel { item, involved_type, instantiation: candidates.first(), reason },
            ],
        }) + rejected(f, depth, candidates.drop_first(), items, item, involved_type)
    }
}

/// The functions that a type mentioned by `f` gives rise to.
pub open spec fn derived_for_type(
    f: FunctionModel,
    t: TypeModel,
    items: Seq<ItemModel>,
    policy: CandidatePolicy,
) -> Seq<FunctionModel> {
    accepted(f, candidate_depth(t), candidates(t, items, policy), items)
}

/// The candidates that are dropped for a type mentioned by `f`.
pub open spec fn dropped_for_type(
    f: FunctionModel,
    t: TypeModel,
    items: Seq<ItemModel>,
    policy: CandidatePolicy,
    item: nat,
    involved_type: nat,
) -> Seq<DroppedModel> {
    rejected(f, candidate_depth(t), candidates(t, items, policy), items, item, involved_type)
}

/// The candidates that are dropped for the function at position `item`, from
/// the type at position `j` on.
pub open spec fn dropped_for_function(
    f: FunctionModel,
    items: Seq<ItemModel>,
    policy: CandidatePolicy,
    item: nat,
    j: nat,
) -> Seq<DroppedModel>
    decreases involved_types(f).len() - j,
{
    if j >= involved_types(f).len() {
        Seq::empty()
    } else {
        dropped_for_type(f, involved_types(f)[j as int], items, policy, item, j)
            + dropped_for_function(f, items, policy, item, j + 1)
    }
}

/// The candidates that are dropped for the functions among the items, from
/// the item at position `i` on.
pub open spec fn dropped_from(items: Seq<ItemModel>, policy: CandidatePolicy, i: nat) -> Seq<
    DroppedModel,
>
    decreases items.len() - i,
{
    if i >= items.len() {
        Seq::empty()
    } else {
        (match items[i as int].cpp_data {
            ItemDataModel::Function(f) => dropped_for_function(f, items, policy, i, 0),
            _ => Seq::empty(),
        }) + dropped_from(items, policy, i + 1)
    }
}

/// All candidates that are dropped when the instantiations among the items
/// are applied to the functions among them.
pub open spec fn dropped_candidates(
    current: DatabaseModel,
    deps: Seq<DatabaseModel>,
    policy: CandidatePolicy,
) -> Seq<DroppedModel> {
    dropped_from(all_items_model(current, deps), policy, 0)
}

/// The functions that the types `ts` mentioned by `f` give rise to, in the
/// order of the types.
pub open spec fn derived_for_types(
    f: FunctionModel,
    ts: Seq<TypeModel>,
    items: Seq<ItemModel>,
    policy: CandidatePolicy,
) -> Seq<FunctionModel>
    decreases ts.len(),
{
    if ts.len() == 0 {
        Seq::empty()
    } else {
        derived_for_type(f, ts.first(), items, policy) + derived_for_types(
            f,
            ts.drop_first(),
            items,
            policy,
        )
    }
}

/// The functions that the functions among `scanned` give rise to, in order.
pub open spec fn derived_functions(
    scanned: Seq<ItemModel>,
    items: Seq<ItemModel>,
    policy: CandidatePolicy,
) -> Seq<FunctionModel>
    decreases scanned.len(),
{
    if scanned.len() == 0 {
        Seq::empty()
    } else {
        (match scanned.first().cpp_data {
            ItemDataModel::Function(f) => derived_for_types(f, involved_types(f), items, policy),
            _ => Seq::empty(),
        }) + derived_functions(scanned.drop_first(), items, policy)
    }
}

/// The items after each of the functions was added in order, as derived by
/// instantiation, unless an item held it by then.
pub open spec fn items_with_functions(items: Seq<ItemModel>, fs: Seq<FunctionModel>) -> Seq<
    ItemModel,
>
    decreases fs.len(),
{
    if fs.len() == 0 {
        items
    } else {
        items_with_functions(
            items_with(
                items,
                DatabaseItemSource::TemplateInstantiation,
                ItemDataModel::Function(fs.first()),
            ),
            fs.drop_first(),
        )
    }
}

/// The database after the functions that the known instantiations give rise
/// to were added.
pub open spec fn after_application(
    current: DatabaseModel,
    deps: Seq<DatabaseModel>,
    policy: CandidatePolicy,
) -> DatabaseModel {
    DatabaseModel {
        crate_name: current.crate_name,
        items: items_with_functions(
            current.items,
            derived_functions(
                all_items_model(current, deps),
                all_items_model(current, deps),
                policy,
            ),
        ),
    }
}

/// The models of borrowed instantiations.
pub open spec fn borrowed_instantiations_model(v: Seq<&CppTemplateInstantiation>) -> Seq<
    InstantiationModel,
> {
    Seq::new(v.len(), |i: int| (*v[i])@)
}

/// The models of a list of functions.
pub open spec fn functions_model(v: Seq<CppFunction>) -> Seq<FunctionModel> {
    Seq::new(v.len(), |i: int| v[i]@)
}

/// The instantiations of the class `name` among the items that the policy has
/// tried, in their order.
pub fn find_instantiations<'a>(
    items: &Vec<&'a DatabaseItem>,
    name: &String,
    policy: CandidatePolicy,
) -> (r: Vec<&'a CppTemplateInstantiation>)
    ensures
        borrowed_instantiations_model(r@) == tried(
            instantiations_of(borrowed_items_model(items@), name@),
            policy,
        ),
{
    let ghost m = borrowed_items_model(items@);
    let ghost all = instantiations_of(m, name@);
    let mut out: Vec<&'a CppTemplateInstantiation> = Vec::new();
    let mut i: usize = 0;
    proof {
        assert(m.skip(0) =~= m);
    }
    while i < items.len()
        invariant
            i <= items.len(),
            m == borrowed_items_model(items@),
            all == instantiations_of(m, name@),
            all == borrowed_instantiations_model(out@) + instantiations_of(
                m.skip(i as int),
                name@,
            ),
            policy == CandidatePolicy::FirstMatch ==> out.len() == 0,
        decreases items.len() - i,
    {
        proof {
            assert(m.skip(i as int).drop_first() =~= m.skip(i + 1));
        }
        if let Some(inst) = items[i].cpp_data.as_template_instantiation_ref() {
            if inst.class_name == *name {
                out.push(inst);
                if policy == CandidatePolicy::FirstMatch {
                    return out;
                }
            }
        }
        i += 1;
    }
    out
}

/// The template that `type1` mentions with nothing but template parameters
/// for arguments: the name of the class and the depth of the first parameter.
pub fn find_generic_occurrence(type1: &CppType) -> (r: Option<(&String, usize)>)
    ensures
        match generic_occurrence(type1@) {
            Some((name, depth)) => r is Some && r->Some_0.0@ == name && r->Some_0.1 == depth,
            None => r is None,
        },
{
    proof {
        reveal_with_fuel(type_model, 2);
    }
    let class_type = match type1 {
        CppType::Class(c) => c,
        CppType::PointerLike { target, .. } => match &**target {
            CppType::Class(c) => c,
            _ => {
                return None;
            },
        },
        _ => {
            return None;
        },
    };
    match &class_type.template_arguments {
        Some(targs) => {
            if targs.len() == 0 {
                return None;
            }
            let ghost m = types_model(targs@);
            let mut i: usize = 0;
            while i < targs.len()
                invariant
                    i <= targs.len(),
                    targs.len() > 0,
                    m == types_model(targs@),
                    named_class(type1@) == Some(class_type@),
                    class_type@.template_arguments == Some(m),
                    forall|j: int| 0 <= j < i ==> #[trigger] m[j] is TemplateParameter,
                decreases targs.len() - i,
            {
                if !targs[i].is_template_parameter() {
                    assert(!(m[i as int] is TemplateParameter));
                    return None;
                }
                i += 1;
            }
            match &targs[0] {
                CppType::TemplateParameter { nested_level, .. } => Some(
                    (&class_type.name, *nested_level),
                ),
                _ => None,
            }
        },
        None => None,
    }
}

/// Tries one instantiation on `method`: applies it at the given depth, and
/// checks that every class type in the result is available among the items.
/// Returns the new function, or the reason for which the candidate is
/// dropped.
pub fn try_instantiation(
    method: &CppFunction,
    nested_level: usize,
    template_instantiation: &CppTemplateInstantiation,
    items: &Vec<&DatabaseItem>,
) -> (r: Result<CppFunction, Error>)
    ensures
        match candidate_outcome(
            method@,
            nested_level as nat,
            template_instantiation@,
            borrowed_items_model(items@),
        ) {
            Ok(g) => r matches Ok(m) && m@ == g,
            Err(reason) => r matches Err(e) && rejection_of(e) == reason,
        },
{
    proof {
        let g = function_substituted(
            method@,
            nested_level as nat,
            template_instantiation@.template_arguments,
        );
        match g.operator {
            Some(OperatorModel::Conversion(t)) => lemma_code_failure_names_no_type(t, None),
            _ => {},
        }
    }
    let new_method = apply_instantiation_to_method(method, nested_level, template_instantiation)?;
    let types = new_method.all_involved_types();
    types_available(items, &types)?;
    Ok(new_method)
}

/// Tries the candidates of `type1` on `method`. The functions that result are
/// added to `new_methods`, and the candidates that are dropped to `dropped`,
/// as found at the positions `item` and `involved_type`.
pub fn try_candidates(
    method: &CppFunction,
    type1: &CppType,
    items: &Vec<&DatabaseItem>,
    policy: CandidatePolicy,
    item: usize,
    involved_type: usize,
    new_methods: &mut Vec<CppFunction>,
    dropped: &mut Vec<DroppedCandidate>,
)
    ensures
        functions_model(final(new_methods)@) == functions_model(old(new_methods)@)
            + derived_for_type(method@, type1@, borrowed_items_model(items@), policy),
        dropped_models(final(dropped)@) == dropped_models(old(dropped)@) + dropped_for_type(
            method@,
            type1@,
            borrowed_items_model(items@),
            policy,
            item as nat,
            involved_type as nat,
        ),
{
    let ghost f = method@;
    let ghost known = borrowed_items_model(items@);
    let ghost methods_before = functions_model(new_methods@);
    let ghost dropped_before = dropped_models(dropped@);
    let (name, nested_level) = match find_generic_occurrence(type1) {
        Some(found) => found,
        None => {
            return;
        },
    };
    let found = find_instantiations(items, name, policy);
    let ghost depth = nested_level as nat;
    let ghost all = borrowed_instantiations_model(found@);
    let mut k: usize = 0;
    proof {
        assert(all.skip(0) =~= all);
    }
    while k < found.len()
        invariant
            k <= found.len(),
            f == method@,
            known == borrowed_items_model(items@),
            all == borrowed_instantiations_model(found@),
            depth == nested_level as nat,
            methods_before + accepted(f, depth, all, known) == functions_model(new_methods@)
                + accepted(f, depth, all.skip(k as int), known),
            dropped_before + rejected(f, depth, all, known, item as nat, involved_type as nat)
                == dropped_models(dropped@) + rejected(
                f,
                depth,
                all.skip(k as int),
                known,
                item as nat,
                involved_type as nat,
            ),
        decreases found.len() - k,
    {
        proof {
            assert(all.skip(k as int).drop_first() =~= all.skip(k + 1));
        }
        match try_instantiation(method, nested_level, found[k], items) {
            Ok(new_method) => {
                new_methods.push(new_method);
            },
            Err(reason) => {
                let entry = DroppedCandidate {
                    item,
                    involved_type,
                    instantiation: found[k].clone(),
                    reason,
                };
                dropped.push(entry);
            },
        }
        k += 1;
    }
}

/// Generates functions by applying the known template instantiations to the
/// functions that mention their templates, and adds them to the current
/// library. The policy says which of the instantiations of a template are
/// tried for each type that a function mentions. A candidate that does not
/// fit is dropped, and the step goes on. Returns the dropped candidates with
/// the reasons, in the order in which they were tried.
pub fn instantiate_templates_with_report(data: ProcessorData, policy: CandidatePolicy) -> (r: Vec<
    DroppedCandidate,
>)
    ensures
        final(data.current_database)@ == after_application(
            old(data.current_database)@,
            databases_model(data.dep_databases@),
            policy,
        ),
        dropped_models(r@) == dropped_candidates(
            old(data.current_database)@,
            databases_model(data.dep_databases@),
            policy,
        ),
{
    let ghost current = data.current_database@;
    let ghost known = all_items_model(current, databases_model(data.dep_databases@));
    let ghost at_return = *final(data.current_database);
    let mut new_methods: Vec<CppFunction> = Vec::new();
    let mut dropped: Vec<DroppedCandidate> = Vec::new();
    {
        let items = data.all_items();
        let mut i: usize = 0;
        proof {
            assert(known.skip(0) =~= known);
        }
        while i < items.len()
            invariant
                i <= items.len(),
                data.current_database@ == current,
                *final(data.current_database) == at_return,
                borrowed_items_model(items@) == known,
                derived_functions(known, known, policy) == functions_model(new_methods@)
                    + derived_functions(known.skip(i as int), known, policy),
                dropped_from(known, policy, 0) == dropped_models(dropped@) + dropped_from(
                    known,
                    policy,
                    i as nat,
                ),
            decreases items.len() - i,
        {
            let ghost before = functions_model(new_methods@);
            let ghost dropped_before = dropped_models(dropped@);
            proof {
                assert(known.skip(i as int).drop_first() =~= known.skip(i + 1));
            }
            if let Some(method) = items[i].cpp_data.as_function_ref() {
                let types = method.all_involved_types();
                let ghost f = method@;
                let ghost ts = involved_types(f);
                let mut j: usize = 0;
                proof {
                    assert(ts.skip(0) =~= ts);
                }
                while j < types.len()
                    invariant
                        j <= types.len(),
                        i < items.len(),
                        f == method@,
                        ts == involved_types(f),
                        ts == types_model(types@),
                        borrowed_items_model(items@) == known,
                        before + derived_for_types(f, ts, known, policy) == functions_model(
                            new_methods@,
                        ) + derived_for_types(f, ts.skip(j as int), known, policy),
                        dropped_before + dropped_for_function(f, known, policy, i as nat, 0)
                            == dropped_models(dropped@) + dropped_for_function(
                            f,
                            known,
                            policy,
                            i as nat,
                            j as nat,
                        ),
                    decreases types.len() - j,
                {
                    proof {
                        assert(ts.skip(j as int).drop_first() =~= ts.skip(j + 1));
                    }
                    try_candidates(
                        method,
                        &types[j],
                        &items,
                        policy,
                        i,
                        j,
                        &mut new_methods,
                        &mut dropped,
                    );
                    j += 1;
                }
            }
            i += 1;
        }
    }
    let ghost derived = functions_model(new_methods@);
    let mut k: usize = 0;
    proof {
        assert(derived.skip(0) =~= derived);
    }
    while k < new_methods.len()
        invariant
            k <= new_methods.len(),
            *final(data.current_database) == at_return,
            derived == functions_model(new_methods@),
            data.current_database@.crate_name == current.crate_name,
            items_with_functions(current.items, derived) == items_with_functions(
                data.current_database@.items,
                derived.skip(k as int),
            ),
        decreases new_methods.len() - k,
    {
        proof {
            assert(derived.skip(k as int).drop_first() =~= derived.skip(k + 1));
        }
        data.current_database.add_cpp_data(
            DatabaseItemSource::TemplateInstantiation,
            CppItemData::Function(new_methods[k].clone()),
        );
        k += 1;
    }
    dropped
}

/// Generates functions by applying the known template instantiations to the
/// functions that mention their templates, and adds them to the current
/// library. For each type that a function mentions, only the first
/// instantiation of its template is tried. The step never fails.
pub fn instantiate_templates(data: ProcessorData) -> (r: Result<(), Error>)
    ensures
        r is Ok,
        final(data.current_database)@ == after_application(
            old(data.current_database)@,
            databases_model(data.dep_databases@),
            CandidatePolicy::FirstMatch,
        ),
{
    let _ = instantiate_templates_with_report(data, CandidatePolicy::FirstMatch);
    Ok(())
}

/// The step that applies template instantiations. It runs after the
/// discovery of instantiations.
pub fn instantiate_templates_step() -> (r: ProcessingStep)
    ensures
        r@ == (StepModel {
            name: "instantiate_templates"@,
            depends_on: seq!["find_template_instantiations"@],
            function: StepFunction::InstantiateTemplates(CandidatePolicy::FirstMatch),
        }),
{
    let depends_on = vec![String::from_str("find_template_instantiations")];
    assert(texts_of(depends_on@) =~= seq!["find_template_instantiations"@]);
    ProcessingStep::new(
        "instantiate_templates",
        depends_on,
        StepFunction::InstantiateTemplates(CandidatePolicy::FirstMatch),
    )
}

/// The step that discovers template instantiations. It runs after the
/// parser has filled the database.
pub fn find_template_instantiations_step() -> (r: ProcessingStep)
    ensures
        r@ == (StepModel {
            name: "find_template_instantiations"@,
            depends_on: seq!["cpp_parser"@],
            function: StepFunction::FindTemplateInstantiations,
        }),
{
    let depends_on = vec![String::from_str("cpp_parser")];
    assert(texts_of(depends_on@) =~= seq!["cpp_parser"@]);
    ProcessingStep::new(
        "find_template_instantiations",
        depends_on,
        StepFunction::FindTemplateInstantiations,
    )
}

} // verus!
