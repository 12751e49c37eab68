//! What holds of every database that the steps have worked on: its types are
//! well formed, its instantiations are concrete, and none is recorded twice.

use crate::application_laws::lemma_applied_well_formed;
use crate::cpp_data::InstantiationModel;
use crate::cpp_function::{involved_types, FunctionModel};
use crate::cpp_template_instantiator::{
    accepted, after_application, after_discovery, candidate_depth, candidate_outcome, candidates,
    derived_for_type, derived_for_types, derived_functions, discovered, generic_occurrence,
    has_instantiation, instantiation_items, instantiations_of, items_instantiations,
    items_with_functions, lemma_recorded_fresh, recorded, type_instantiations, types_instantiations,
    CandidatePolicy,
};
use crate::cpp_type::{all_well_formed, any_contains_parameter, well_formed, TypeModel};
use crate::database::{
    item_involved_types, items_with, DatabaseItemSource, DatabaseModel, ItemDataModel, ItemModel,
};
use crate::discovery_laws::{
    lemma_items_instantiations_contains, lemma_recorded_from, lemma_types_instantiations_contains,
};
use crate::processor::{after_steps, all_items_model, databases_items, StepFunction, StepModel};
use vstd::prelude::*;

verus! {

/// Whether the instantiation is valid: it has arguments, they are well
/// formed, and none holds a template parameter.
pub open spec fn instantiation_is_valid(inst: InstantiationModel) -> bool {
    &&& inst.template_arguments.len() > 0
    &&& !any_contains_parameter(inst.template_arguments)
    &&& all_well_formed(inst.template_arguments)
}

/// Whether the item is valid: the types that it mentions are well formed,
/// and an instantiation that it records is valid.
pub open spec fn item_is_valid(item: ItemModel) -> bool {
    &&& all_well_formed(item_involved_types(item.cpp_data))
    &&& (item.cpp_data matches ItemDataModel::TemplateInstantiation(inst)
        ==> instantiation_is_valid(inst))
}

/// Whether each of the items is valid.
pub open spec fn items_are_valid(items: Seq<ItemModel>) -> bool {
    forall|i: int| 0 <= i < items.len() ==> item_is_valid(#[trigger] items[i])
}

/// Whether no two of the items record the same instantiation.
pub open spec fn instantiations_are_unique(items: Seq<ItemModel>) -> bool {
    forall|i: int, j: int|
        #![trigger items[i], items[j]]
        0 <= i < j < items.len() && items[i].cpp_data is TemplateInstantiation ==> items[i].cpp_data
            != items[j].cpp_data
}

/// Whether the database of a library is valid beside those of its
/// dependencies: every item of all of them is valid, and no instantiation is
/// recorded twice among them.
pub open spec fn database_is_valid(current: DatabaseModel, deps: Seq<DatabaseModel>) -> bool {
    &&& items_are_valid(all_items_model(current, deps))
    &&& instantiations_are_unique(all_items_model(current, deps))
}

/// Whether the item holds a function that mentions no template parameter.
pub open spec fn is_concrete_function(item: ItemModel) -> bool {
    item.cpp_data matches ItemDataModel::Function(f) && !any_contains_parameter(involved_types(f))
}

/// An instantiation that well-formed types mention is valid.
pub proof fn lemma_types_instantiations_valid(ts: Seq<TypeModel>, d: InstantiationModel)
    requires
        all_well_formed(ts),
        types_instantiations(ts).contains(d),
    ensures
        instantiation_is_valid(d),
    decreases ts, 0nat,
{
    lemma_types_instantiations_contains(ts, d);
    let i = choose|i: int| 0 <= i < ts.len() && #[trigger] type_instantiations(ts[i]).contains(d);
    lemma_type_instantiations_valid(ts[i], d);
}

/// An instantiation that a well-formed type mentions is valid.
pub proof fn lemma_type_instantiations_valid(t: TypeModel, d: InstantiationModel)
    requires
        well_formed(t),
        type_instantiations(t).contains(d),
    ensures
        instantiation_is_valid(d),
    decreases t, 1nat,
{
    match t {
        TypeModel::Class(c) => match c.template_arguments {
            Some(args) => {
                let head = if !any_contains_parameter(args) {
                    seq![InstantiationModel { class_name: c.name, template_arguments: args }]
                } else {
                    Seq::empty()
                };
                if !head.contains(d) {
                    lemma_types_instantiations_valid(args, d);
                }
            },
            None => {},
        },
        TypeModel::PointerLike { target, .. } => {
            lemma_type_instantiations_valid(*target, d);
        },
        TypeModel::FunctionPointer { return_type, arguments, .. } => {
            if type_instantiations(*return_type).contains(d) {
                lemma_type_instantiations_valid(*return_type, d);
            } else {
                lemma_types_instantiations_valid(arguments, d);
            }
        },
        _ => {},
    }
}

/// Discovery keeps a valid database valid: what it adds is concrete and well
/// formed, and recorded nowhere else.
pub proof fn lemma_discovery_keeps_validity(current: DatabaseModel, deps: Seq<DatabaseModel>)
    requires
        database_is_valid(current, deps),
    ensures
        database_is_valid(after_discovery(current, deps), deps),
{
    let known = all_items_model(current, deps);
    let mentioned = items_instantiations(current.items);
    let found = discovered(current, deps);
    let added = instantiation_items(found);
    let rest = databases_items(deps);
    let after = all_items_model(after_discovery(current, deps), deps);
    let n = current.items.len() as int;
    let k = added.len() as int;
    lemma_recorded_fresh(Seq::empty(), mentioned, known);
    assert(after =~= current.items + added + rest);
    assert forall|i: int| 0 <= i < after.len() implies item_is_valid(#[trigger] after[i]) by {
        if i < n {
            assert(after[i] == known[i]);
        } else if i < n + k {
            let d = found[i - n];
            lemma_recorded_from(Seq::empty(), mentioned, known, d);
            lemma_items_instantiations_contains(current.items, d);
            let j = choose|j: int|
                0 <= j < current.items.len() && types_instantiations(
                    item_involved_types((#[trigger] current.items[j]).cpp_data),
                ).contains(d);
            assert(known[j] == current.items[j]);
            assert(item_is_valid(known[j]));
            lemma_types_instantiations_valid(item_involved_types(current.items[j].cpp_data), d);
        } else {
            assert(after[i] == known[i - k]);
        }
    }
    assert forall|i: int, j: int|
        #![trigger after[i], after[j]]
        0 <= i < j < after.len() && after[i].cpp_data is TemplateInstantiation
        implies after[i].cpp_data != after[j].cpp_data by {
        let a = if i < n {
            i
        } else {
            i - k
        };
        let b = if j < n {
            j
        } else {
            j - k
        };
        if n <= i < n + k {
            if j < n + k {
                assert(after[j] == added[j - n]);
            }
        } else if !(n <= j < n + k) {
            assert(after[i] == known[a]);
            assert(after[j] == known[b]);
        }
    }
}

/// Each instantiation that `instantiations_of` lists is recorded by one of
/// the items.
pub proof fn lemma_instantiations_of_recorded(items: Seq<ItemModel>, name: Seq<char>, k: int)
    requires
        0 <= k < instantiations_of(items, name).len(),
    ensures
        has_instantiation(items, instantiations_of(items, name)[k]),
    decreases items.len(),
{
    let head = match items.first().cpp_data {
        ItemDataModel::TemplateInstantiation(found) if found.class_name == name => seq![found],
        _ => Seq::empty(),
    };
    if k >= head.len() {
        lemma_instantiations_of_recorded(items.drop_first(), name, k - head.len());
    }
}

/// Each function that valid candidates give rise to, applied to a function
/// with well-formed types, mentions only well-formed types, and no template
/// parameter.
pub proof fn lemma_accepted_valid(
    f: FunctionModel,
    depth: nat,
    candidates: Seq<InstantiationModel>,
    items: Seq<ItemModel>,
    k: int,
)
    requires
        all_well_formed(involved_types(f)),
        forall|i: int|
            0 <= i < candidates.len() ==> instantiation_is_valid(#[trigger] candidates[i]),
        0 <= k < accepted(f, depth, candidates, items).len(),
    ensures
        all_well_formed(involved_types(accepted(f, depth, candidates, items)[k])),
        !any_contains_parameter(involved_types(accepted(f, depth, candidates, items)[k])),
    decreases candidates.len(),
{
    let inst = candidates.first();
    let head = match candidate_outcome(f, depth, inst, items) {
        Ok(g) => seq![g],
        Err(_) => Seq::empty(),
    };
    if k < head.len() {
        lemma_applied_well_formed(f, depth, inst);
    } else {
        lemma_accepted_valid(f, depth, candidates.drop_first(), items, k - head.len());
    }
}

/// Each function that is derived from a function with well-formed types by
/// the instantiations of valid items mentions only well-formed types, and no
/// template parameter.
pub proof fn lemma_derived_for_type_valid(
    f: FunctionModel,
    t: TypeModel,
    items: Seq<ItemModel>,
    policy: CandidatePolicy,
    k: int,
)
    requires
        items_are_valid(items),
        all_well_formed(involved_types(f)),
        0 <= k < derived_for_type(f, t, items, policy).len(),
    ensures
        all_well_formed(involved_types(derived_for_type(f, t, items, policy)[k])),
        !any_contains_parameter(involved_types(derived_for_type(f, t, items, policy)[k])),
{
    let tried = candidates(t, items, policy);
    assert forall|i: int| 0 <= i < tried.len() implies instantiation_is_valid(
        #[trigger] tried[i],
    ) by {
        let name = generic_occurrence(t)->Some_0.0;
        let at = if policy == CandidatePolicy::FirstMatch {
            0
        } else {
            i
        };
        lemma_instantiations_of_recorded(items, name, at);
    }
    lemma_accepted_valid(f, candidate_depth(t), tried, items, k);
}

/// Each function that `derived_for_types` gives is valid as
/// `lemma_derived_for_type_valid` says.
pub proof fn lemma_derived_for_types_valid(
    f: FunctionModel,
    ts: Seq<TypeModel>,
    items: Seq<ItemModel>,
    policy: CandidatePolicy,
    k: int,
)
    requires
        items_are_valid(items),
        all_well_formed(involved_types(f)),
        0 <= k < derived_for_types(f, ts, items, policy).len(),
    ensures
        all_well_formed(involved_types(derived_for_types(f, ts, items, policy)[k])),
        !any_contains_parameter(involved_types(derived_for_types(f, ts, items, policy)[k])),
    decreases ts.len(),
{
    let head = derived_for_type(f, ts.first(), items, policy);
    if k < head.len() {
        lemma_derived_for_type_valid(f, ts.first(), items, policy, k);
    } else {
        lemma_derived_for_types_valid(f, ts.drop_first(), items, policy, k - head.len());
    }
}

/// Each function that `derived_functions` gives mentions only well-formed
/// types, and no template parameter.
pub proof fn lemma_derived_functions_valid(
    scanned: Seq<ItemModel>,
    items: Seq<ItemModel>,
    policy: CandidatePolicy,
    k: int,
)
    requires
        items_are_valid(items),
        items_are_valid(scanned),
        0 <= k < derived_functions(scanned, items, policy).len(),
    ensures
        all_well_formed(involved_types(derived_functions(scanned, items, policy)[k])),
        !any_contains_parameter(involved_types(derived_functions(scanned, items, policy)[k])),
    decreases scanned.len(),
{
    let head = match scanned.first().cpp_data {
        ItemDataModel::Function(f) => derived_for_types(f, involved_types(f), items, policy),
        _ => Seq::empty(),
    };
    if k < head.len() {
        match scanned.first().cpp_data {
            ItemDataModel::Function(f) => {
                lemma_derived_for_types_valid(f, involved_types(f), items, policy, k);
            },
            _ => {},
        }
    } else {
        lemma_derived_functions_valid(scanned.drop_first(), items, policy, k - head.len());
    }
}

/// What `items_with_functions` gives: the items as they were, followed by
/// functions out of `fs`, each derived by instantiation.
pub proof fn lemma_items_with_functions(items: Seq<ItemModel>, fs: Seq<FunctionModel>)
    ensures
        items.len() <= items_with_functions(items, fs).len(),
        items_with_functions(items, fs).take(items.len() as int) == items,
        forall|i: int|
            items.len() <= i < items_with_functions(items, fs).len() ==> (
            #[trigger] items_with_functions(items, fs)[i]).source
                == DatabaseItemSource::TemplateInstantiation && (items_with_functions(
                items,
                fs,
            )[i].cpp_data matches ItemDataModel::Function(f) && fs.contains(f)),
    decreases fs.len(),
{
    if fs.len() > 0 {
        let next = items_with(
            items,
            DatabaseItemSource::TemplateInstantiation,
            ItemDataModel::Function(fs.first()),
        );
        lemma_items_with_functions(next, fs.drop_first());
        let r = items_with_functions(items, fs);
        assert forall|i: int| items.len() <= i < r.len() implies (#[trigger] r[i]).source
            == DatabaseItemSource::TemplateInstantiation && (r[i].cpp_data matches ItemDataModel::Function(
            f,
        ) && fs.contains(f)) by {
            if i < next.len() {
                assert(r[i] == r.take(next.len() as int)[i]);
            }
        }
    }
}

/// Application keeps a valid database valid: the functions that it adds
/// mention only well-formed types, and it records no instantiation.
pub proof fn lemma_application_keeps_validity(
    current: DatabaseModel,
    deps: Seq<DatabaseModel>,
    policy: CandidatePolicy,
)
    requires
        database_is_valid(current, deps),
    ensures
        database_is_valid(after_application(current, deps, policy), deps),
        forall|i: int|
            current.items.len() <= i < after_application(current, deps, policy).items.len()
                ==> is_concrete_function(
                #[trigger] after_application(current, deps, policy).items[i],
            ),
{
    let known = all_items_model(current, deps);
    let fs = derived_functions(known, known, policy);
    let items = after_application(current, deps, policy).items;
    let after = all_items_model(after_application(current, deps, policy), deps);
    let n = current.items.len() as int;
    let m = items.len() as int;
    lemma_items_with_functions(current.items, fs);
    assert forall|i: int| n <= i < m implies is_concrete_function(#[trigger] items[i])
        && all_well_formed(item_involved_types(items[i].cpp_data)) by {
        let f = items[i].cpp_data->Function_0;
        let k = choose|k: int| 0 <= k < fs.len() && fs[k] == f;
        lemma_derived_functions_valid(known, known, policy, k);
    }
    assert forall|i: int| 0 <= i < after.len() implies item_is_valid(#[trigger] after[i]) by {
        if i < n {
            assert(after[i] == known[i]);
        } else if i >= m {
            assert(after[i] == known[i - (m - n)]);
        }
    }
    assert forall|i: int, j: int|
        #![trigger after[i], after[j]]
        0 <= i < j < after.len() && after[i].cpp_data is TemplateInstantiation
        implies after[i].cpp_data != after[j].cpp_data by {
        if !(n <= i < m) && !(n <= j < m) {
            let a = if i < n {
                i
            } else {
                i - (m - n)
            };
            let b = if j < n {
                j
            } else {
                j - (m - n)
            };
            assert(after[i] == known[a]);
            assert(after[j] == known[b]);
        }
    }
}

/// Every step keeps a valid database valid, and so does every run of steps.
pub proof fn lemma_steps_keep_validity(
    steps: Seq<StepModel>,
    order: Seq<usize>,
    current: DatabaseModel,
    deps: Seq<DatabaseModel>,
)
    requires
        database_is_valid(current, deps),
    ensures
        database_is_valid(after_steps(steps, order, current, deps), deps),
    decreases order.len(),
{
    if order.len() > 0 {
        let before = after_steps(steps, order.drop_last(), current, deps);
        lemma_steps_keep_validity(steps, order.drop_last(), current, deps);
        match steps[order.last() as int].function {
            StepFunction::External => {},
            StepFunction::FindTemplateInstantiations => {
                lemma_discovery_keeps_validity(before, deps);
            },
            StepFunction::InstantiateTemplates(policy) => {
                lemma_application_keeps_validity(before, deps, policy);
            },
        }
    }
}

} // verus!
