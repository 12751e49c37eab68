//! What holds of the discovery of template instantiations.

use crate::cpp_data::InstantiationModel;
use crate::cpp_template_instantiator::{
    after_discovery, discovered, has_instantiation, instantiation_items, items_instantiations,
    recorded, type_instantiations, types_instantiations,
};
use crate::cpp_type::{any_contains_parameter, TypeModel};
use crate::database::{item_involved_types, DatabaseModel, ItemDataModel, ItemModel};
use crate::processor::all_items_model;
use vstd::prelude::*;

verus! {

/// An instantiation that a list of types mentions is mentioned by one of the
/// types, and the other way round.
pub proof fn lemma_types_instantiations_contains(ts: Seq<TypeModel>, x: InstantiationModel)
    ensures
        types_instantiations(ts).contains(x) <==> exists|i: int|
            0 <= i < ts.len() && #[trigger] type_instantiations(ts[i]).contains(x),
    decreases ts.len(),
{
    if ts.len() > 0 {
        let head = type_instantiations(ts.first());
        let tail = types_instantiations(ts.drop_first());
        lemma_types_instantiations_contains(ts.drop_first(), x);
        lemma_concat_contains(head, tail, x);
        if exists|i: int| 0 <= i < ts.len() && #[trigger] type_instantiations(ts[i]).contains(x) {
            let i = choose|i: int|
                0 <= i < ts.len() && #[trigger] type_instantiations(ts[i]).contains(x);
            if i > 0 {
                assert(type_instantiations(ts.drop_first()[i - 1]).contains(x));
            }
        }
    }
}

/// A value is in a concatenation where it is in one of the two parts.
pub proof fn lemma_concat_contains<A>(a: Seq<A>, b: Seq<A>, x: A)
    ensures
        (a + b).contains(x) <==> a.contains(x) || b.contains(x),
{
    if a.contains(x) {
        let i = choose|i: int| 0 <= i < a.len() && a[i] == x;
        assert((a + b)[i] == x);
    }
    if b.contains(x) {
        let i = choose|i: int| 0 <= i < b.len() && b[i] == x;
        assert((a + b)[i + a.len()] == x);
    }
}

/// An instantiation that a list of items mentions is mentioned by one of
/// the items, and the other way round.
pub proof fn lemma_items_instantiations_contains(items: Seq<ItemModel>, x: InstantiationModel)
    ensures
        items_instantiations(items).contains(x) <==> exists|k: int|
            0 <= k < items.len() && types_instantiations(
                item_involved_types((#[trigger] items[k]).cpp_data),
            ).contains(x),
    decreases items.len(),
{
    if items.len() > 0 {
        let head = types_instantiations(item_involved_types(items.first().cpp_data));
        let tail = items_instantiations(items.drop_first());
        lemma_items_instantiations_contains(items.drop_first(), x);
        lemma_concat_contains(head, tail, x);
        if exists|k: int|
            0 <= k < items.len() && types_instantiations(
                item_involved_types((#[trigger] items[k]).cpp_data),
            ).contains(x) {
            let k = choose|k: int|
                0 <= k < items.len() && types_instantiations(
                    item_involved_types((#[trigger] items[k]).cpp_data),
                ).contains(x);
            if k > 0 {
                assert(items.drop_first()[k - 1] == items[k]);
            }
        }
    }
}

/// What the template arguments of a mentioned instantiation mention, the
/// types mention too.
pub proof fn lemma_types_instantiations_closed(
    ts: Seq<TypeModel>,
    d: InstantiationModel,
    c: InstantiationModel,
)
    requires
        types_instantiations(ts).contains(d),
        types_instantiations(d.template_arguments).contains(c),
    ensures
        types_instantiations(ts).contains(c),
    decreases ts, 0nat,
{
    lemma_types_instantiations_contains(ts, d);
    let i = choose|i: int| 0 <= i < ts.len() && #[trigger] type_instantiations(ts[i]).contains(d);
    lemma_type_instantiations_closed(ts[i], d, c);
    lemma_types_instantiations_contains(ts, c);
}

/// What the template arguments of a mentioned instantiation mention, the type
/// mentions too.
pub proof fn lemma_type_instantiations_closed(
    t: TypeModel,
    d: InstantiationModel,
    c: InstantiationModel,
)
    requires
        type_instantiations(t).contains(d),
        types_instantiations(d.template_arguments).contains(c),
    ensures
        type_instantiations(t).contains(c),
    decreases t, 1nat,
{
    match t {
        TypeModel::Class(cm) => match cm.template_arguments {
            Some(args) => {
                let head = if !any_contains_parameter(args) {
                    seq![InstantiationModel { class_name: cm.name, template_arguments: args }]
                } else {
                    Seq::empty()
                };
                lemma_concat_contains(head, types_instantiations(args), c);
                if !head.contains(d) {
                    lemma_types_instantiations_closed(args, d, c);
                }
            },
            None => {},
        },
        TypeModel::PointerLike { target, .. } => {
            lemma_type_instantiations_closed(*target, d, c);
        },
        TypeModel::FunctionPointer { return_type, arguments, .. } => {
            lemma_concat_contains(
                type_instantiations(*return_type),
                types_instantiations(arguments),
                c,
            );
            if type_instantiations(*return_type).contains(d) {
                lemma_type_instantiations_closed(*return_type, d, c);
            } else {
                lemma_types_instantiations_closed(arguments, d, c);
            }
        },
        _ => {},
    }
}

/// Recording keeps what was found before.
pub proof fn lemma_recorded_keeps(
    found: Seq<InstantiationModel>,
    candidates: Seq<InstantiationModel>,
    known: Seq<ItemModel>,
    x: InstantiationModel,
)
    requires
        found.contains(x),
    ensures
        recorded(found, candidates, known).contains(x),
    decreases candidates.len(),
{
    if candidates.len() > 0 {
        let c = candidates.first();
        let next = if !has_instantiation(known, c) && !found.contains(c) {
            found.push(c)
        } else {
            found
        };
        let i = choose|i: int| 0 <= i < found.len() && found[i] == x;
        assert(next[i] == x);
        lemma_recorded_keeps(next, candidates.drop_first(), known, x);
    }
}

/// Recording holds every candidate that no known item records.
pub proof fn lemma_recorded_covers(
    found: Seq<InstantiationModel>,
    candidates: Seq<InstantiationModel>,
    known: Seq<ItemModel>,
    x: InstantiationModel,
)
    requires
        candidates.contains(x),
        !has_instantiation(known, x),
    ensures
        recorded(found, candidates, known).contains(x),
    decreases candidates.len(),
{
    let c = candidates.first();
    let next = if !has_instantiation(known, c) && !found.contains(c) {
        found.push(c)
    } else {
        found
    };
    if c == x {
        if !found.contains(x) {
            assert(next[found.len() as int] == x);
        }
        lemma_recorded_keeps(next, candidates.drop_first(), known, x);
    } else {
        let i = choose|i: int| 0 <= i < candidates.len() && candidates[i] == x;
        assert(candidates.drop_first()[i - 1] == x);
        lemma_recorded_covers(next, candidates.drop_first(), known, x);
    }
}

/// Recording holds only what was found before and candidates.
pub proof fn lemma_recorded_from(
    found: Seq<InstantiationModel>,
    candidates: Seq<InstantiationModel>,
    known: Seq<ItemModel>,
    x: InstantiationModel,
)
    requires
        recorded(found, candidates, known).contains(x),
    ensures
        found.contains(x) || candidates.contains(x),
    decreases candidates.len(),
{
    if candidates.len() > 0 {
        let c = candidates.first();
        let next = if !has_instantiation(known, c) && !found.contains(c) {
            found.push(c)
        } else {
            found
        };
        lemma_recorded_from(next, candidates.drop_first(), known, x);
        if next.contains(x) {
            assert(found.contains(x) || x == c);
        }
    }
}

/// Where every candidate is recorded by a known item, recording adds nothing.
pub proof fn lemma_recorded_all_known(
    found: Seq<InstantiationModel>,
    candidates: Seq<InstantiationModel>,
    known: Seq<ItemModel>,
)
    requires
        forall|i: int|
            0 <= i < candidates.len() ==> has_instantiation(known, #[trigger] candidates[i]),
    ensures
        recorded(found, candidates, known) == found,
    decreases candidates.len(),
{
    if candidates.len() > 0 {
        lemma_recorded_all_known(found, candidates.drop_first(), known);
    }
}

/// The instantiations that two lists of items mention, one list after the
/// other.
pub proof fn lemma_items_instantiations_concat(a: Seq<ItemModel>, b: Seq<ItemModel>)
    ensures
        items_instantiations(a + b) == items_instantiations(a) + items_instantiations(b),
    decreases a.len(),
{
    if a.len() > 0 {
        assert((a + b).drop_first() =~= a.drop_first() + b);
        lemma_items_instantiations_concat(a.drop_first(), b);
    }
}

/// Idempotence of discovery: over the database that discovery has extended,
/// discovery finds nothing.
pub proof fn lemma_discovery_idempotent(current: DatabaseModel, deps: Seq<DatabaseModel>)
    ensures
        discovered(after_discovery(current, deps), deps) == Seq::<InstantiationModel>::empty(),
        after_discovery(after_discovery(current, deps), deps) == after_discovery(current, deps),
{
    let found = discovered(current, deps);
    let known = all_items_model(current, deps);
    let mentioned = items_instantiations(current.items);
    let added = instantiation_items(found);
    let current2 = after_discovery(current, deps);
    let known2 = all_items_model(current2, deps);
    let candidates = items_instantiations(current2.items);
    lemma_items_instantiations_concat(current.items, added);
    assert forall|i: int| 0 <= i < candidates.len() implies has_instantiation(
        known2,
        #[trigger] candidates[i],
    ) by {
        let c = candidates[i];
        if !mentioned.contains(c) {
            lemma_items_instantiations_contains(added, c);
            let k = choose|k: int|
                0 <= k < added.len() && types_instantiations(
                    item_involved_types((#[trigger] added[k]).cpp_data),
                ).contains(c);
            let d = found[k];
            lemma_recorded_from(Seq::empty(), mentioned, known, d);
            lemma_items_instantiations_contains(current.items, d);
            let j = choose|j: int|
                0 <= j < current.items.len() && types_instantiations(
                    item_involved_types((#[trigger] current.items[j]).cpp_data),
                ).contains(d);
            lemma_types_instantiations_closed(
                item_involved_types(current.items[j].cpp_data),
                d,
                c,
            );
            lemma_items_instantiations_contains(current.items, c);
        }
        if has_instantiation(known, c) {
            let j = choose|j: int|
                0 <= j < known.len() && (#[trigger] known[j]).cpp_data
                    == ItemDataModel::TemplateInstantiation(c);
            if j < current.items.len() {
                assert(known2[j] == known[j]);
            } else {
                assert(known2[j + added.len()] == known[j]);
            }
        } else {
            lemma_recorded_covers(Seq::empty(), mentioned, known, c);
            let k = choose|k: int| 0 <= k < found.len() && found[k] == c;
            assert(known2[current.items.len() + k] == added[k]);
        }
    }
    lemma_recorded_all_known(Seq::empty(), candidates, known2);
}

} // verus!
