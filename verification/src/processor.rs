//! The processing pipeline: named steps run once each, in an order that
//! respects their prerequisites.

use crate::database::{databases_model, Database, DatabaseItem, DatabaseModel, ItemModel};
use crate::cpp_template_instantiator::{
    after_application, after_discovery, find_template_instantiations,
    instantiate_templates_with_report, CandidatePolicy,
};
use crate::errors::Error;
use crate::text::texts_of;
use vstd::prelude::*;

verus! {

/// The transformation that a step applies to the database.
#[derive(Clone, Copy, Debug, PartialEq, Eq, Hash, Structural)]
pub enum StepFunction {
    /// Work of a collaborator outside this library, such as the parser that
    /// fills the database. The library leaves the database as it is.
    External,
    /// The discovery of template instantiations.
    FindTemplateInstantiations,
    /// The application of template instantiations, under a policy for the
    /// choice of candidates.
    InstantiateTemplates(CandidatePolicy),
}

/// A named step of the pipeline.
#[derive(Debug)]
pub struct ProcessingStep {
    pub name: String,
    /// The names of the steps that must have run before this one.
    pub depends_on: Vec<String>,
    pub function: StepFunction,
}

/// Model of a step.
pub struct StepModel {
    pub name: Seq<char>,
    pub depends_on: Seq<Seq<char>>,
    pub function: StepFunction,
}

impl View for ProcessingStep {
    type V = StepModel;

    open spec fn view(&self) -> StepModel {
        StepModel {
            name: self.name@,
            depends_on: texts_of(self.depends_on@),
            function: self.function,
        }
    }
}

/// The models of a list of steps.
pub open spec fn steps_model(steps: Seq<ProcessingStep>) -> Seq<StepModel> {
    Seq::new(steps.len(), |i: int| steps[i]@)
}

impl ProcessingStep {
    /// A step with the given name, prerequisites and transformation.
    pub fn new(name: &str, depends_on: Vec<String>, function: StepFunction) -> (r: ProcessingStep)
        ensures
            r@ == (StepModel { name: name@, depends_on: texts_of(depends_on@), function }),
    {
        ProcessingStep { name: String::from_str(name), depends_on, function }
    }
}

/// Whether a step of that name is registered.
pub open spec fn is_registered(steps: Seq<StepModel>, name: Seq<char>) -> bool {
    exists|i: int| 0 <= i < steps.len() && (#[trigger] steps[i]).name == name
}

/// Whether a step of that name is among the steps that have run.
pub open spec fn has_run(steps: Seq<StepModel>, done: Seq<usize>, name: Seq<char>) -> bool {
    exists|p: int|
        0 <= p < done.len() && (#[trigger] done[p]) < steps.len() && steps[done[p] as int].name
            == name
}

/// Whether every prerequisite of step `i` has run.
pub open spec fn is_ready(steps: Seq<StepModel>, done: Seq<usize>, i: int) -> bool {
    forall|d: int|
        0 <= d < steps[i].depends_on.len() ==> has_run(
            steps,
            done,
            #[trigger] steps[i].depends_on[d],
        )
}

/// Whether the step at position `p` of the order has all its prerequisites
/// before it.
pub open spec fn is_ready_at(steps: Seq<StepModel>, order: Seq<usize>, p: int) -> bool {
    is_ready(steps, order.take(p), order[p] as int)
}

/// Whether the order runs every step exactly once, each after all its
/// prerequisites.
pub open spec fn is_execution_order(steps: Seq<StepModel>, order: Seq<usize>) -> bool {
    &&& order.len() == steps.len()
    &&& order.no_duplicates()
    &&& forall|p: int| 0 <= p < order.len() ==> (#[trigger] order[p]) < steps.len()
    &&& forall|p: int| 0 <= p < order.len() ==> #[trigger] is_ready_at(steps, order, p)
}

/// Whether step `i` is the first registered step that has not run and whose
/// prerequisites have all run.
pub open spec fn is_first_ready(steps: Seq<StepModel>, done: Seq<usize>, i: int) -> bool {
    &&& 0 <= i < steps.len()
    &&& !done.contains(i as usize)
    &&& is_ready(steps, done, i)
    &&& forall|j: int|
        0 <= j < i ==> done.contains(j as usize) || !#[trigger] is_ready(steps, done, j)
}

/// Whether the step at position `p` of the order is the first that could run
/// there.
pub open spec fn is_first_ready_at(steps: Seq<StepModel>, order: Seq<usize>, p: int) -> bool {
    is_first_ready(steps, order.take(p), order[p] as int)
}

/// Whether the order takes, at each position, the first step that can run.
/// This fixes the order among steps that do not depend on each other.
pub open spec fn takes_first_ready(steps: Seq<StepModel>, order: Seq<usize>) -> bool {
    forall|p: int| 0 <= p < order.len() ==> #[trigger] is_first_ready_at(steps, order, p)
}

/// The first of the names that no step has.
pub open spec fn first_unknown_among(steps: Seq<StepModel>, names: Seq<Seq<char>>) -> Option<
    Seq<char>,
>
    decreases names.len(),
{
    if names.len() == 0 {
        None
    } else if !is_registered(steps, names.first()) {
        Some(names.first())
    } else {
        first_unknown_among(steps, names.drop_first())
    }
}

/// The first prerequisite of the steps `scanned`, in their order, that no
/// step of `steps` has for a name.
pub open spec fn first_unknown_dependency(steps: Seq<StepModel>, scanned: Seq<StepModel>) -> Option<
    Seq<char>,
>
    decreases scanned.len(),
{
    if scanned.len() == 0 {
        None
    } else {
        match first_unknown_among(steps, scanned.first().depends_on) {
            Some(name) => Some(name),
            None => first_unknown_dependency(steps, scanned.drop_first()),
        }
    }
}

/// Two orders that take the first step that can run at each position agree
/// on their first `p` positions.
pub proof fn lemma_first_ready_orders_agree(
    steps: Seq<StepModel>,
    a: Seq<usize>,
    b: Seq<usize>,
    p: int,
)
    requires
        takes_first_ready(steps, a),
        takes_first_ready(steps, b),
        0 <= p <= a.len(),
        p <= b.len(),
    ensures
        a.take(p) == b.take(p),
    decreases p,
{
    if p > 0 {
        lemma_first_ready_orders_agree(steps, a, b, p - 1);
        assert(is_first_ready_at(steps, a, p - 1));
        assert(is_first_ready_at(steps, b, p - 1));
    }
}

/// The order of execution is determined: there is one order at most that
/// runs every step once and takes the first step that can run at each
/// position.
pub proof fn lemma_execution_order_unique(steps: Seq<StepModel>, a: Seq<usize>, b: Seq<usize>)
    requires
        is_execution_order(steps, a),
        takes_first_ready(steps, a),
        is_execution_order(steps, b),
        takes_first_ready(steps, b),
    ensures
        a == b,
{
    lemma_first_ready_orders_agree(steps, a, b, a.len() as int);
    assert(a.take(a.len() as int) =~= a);
}

/// The first position of `order`, below `upto`, whose step has not run.
pub proof fn lemma_first_outside(order: Seq<usize>, done: Seq<usize>, upto: int) -> (p: int)
    requires
        0 <= upto <= order.len(),
        exists|q: int| 0 <= q < upto && !done.contains(#[trigger] order[q]),
    ensures
        0 <= p < upto,
        !done.contains(order[p]),
        forall|q: int| 0 <= q < p ==> done.contains(#[trigger] order[q]),
    decreases upto,
{
    if exists|q: int| 0 <= q < upto - 1 && !done.contains(#[trigger] order[q]) {
        lemma_first_outside(order, done, upto - 1)
    } else {
        upto - 1
    }
}

/// Where steps are left and none of them can run, the prerequisites form a
/// cycle: no order runs every step after its prerequisites.
pub proof fn lemma_stuck_means_no_order(steps: Seq<StepModel>, done: Seq<usize>, order: Seq<usize>)
    requires
        done.len() < steps.len(),
        done.no_duplicates(),
        forall|i: int|
            0 <= i < steps.len() && !done.contains(i as usize) ==> !#[trigger] is_ready(
                steps,
                done,
                i,
            ),
    ensures
        !is_execution_order(steps, order),
{
    if is_execution_order(steps, order) {
        if forall|q: int| 0 <= q < order.len() ==> done.contains(#[trigger] order[q]) {
            order.unique_seq_to_set();
            done.unique_seq_to_set();
            vstd::seq_lib::seq_to_set_is_finite(done);
            vstd::set_lib::lemma_len_subset(order.to_set(), done.to_set());
        } else {
            let p = lemma_first_outside(order, done, order.len() as int);
            let i = order[p] as int;
            assert(is_ready_at(steps, order, p));
            assert(is_ready(steps, done, i));
        }
    }
}

/// Whether the result is what the steps determine: the failure for the first
/// unknown prerequisite; else the order that takes the first step that can
/// run at each position; else, where no order exists, the failure for a cycle.
pub open spec fn is_order_result(steps: Seq<StepModel>, r: Result<Vec<usize>, Error>) -> bool {
    match first_unknown_dependency(steps, steps) {
        Some(name) => r matches Err(Error::UnknownStepDependency(n)) && n@ == name,
        None => if exists|o: Seq<usize>| is_execution_order(steps, o) {
            r is Ok && is_execution_order(steps, r->Ok_0@) && takes_first_ready(steps, r->Ok_0@)
        } else {
            r matches Err(Error::CyclicStepDependency)
        },
    }
}

/// The database after one step.
pub open spec fn step_effect(
    function: StepFunction,
    current: DatabaseModel,
    deps: Seq<DatabaseModel>,
) -> DatabaseModel {
    match function {
        StepFunction::External => current,
        StepFunction::FindTemplateInstantiations => after_discovery(current, deps),
        StepFunction::InstantiateTemplates(policy) => after_application(current, deps, policy),
    }
}

/// The database after the steps at the given positions have run in order.
pub open spec fn after_steps(
    steps: Seq<StepModel>,
    order: Seq<usize>,
    current: DatabaseModel,
    deps: Seq<DatabaseModel>,
) -> DatabaseModel
    decreases order.len(),
{
    if order.len() == 0 {
        current
    } else {
        step_effect(
            steps[order.last() as int].function,
            after_steps(steps, order.drop_last(), current, deps),
            deps,
        )
    }
}

/// Whether a step has the name.
pub fn is_step_registered(steps: &Vec<ProcessingStep>, name: &String) -> (r: bool)
    ensures
        r == is_registered(steps_model(steps@), name@),
{
    let mut i: usize = 0;
    while i < steps.len()
        invariant
            i <= steps.len(),
            forall|j: int| 0 <= j < i ==> (#[trigger] steps_model(steps@)[j]).name != name@,
        decreases steps.len() - i,
    {
        if steps[i].name == *name {
            assert(steps_model(steps@)[i as int].name == name@);
            return true;
        }
        i += 1;
    }
    false
}

/// Whether a step of that name is among the steps that have run.
pub fn has_step_run(steps: &Vec<ProcessingStep>, done: &Vec<usize>, name: &String) -> (r: bool)
    ensures
        r == has_run(steps_model(steps@), done@, name@),
{
    let mut p: usize = 0;
    while p < done.len()
        invariant
            p <= done.len(),
            forall|q: int|
                0 <= q < p ==> !((#[trigger] done@[q]) < steps.len() && steps_model(
                    steps@,
                )[done@[q] as int].name == name@),
        decreases done.len() - p,
    {
        if done[p] < steps.len() && steps[done[p]].name == *name {
            return true;
        }
        p += 1;
    }
    false
}

/// Whether every prerequisite of step `i` has run.
pub fn is_step_ready(steps: &Vec<ProcessingStep>, done: &Vec<usize>, i: usize) -> (r: bool)
    requires
        i < steps.len(),
    ensures
        r == is_ready(steps_model(steps@), done@, i as int),
{
    let step = &steps[i];
    let ghost names = steps_model(steps@)[i as int].depends_on;
    let mut d: usize = 0;
    while d < step.depends_on.len()
        invariant
            d <= step.depends_on.len(),
            names == texts_of(step.depends_on@),
            names == steps_model(steps@)[i as int].depends_on,
            forall|e: int| 0 <= e < d ==> has_run(steps_model(steps@), done@, #[trigger] names[e]),
        decreases step.depends_on.len() - d,
    {
        if !has_step_run(steps, done, &step.depends_on[d]) {
            assert(!has_run(steps_model(steps@), done@, names[d as int]));
            return false;
        }
        d += 1;
    }
    true
}

/// The first prerequisite of the steps that no step has for a name.
pub fn find_unknown_dependency(steps: &Vec<ProcessingStep>) -> (r: Option<String>)
    ensures
        match first_unknown_dependency(steps_model(steps@), steps_model(steps@)) {
            Some(name) => r is Some && r->Some_0@ == name,
            None => r is None,
        },
{
    let ghost m = steps_model(steps@);
    let mut i: usize = 0;
    proof {
        assert(m.skip(0) =~= m);
    }
    while i < steps.len()
        invariant
            i <= steps.len(),
            m == steps_model(steps@),
            first_unknown_dependency(m, m) == first_unknown_dependency(m, m.skip(i as int)),
        decreases steps.len() - i,
    {
        let step = &steps[i];
        let ghost names = m[i as int].depends_on;
        let mut d: usize = 0;
        proof {
            assert(m.skip(i as int).drop_first() =~= m.skip(i + 1));
            assert(names.skip(0) =~= names);
        }
        while d < step.depends_on.len()
            invariant
                d <= step.depends_on.len(),
                i < steps.len(),
                m == steps_model(steps@),
                names == texts_of(step.depends_on@),
                names == m.skip(i as int).first().depends_on,
                m.skip(i as int).len() > 0,
                first_unknown_dependency(m, m) == first_unknown_dependency(m, m.skip(i as int)),
                first_unknown_among(m, names) == first_unknown_among(m, names.skip(d as int)),
            decreases step.depends_on.len() - d,
        {
            proof {
                assert(names.skip(d as int).drop_first() =~= names.skip(d + 1));
            }
            if !is_step_registered(steps, &step.depends_on[d]) {
                return Some(step.depends_on[d].clone());
            }
            d += 1;
        }
        i += 1;
    }
    None
}

/// The order in which the steps run: every step once, each after all its
/// prerequisites, and at each position the first registered step that can
/// run. Fails, before any step runs, where a prerequisite is not registered
/// or the prerequisites form a cycle.
pub fn execution_order(steps: &Vec<ProcessingStep>) -> (r: Result<Vec<usize>, Error>)
    ensures
        is_order_result(steps_model(steps@), r),
{
    let ghost m = steps_model(steps@);
    if let Some(name) = find_unknown_dependency(steps) {
        return Err(Error::UnknownStepDependency(name));
    }
    let n = steps.len();
    let mut order: Vec<usize> = Vec::new();
    while order.len() < n
        invariant
            n == steps.len(),
            m == steps_model(steps@),
            first_unknown_dependency(m, m) is None,
            order.len() <= n,
            order@.no_duplicates(),
            forall|p: int| 0 <= p < order.len() ==> (#[trigger] order@[p]) < n,
            forall|p: int| 0 <= p < order.len() ==> #[trigger] is_first_ready_at(m, order@, p),
        decreases n - order.len(),
    {
        let ghost done = order@;
        let mut i: usize = 0;
        let mut found: Option<usize> = None;
        while i < n && found.is_none()
            invariant
                n == steps.len(),
                m == steps_model(steps@),
                done == order@,
                i <= n,
                forall|j: int|
                    0 <= j < i && found is None ==> done.contains(j as usize) || !#[trigger] is_ready(
                        m,
                        done,
                        j,
                    ),
                found matches Some(x) ==> is_first_ready(m, done, x as int),
            decreases n - i + (if found is None { 1int } else { 0int }),
        {
            if !contains_index(&order, i) && is_step_ready(steps, &order, i) {
                found = Some(i);
            } else {
                i += 1;
            }
        }
        match found {
            Some(x) => {
                order.push(x);
                proof {
                    assert forall|p: int| 0 <= p < order.len() implies #[trigger] is_first_ready_at(
                        m,
                        order@,
                        p,
                    ) by {
                        assert(order@.take(p) =~= done.take(p));
                        if p < done.len() {
                            assert(is_first_ready_at(m, done, p));
                        } else {
                            assert(done.take(p) =~= done);
                        }
                    }
                }
            },
            None => {
                proof {
                    assert forall|o: Seq<usize>| !is_execution_order(m, o) by {
                        lemma_stuck_means_no_order(m, done, o);
                    }
                }
                return Err(Error::CyclicStepDependency);
            },
        }
    }
    proof {
        assert forall|p: int| 0 <= p < order.len() implies #[trigger] is_ready_at(m, order@, p) by {
            assert(is_first_ready_at(m, order@, p));
        }
        assert(is_execution_order(m, order@));
    }
    Ok(order)
}

/// Whether the list holds the index.
pub fn contains_index(list: &Vec<usize>, index: usize) -> (r: bool)
    ensures
        r == list@.contains(index),
{
    let mut p: usize = 0;
    while p < list.len()
        invariant
            p <= list.len(),
            forall|q: int| 0 <= q < p ==> list@[q] != index,
        decreases list.len() - p,
    {
        if list[p] == index {
            return true;
        }
        p += 1;
    }
    false
}

/// What a step works on: the database of the current library, and the
/// databases of the libraries that it depends on.
pub struct ProcessorData<'a> {
    pub current_database: &'a mut Database,
    pub dep_databases: &'a Vec<Database>,
}

/// The items of the databases, one database after another.
pub open spec fn databases_items(dbs: Seq<DatabaseModel>) -> Seq<ItemModel>
    decreases dbs.len(),
{
    if dbs.len() == 0 {
        Seq::empty()
    } else {
        databases_items(dbs.drop_last()) + dbs.last().items
    }
}

/// All items that a step can see: those of the current library, then those of
/// each dependency.
pub open spec fn all_items_model(current: DatabaseModel, deps: Seq<DatabaseModel>) -> Seq<
    ItemModel,
> {
    current.items + databases_items(deps)
}

/// The models of borrowed items.
pub open spec fn borrowed_items_model(items: Seq<&DatabaseItem>) -> Seq<ItemModel> {
    Seq::new(items.len(), |i: int| (*items[i])@)
}

impl<'a> ProcessorData<'a> {
    /// All items: those of the current library, then those of each
    /// dependency.
    pub fn all_items(&self) -> (r: Vec<&DatabaseItem>)
        ensures
            borrowed_items_model(r@) == all_items_model(
                old(self.current_database)@,
                databases_model(self.dep_databases@),
            ),
    {
        let mut out: Vec<&DatabaseItem> = Vec::new();
        let mut i: usize = 0;
        while i < self.current_database.items.len()
            invariant
                i <= self.current_database.items.len(),
                borrowed_items_model(out@) == self.current_database@.items.take(i as int),
            decreases self.current_database.items.len() - i,
        {
            let ghost prev = borrowed_items_model(out@);
            out.push(&self.current_database.items[i]);
            proof {
                let items = self.current_database@.items;
                assert(borrowed_items_model(out@) =~= prev.push(items[i as int]));
            }
            i += 1;
        }
        let mut d: usize = 0;
        while d < self.dep_databases.len()
            invariant
                d <= self.dep_databases.len(),
                borrowed_items_model(out@) == self.current_database@.items + databases_items(
                    databases_model(self.dep_databases@).take(d as int),
                ),
            decreases self.dep_databases.len() - d,
        {
            let db = &self.dep_databases[d];
            let ghost before = borrowed_items_model(out@);
            let mut k: usize = 0;
            while k < db.items.len()
                invariant
                    k <= db.items.len(),
                    borrowed_items_model(out@) == before + db@.items.take(k as int),
                decreases db.items.len() - k,
            {
                let ghost prev = borrowed_items_model(out@);
                out.push(&db.items[k]);
                proof {
                    let items = db@.items;
                    assert(borrowed_items_model(out@) =~= prev.push(items[k as int]));
                }
                k += 1;
            }
            proof {
                let dbs = databases_model(self.dep_databases@);
                assert(dbs.take(d + 1).drop_last() =~= dbs.take(d as int));
            }
            d += 1;
        }
        proof {
            let dbs = databases_model(self.dep_databases@);
            assert(dbs.take(d as int) =~= dbs);
        }
        out
    }
}

/// Runs one step on the database of the current library.
pub fn run_step(step: &ProcessingStep, data: ProcessorData) -> (r: Result<(), Error>)
    ensures
        r is Ok,
        final(data.current_database)@ == step_effect(
            step.function,
            old(data.current_database)@,
            databases_model(data.dep_databases@),
        ),
{
    match step.function {
        StepFunction::External => Ok(()),
        StepFunction::FindTemplateInstantiations => find_template_instantiations(data),
        StepFunction::InstantiateTemplates(policy) => {
            let _ = instantiate_templates_with_report(data, policy);
            Ok(())
        },
    }
}

/// Runs every step once, in the order that `execution_order` gives. Where
/// that fails, no step runs and the database stays as it is. Returns the
/// positions of the steps in the order in which they ran.
pub fn process(steps: &Vec<ProcessingStep>, data: ProcessorData) -> (r: Result<Vec<usize>, Error>)
    ensures
        is_order_result(steps_model(steps@), r),
        r is Err ==> *final(data.current_database) == *old(data.current_database),
        r is Ok ==> final(data.current_database)@ == after_steps(
            steps_model(steps@),
            r->Ok_0@,
            old(data.current_database)@,
            databases_model(data.dep_databases@),
        ),
{
    let order = execution_order(steps)?;
    let ghost m = steps_model(steps@);
    let ghost start = data.current_database@;
    let ghost deps = databases_model(data.dep_databases@);
    let ghost at_return = *final(data.current_database);
    let mut p: usize = 0;
    while p < order.len()
        invariant
            p <= order.len(),
            m == steps_model(steps@),
            deps == databases_model(data.dep_databases@),
            *final(data.current_database) == at_return,
            is_execution_order(m, order@),
            data.current_database@ == after_steps(m, order@.take(p as int), start, deps),
        decreases order.len() - p,
    {
        let step = &steps[order[p]];
        proof {
            assert(order@.take(p + 1).drop_last() =~= order@.take(p as int));
        }
        let _ = run_step(
            step,
            ProcessorData {
                current_database: &mut *data.current_database,
                dep_databases: data.dep_databases,
            },
        );
        p += 1;
    }
    proof {
        assert(order@.take(p as int) =~= order@);
    }
    Ok(order)
}

} // verus!
