//! The item database of one library.

use crate::cpp_data::{CppTemplateInstantiation, InstantiationModel};
use crate::cpp_function::{involved_types, CppFunction, FunctionModel};
use crate::cpp_type::{clone_types, types_model, ClassModel, CppClassType, CppType, TypeModel};
use vstd::prelude::*;

verus! {

/// Where an item of the database came from.
#[derive(Clone, Copy, Debug, PartialEq, Eq, Hash, Structural)]
pub enum DatabaseItemSource {
    /// The item was read from the library's declarations.
    CppParser,
    /// The item was derived by applying a template instantiation.
    TemplateInstantiation,
}

/// What an item of the database holds.
#[derive(Debug)]
pub enum CppItemData {
    Function(CppFunction),
    Class(CppClassType),
    Enum { name: String },
    TemplateInstantiation(CppTemplateInstantiation),
}

/// An item of the database with its provenance.
#[derive(Debug)]
pub struct DatabaseItem {
    pub source: DatabaseItemSource,
    pub cpp_data: CppItemData,
}

/// The items of one library, in the order in which they were added.
#[derive(Debug)]
pub struct Database {
    pub crate_name: String,
    pub items: Vec<DatabaseItem>,
}

/// Model of what an item holds.
pub enum ItemDataModel {
    Function(FunctionModel),
    Class(ClassModel),
    Enum { name: Seq<char> },
    TemplateInstantiation(InstantiationModel),
}

/// Model of an item.
pub struct ItemModel {
    pub source: DatabaseItemSource,
    pub cpp_data: ItemDataModel,
}

/// Model of a database.
pub struct DatabaseModel {
    pub crate_name: Seq<char>,
    pub items: Seq<ItemModel>,
}

impl View for CppItemData {
    type V = ItemDataModel;

    open spec fn view(&self) -> ItemDataModel {
        match *self {
            CppItemData::Function(f) => ItemDataModel::Function(f@),
            CppItemData::Class(c) => ItemDataModel::Class(c@),
            CppItemData::Enum { name } => ItemDataModel::Enum { name: name@ },
            CppItemData::TemplateInstantiation(inst) => ItemDataModel::TemplateInstantiation(inst@),
        }
    }
}

impl View for DatabaseItem {
    type V = ItemModel;

    open spec fn view(&self) -> ItemModel {
        ItemModel { source: self.source, cpp_data: self.cpp_data@ }
    }
}

/// The models of a list of items.
pub open spec fn items_model(items: Seq<DatabaseItem>) -> Seq<ItemModel> {
    Seq::new(items.len(), |i: int| items[i]@)
}

impl View for Database {
    type V = DatabaseModel;

    open spec fn view(&self) -> DatabaseModel {
        DatabaseModel { crate_name: self.crate_name@, items: items_model(self.items@) }
    }
}

/// The models of a list of databases.
pub open spec fn databases_model(dbs: Seq<Database>) -> Seq<DatabaseModel> {
    Seq::new(dbs.len(), |i: int| dbs[i]@)
}

/// Every type that the item mentions.
pub open spec fn item_involved_types(data: ItemDataModel) -> Seq<TypeModel> {
    match data {
        ItemDataModel::Function(f) => involved_types(f),
        ItemDataModel::Class(c) => seq![TypeModel::Class(c)],
        ItemDataModel::Enum { name } => seq![TypeModel::Enum { name }],
        ItemDataModel::TemplateInstantiation(inst) => inst.template_arguments,
    }
}

impl PartialEq for CppItemData {
    fn eq(&self, other: &Self) -> (r: bool) {
        match (self, other) {
            (CppItemData::Function(a), CppItemData::Function(b)) => a == b,
            (CppItemData::Class(a), CppItemData::Class(b)) => a == b,
            (CppItemData::Enum { name: a }, CppItemData::Enum { name: b }) => *a == *b,
            (CppItemData::TemplateInstantiation(a), CppItemData::TemplateInstantiation(b)) => a
                == b,
            _ => false,
        }
    }
}

impl vstd::std_specs::cmp::PartialEqSpecImpl for CppItemData {
    open spec fn obeys_eq_spec() -> bool {
        true
    }

    open spec fn eq_spec(&self, other: &Self) -> bool {
        self@ == other@
    }
}

impl Eq for CppItemData {

}

impl Clone for CppItemData {
    fn clone(&self) -> (r: Self)
        ensures
            r@ == self@,
    {
        match self {
            CppItemData::Function(f) => CppItemData::Function(f.clone()),
            CppItemData::Class(c) => CppItemData::Class(c.clone()),
            CppItemData::Enum { name } => CppItemData::Enum { name: name.clone() },
            CppItemData::TemplateInstantiation(inst) => CppItemData::TemplateInstantiation(
                inst.clone(),
            ),
        }
    }
}

impl Clone for DatabaseItem {
    fn clone(&self) -> (r: Self)
        ensures
            r@ == self@,
    {
        DatabaseItem { source: self.source, cpp_data: self.cpp_data.clone() }
    }
}

impl PartialEq for DatabaseItem {
    fn eq(&self, other: &Self) -> (r: bool) {
        self.source == other.source && self.cpp_data == other.cpp_data
    }
}

impl vstd::std_specs::cmp::PartialEqSpecImpl for DatabaseItem {
    open spec fn obeys_eq_spec() -> bool {
        true
    }

    open spec fn eq_spec(&self, other: &Self) -> bool {
        self@ == other@
    }
}

impl Eq for DatabaseItem {

}

impl Clone for Database {
    fn clone(&self) -> (r: Self)
        ensures
            r@ == self@,
    {
        let mut items: Vec<DatabaseItem> = Vec::new();
        let mut i: usize = 0;
        while i < self.items.len()
            invariant
                i <= self.items.len(),
                items.len() == i,
                forall|j: int| 0 <= j < i ==> (#[trigger] items@[j])@ == self.items@[j]@,
            decreases self.items.len() - i,
        {
            items.push(self.items[i].clone());
            i += 1;
        }
        let r = Database { crate_name: self.crate_name.clone(), items };
        assert(r@.items =~= self@.items);
        r
    }
}

impl PartialEq for Database {
    fn eq(&self, other: &Self) -> (r: bool) {
        if self.crate_name != other.crate_name || self.items.len() != other.items.len() {
            assert(self@.crate_name != other@.crate_name || self@.items.len()
                != other@.items.len());
            return false;
        }
        let mut i: usize = 0;
        while i < self.items.len()
            invariant
                i <= self.items.len(),
                self.items.len() == other.items.len(),
                self@.crate_name == other@.crate_name,
                forall|j: int| 0 <= j < i ==> (#[trigger] self.items@[j])@ == other.items@[j]@,
            decreases self.items.len() - i,
        {
            if self.items[i] != other.items[i] {
                assert(self@.items[i as int] != other@.items[i as int]);
                return false;
            }
            i += 1;
        }
        assert(self@.items =~= other@.items);
        true
    }
}

impl vstd::std_specs::cmp::PartialEqSpecImpl for Database {
    open spec fn obeys_eq_spec() -> bool {
        true
    }

    open spec fn eq_spec(&self, other: &Self) -> bool {
        self@ == other@
    }
}

impl Eq for Database {

}

/// Whether one of the items holds the data.
pub open spec fn holds_data(items: Seq<ItemModel>, data: ItemDataModel) -> bool {
    exists|i: int| 0 <= i < items.len() && (#[trigger] items[i]).cpp_data == data
}

/// The items after an attempt to add one: unchanged where an item holds the
/// same data, else with the new item at the end.
pub open spec fn items_with(
    items: Seq<ItemModel>,
    source: DatabaseItemSource,
    data: ItemDataModel,
) -> Seq<ItemModel> {
    if holds_data(items, data) {
        items
    } else {
        items.push(ItemModel { source, cpp_data: data })
    }
}

impl CppItemData {
    /// The function that the item holds, if it holds one.
    pub fn as_function_ref(&self) -> (r: Option<&CppFunction>)
        ensures
            match self@ {
                ItemDataModel::Function(f) => r is Some && r->Some_0@ == f,
                _ => r is None,
            },
    {
        match self {
            CppItemData::Function(f) => Some(f),
            _ => None,
        }
    }

    /// The template instantiation that the item holds, if it holds one.
    pub fn as_template_instantiation_ref(&self) -> (r: Option<&CppTemplateInstantiation>)
        ensures
            match self@ {
                ItemDataModel::TemplateInstantiation(inst) => r is Some && r->Some_0@ == inst,
                _ => r is None,
            },
    {
        match self {
            CppItemData::TemplateInstantiation(inst) => Some(inst),
            _ => None,
        }
    }

    /// Every type that the item mentions.
    pub fn all_involved_types(&self) -> (r: Vec<CppType>)
        ensures
            types_model(r@) == item_involved_types(self@),
    {
        match self {
            CppItemData::Function(f) => f.all_involved_types(),
            CppItemData::Class(c) => {
                let mut out: Vec<CppType> = Vec::new();
                let t = CppType::Class(c.clone());
                out.push(t);
                out
            },
            CppItemData::Enum { name } => {
                let mut out: Vec<CppType> = Vec::new();
                out.push(CppType::Enum { name: name.clone() });
                out
            },
            CppItemData::TemplateInstantiation(inst) => clone_types(&inst.template_arguments),
        }
    }
}

impl Database {
    /// A database without items.
    pub fn empty(crate_name: &str) -> (r: Database)
        ensures
            r@.crate_name == crate_name@,
            r@.items == Seq::<ItemModel>::empty(),
    {
        let r = Database { crate_name: String::from_str(crate_name), items: Vec::new() };
        r
    }

    /// Whether an item of the database holds the data.
    pub fn contains_data(&self, data: &CppItemData) -> (r: bool)
        ensures
            r == holds_data(self@.items, data@),
    {
        let mut i: usize = 0;
        while i < self.items.len()
            invariant
                i <= self.items.len(),
                forall|j: int| 0 <= j < i ==> (#[trigger] self@.items[j]).cpp_data != data@,
            decreases self.items.len() - i,
        {
            if self.items[i].cpp_data == *data {
                assert(self@.items[i as int].cpp_data == data@);
                return true;
            }
            i += 1;
        }
        false
    }

    /// Adds an item at the end, unless an item of the database holds the
    /// same data. The items that were there stay, in their order. Returns
    /// whether the item was added.
    pub fn add_cpp_data(&mut self, source: DatabaseItemSource, data: CppItemData) -> (r: bool)
        ensures
            final(self)@.crate_name == old(self)@.crate_name,
            final(self)@.items == items_with(old(self)@.items, source, data@),
            r == !holds_data(old(self)@.items, data@),
    {
        if self.contains_data(&data) {
            return false;
        }
        self.items.push(DatabaseItem { source, cpp_data: data });
        true
    }
}

} // verus!
