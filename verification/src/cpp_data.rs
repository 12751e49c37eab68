//! Records of the item database other than functions.

use crate::cpp_type::{
    clone_types, types_equal, types_model, ClassModel, CppClassType, CppType, TypeModel,
};
use vstd::prelude::*;

verus! {

/// A template class with values for all its template parameters.
#[derive(Debug)]
pub struct CppTemplateInstantiation {
    pub class_name: String,
    pub template_arguments: Vec<CppType>,
}

/// Model of a template instantiation. Two instantiations are the same where
/// their models are equal.
pub struct InstantiationModel {
    pub class_name: Seq<char>,
    pub template_arguments: Seq<TypeModel>,
}

impl View for CppTemplateInstantiation {
    type V = InstantiationModel;

    open spec fn view(&self) -> InstantiationModel {
        InstantiationModel {
            class_name: self.class_name@,
            template_arguments: types_model(self.template_arguments@),
        }
    }
}

impl Clone for CppTemplateInstantiation {
    fn clone(&self) -> (r: Self)
        ensures
            r@ == self@,
    {
        CppTemplateInstantiation {
            class_name: self.class_name.clone(),
            template_arguments: clone_types(&self.template_arguments),
        }
    }
}

impl PartialEq for CppTemplateInstantiation {
    fn eq(&self, other: &Self) -> (r: bool) {
        self.class_name == other.class_name && types_equal(
            &self.template_arguments,
            &other.template_arguments,
        )
    }
}

impl vstd::std_specs::cmp::PartialEqSpecImpl for CppTemplateInstantiation {
    open spec fn obeys_eq_spec() -> bool {
        true
    }

    open spec fn eq_spec(&self, other: &Self) -> bool {
        self@ == other@
    }
}

impl Eq for CppTemplateInstantiation {

}

/// The class type that the instantiation stands for.
pub open spec fn instantiated_class(inst: InstantiationModel) -> ClassModel {
    ClassModel { name: inst.class_name, template_arguments: Some(inst.template_arguments) }
}

impl CppTemplateInstantiation {
    /// The class type that the instantiation stands for.
    pub fn class_type(&self) -> (r: CppClassType)
        ensures
            r@ == instantiated_class(self@),
    {
        CppClassType {
            name: self.class_name.clone(),
            template_arguments: Some(clone_types(&self.template_arguments)),
        }
    }
}

} // verus!
