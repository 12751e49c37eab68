//! Template-instantiation propagation and exported-identifier synthesis for a
//! generator of bindings to an object-oriented library.
//!
//! The item database of a library holds its functions, classes, enums and
//! template instantiations. Two steps of a pipeline work on it: the discovery
//! of the template instantiations that the library's interface mentions, and
//! their application to the functions that mention the templates. What
//! results is free of template parameters and can cross the boundary to the
//! host language: every type has a boundary type, and every function an
//! exported name that no other function shares.
//!
//! Every executable function states what it returns over the models of its
//! arguments (`TypeModel`, `FunctionModel`, `DatabaseModel` and the like). The
//! modules whose names end in `_laws`, and `validity`, hold what is proved of
//! these statements: discovery is idempotent, application leaves no template
//! parameter, exported names are identifiers, and the steps keep a valid
//! database valid.

pub mod application_laws;
pub mod core_application;
pub mod cpp_data;
pub mod cpp_ffi_data;
pub mod cpp_function;
pub mod cpp_operator;
pub mod cpp_template_instantiator;
pub mod cpp_type;
pub mod database;
pub mod discovery_laws;
pub mod errors;
pub mod identifier_laws;
pub mod overloads;
pub mod processor;
pub mod text;
pub mod validity;
