//! Form actions for HTML pages: the routing of a form submission to the
//! handler that its query string names, and the generator that turns a scope
//! of handler declarations into form metadata and request dispatchers.

pub mod axum;
pub mod build_ext;
pub mod config;
pub mod descriptor;
pub mod dispatch;
pub mod dispatcher;
pub mod emit;
pub mod error;
pub mod extract;
pub mod model;
pub mod picoserve;
pub mod resolver;
pub mod rewrite;
pub mod text;

pub use axum::axum_handler;
pub use build_ext::BuildExt;
pub use config::{AxumConfig, PicoserveConfig, ScopeConfig};
pub use descriptor::{DecodeField, FormDescriptor, NameConstant};
pub use dispatch::select_action;
pub use dispatcher::Adapter;
pub use error::GenerationError;
pub use extract::validate;
pub use model::{Action, Declaration, FormField, FormMarker, Function, Parameter, Pattern};
pub use picoserve::picoserve_handler;
pub use resolver::query_action;
pub use rewrite::{try_actions, Generated, Item, Module};
