//! Project scaffolding from reusable templates: settings resolution, the
//! substitution context, and the ordered plan that turns a manifest into a
//! directory tree.

pub mod args;
pub mod catalog;
pub mod constants;
pub mod context;
pub mod date;
pub mod includes;
pub mod names;
pub mod order;
pub mod plan;
pub mod render;
pub mod repo;
pub mod settings;
pub mod template;
pub mod text;
pub mod types;
pub mod util;
