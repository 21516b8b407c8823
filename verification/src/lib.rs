//! Module resolution for a JavaScript bundler.
//!
//! A specifier and the file that imports it are turned into the file the
//! specifier names, together with that file's module system. A lookup is
//! made by an engine of `oxc_resolver`, and by the caller; what is decided
//! around it (condition lists, option defaults, which lookups are made and
//! how their outcome is reported) is verified here.

pub mod attempts;
pub mod conditions;
pub mod css_generator;
pub mod engine;
pub mod text;
pub mod types;
pub mod module_type;
pub mod options;
pub mod outcome;
pub mod paths;
pub mod resolver;

pub use css_generator::CssGenerator;
pub use module_type::calc_module_type;
pub use resolver::Resolver;
pub use types::{ImportKind, ModuleType, Platform, RawResolveOptions, ResolveReturn, ResolvedPath};
