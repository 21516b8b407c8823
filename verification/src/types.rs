//! The plain data that goes into and comes out of a resolution.

use vstd::prelude::*;

verus! {

/// The environment a build targets. It decides which conditions and which
/// manifest fields are used when the caller names none.
#[derive(Clone, Copy, Debug, PartialEq, Eq, Structural)]
pub enum Platform {
    Node,
    Browser,
    Neutral,
}

/// How a specifier is consumed by the module that names it.
#[derive(Clone, Copy, Debug, PartialEq, Eq, Structural)]
pub enum ImportKind {
    Import,
    DynamicImport,
    Require,
}

/// The module system of a resolved file.
#[derive(Clone, Copy, Debug, PartialEq, Eq, Structural)]
pub enum ModuleType {
    EsmMjs,
    CJS,
    EsmPackageJson,
    CjsPackageJson,
    Unknown,
}

/// A resolved file. `ignored` marks a specifier that a manifest mapped to
/// "do not load": the path is still reported, the module contributes no code.
#[derive(Clone, Debug)]
pub struct ResolvedPath {
    pub path: String,
    pub ignored: bool,
}

/// What a successful resolution returns.
#[derive(Clone, Debug)]
pub struct ResolveReturn {
    pub path: ResolvedPath,
    pub module_type: ModuleType,
}

/// What the user may configure. A field left `None` gets a default that
/// may depend on the platform.
#[derive(Clone, Debug)]
pub struct RawResolveOptions {
    pub alias: Option<Vec<(String, Vec<String>)>>,
    pub alias_fields: Option<Vec<Vec<String>>>,
    pub condition_names: Option<Vec<String>>,
    pub exports_fields: Option<Vec<Vec<String>>>,
    pub extensions: Option<Vec<String>>,
    pub main_fields: Option<Vec<String>>,
    pub main_files: Option<Vec<String>>,
    pub modules: Option<Vec<String>>,
    pub symlinks: Option<bool>,
    pub tsconfig_filename: Option<String>,
}

} // verus!
