//! From what the user configured to what each engine is built with.
//!
//! Normalizing is plain data transformation: a field the user set is taken
//! as it is, a field left out gets its default, which for some fields
//! depends on the platform. Nothing is validated and nothing is read.

use vstd::prelude::*;
use crate::conditions::{
    condition_lists, default_conditions, import_conditions, require_conditions, user_conditions,
};
use crate::text::{copy_aliases, copy_nested_texts, copy_texts, no_texts, push_text};
use crate::types::{Platform, RawResolveOptions};

verus! {

/// Whether a specifier must be written with its extension.
#[derive(Clone, Copy, Debug, PartialEq, Eq, Structural)]
pub enum ExtensionPolicy {
    /// A specifier is tried as written and with each configured extension.
    Auto,
    Enabled,
    Disabled,
}

/// Whether the `references` of a tsconfig file are followed.
#[derive(Clone, Copy, Debug, PartialEq, Eq, Structural)]
pub enum ProjectReferences {
    Disabled,
    Auto,
}

/// The tsconfig file whose path mapping is consulted before the standard
/// lookup.
#[derive(Debug)]
pub struct Tsconfig {
    pub config_file: String,
    pub references: ProjectReferences,
}

/// Everything one engine is built with.
#[derive(Debug)]
pub struct EngineConfig {
    pub tsconfig: Option<Tsconfig>,
    pub alias: Vec<(String, Vec<String>)>,
    pub alias_fields: Vec<Vec<String>>,
    pub condition_names: Vec<String>,
    pub description_files: Vec<String>,
    pub enforce_extension: ExtensionPolicy,
    pub exports_fields: Vec<Vec<String>>,
    pub imports_fields: Vec<Vec<String>>,
    pub extensions: Vec<String>,
    pub main_fields: Vec<String>,
    pub main_files: Vec<String>,
    pub modules: Vec<String>,
    pub symlinks: bool,
}

/// The three configurations of a resolver. They differ in their condition
/// lists and in nothing else.
#[derive(Debug)]
pub struct EngineConfigs {
    pub default_config: EngineConfig,
    pub import_config: EngineConfig,
    pub require_config: EngineConfig,
}

/// A tsconfig source, by its characters.
pub struct TsconfigView {
    pub config_file: Seq<char>,
    pub references: ProjectReferences,
}

/// An engine configuration, by its characters.
pub struct EngineConfigView {
    pub tsconfig: Option<TsconfigView>,
    pub alias: Seq<(Seq<char>, Seq<Seq<char>>)>,
    pub alias_fields: Seq<Seq<Seq<char>>>,
    pub condition_names: Seq<Seq<char>>,
    pub description_files: Seq<Seq<char>>,
    pub enforce_extension: ExtensionPolicy,
    pub exports_fields: Seq<Seq<Seq<char>>>,
    pub imports_fields: Seq<Seq<Seq<char>>>,
    pub extensions: Seq<Seq<char>>,
    pub main_fields: Seq<Seq<char>>,
    pub main_files: Seq<Seq<char>>,
    pub modules: Seq<Seq<char>>,
    pub symlinks: bool,
}

/// The user's options, by their characters.
pub struct RawOptionsView {
    pub alias: Option<Seq<(Seq<char>, Seq<Seq<char>>)>>,
    pub alias_fields: Option<Seq<Seq<Seq<char>>>>,
    pub condition_names: Option<Seq<Seq<char>>>,
    pub exports_fields: Option<Seq<Seq<Seq<char>>>>,
    pub extensions: Option<Seq<Seq<char>>>,
    pub main_fields: Option<Seq<Seq<char>>>,
    pub main_files: Option<Seq<Seq<char>>>,
    pub modules: Option<Seq<Seq<char>>>,
    pub symlinks: Option<bool>,
    pub tsconfig_filename: Option<Seq<char>>,
}

impl View for Tsconfig {
    type V = TsconfigView;

    open spec fn view(&self) -> TsconfigView {
        TsconfigView { config_file: self.config_file@, references: self.references }
    }
}

impl View for EngineConfig {
    type V = EngineConfigView;

    open spec fn view(&self) -> EngineConfigView {
        EngineConfigView {
            tsconfig: match self.tsconfig {
                Some(t) => Some(t@),
                None => None,
            },
            alias: self.alias.deep_view(),
            alias_fields: self.alias_fields.deep_view(),
            condition_names: self.condition_names.deep_view(),
            description_files: self.description_files.deep_view(),
            enforce_extension: self.enforce_extension,
            exports_fields: self.exports_fields.deep_view(),
            imports_fields: self.imports_fields.deep_view(),
            extensions: self.extensions.deep_view(),
            main_fields: self.main_fields.deep_view(),
            main_files: self.main_files.deep_view(),
            modules: self.modules.deep_view(),
            symlinks: self.symlinks,
        }
    }
}

impl View for RawResolveOptions {
    type V = RawOptionsView;

    open spec fn view(&self) -> RawOptionsView {
        RawOptionsView {
            alias: self.alias.deep_view(),
            alias_fields: self.alias_fields.deep_view(),
            condition_names: self.condition_names.deep_view(),
            exports_fields: self.exports_fields.deep_view(),
            extensions: self.extensions.deep_view(),
            main_fields: self.main_fields.deep_view(),
            main_files: self.main_files.deep_view(),
            modules: self.modules.deep_view(),
            symlinks: self.symlinks,
            tsconfig_filename: self.tsconfig_filename.deep_view(),
        }
    }
}

/// What the user set, or else the default.
pub open spec fn chosen<T>(given: Option<T>, fallback: T) -> T {
    match given {
        Some(value) => value,
        None => fallback,
    }
}

/// The manifest fields that name a package's entry file, by platform.
pub open spec fn default_main_fields(platform: Platform) -> Seq<Seq<char>> {
    match platform {
        Platform::Node => seq!["main"@, "module"@],
        Platform::Browser => seq!["browser"@, "module"@, "main"@],
        Platform::Neutral => Seq::empty(),
    }
}

/// The manifest fields that remap subpaths of a package, by platform.
pub open spec fn default_alias_fields(platform: Platform) -> Seq<Seq<Seq<char>>> {
    match platform {
        Platform::Browser => seq![seq!["browser"@]],
        _ => Seq::empty(),
    }
}

/// The configuration of the engine with the default condition list.
pub open spec fn base_config(raw: RawOptionsView, platform: Platform) -> EngineConfigView {
    EngineConfigView {
        tsconfig: match raw.tsconfig_filename {
            Some(file) => Some(
                TsconfigView { config_file: file, references: ProjectReferences::Disabled },
            ),
            None => None,
        },
        alias: chosen(raw.alias, Seq::empty()),
        alias_fields: chosen(raw.alias_fields, default_alias_fields(platform)),
        condition_names: default_conditions(user_conditions(raw.condition_names), platform),
        description_files: seq!["package.json"@],
        enforce_extension: ExtensionPolicy::Auto,
        exports_fields: chosen(raw.exports_fields, seq![seq!["exports"@]]),
        imports_fields: seq![seq!["imports"@]],
        extensions: chosen(raw.extensions, seq![".jsx"@, ".js"@]),
        main_fields: chosen(raw.main_fields, default_main_fields(platform)),
        main_files: chosen(raw.main_files, seq!["index"@]),
        modules: chosen(raw.modules, seq!["node_modules"@]),
        symlinks: chosen(raw.symlinks, true),
    }
}

/// A configuration with its condition list replaced and all else kept.
pub open spec fn with_condition_names(
    config: EngineConfigView,
    condition_names: Seq<Seq<char>>,
) -> EngineConfigView {
    EngineConfigView { condition_names, ..config }
}

/// Every extension that is not empty starts with a dot. The engine is
/// built for such lists only.
pub open spec fn extensions_well_formed(extensions: Seq<Seq<char>>) -> bool {
    forall|i: int|
        0 <= i < extensions.len() ==> (#[trigger] extensions[i]).len() == 0 || extensions[i][0]
            == '.'
}

/// Whether every extension that is not empty starts with a dot.
pub fn check_extensions(extensions: &Vec<String>) -> (ok: bool)
    ensures
        ok == extensions_well_formed(extensions.deep_view()),
{
    let mut i: usize = 0;
    while i < extensions.len()
        invariant
            i <= extensions.len(),
            forall|j: int|
                0 <= j < i ==> (#[trigger] extensions.deep_view()[j]).len() == 0
                    || extensions.deep_view()[j][0] == '.',
        decreases extensions.len() - i,
    {
        let extension = extensions[i].as_str();
        if !extension.is_empty() && extension.get_char(0) != '.' {
            assert(extensions.deep_view()[i as int] == extension@);
            return false;
        }
        assert(extensions.deep_view()[i as int] == extension@);
        i += 1;
    }
    true
}

fn main_fields_for(platform: Platform) -> (fields: Vec<String>)
    ensures
        fields.deep_view() == default_main_fields(platform),
{
    let mut fields = no_texts();
    match platform {
        Platform::Node => {
            push_text(&mut fields, "main");
            push_text(&mut fields, "module");
            assert(fields.deep_view() =~= seq!["main"@, "module"@]);
        },
        Platform::Browser => {
            push_text(&mut fields, "browser");
            push_text(&mut fields, "module");
            push_text(&mut fields, "main");
            assert(fields.deep_view() =~= seq!["browser"@, "module"@, "main"@]);
        },
        Platform::Neutral => {},
    }
    fields
}

/// A list that holds one string, a copy of `word`.
fn one_text(word: &str) -> (list: Vec<String>)
    ensures
        list.deep_view() == seq![word@],
{
    let mut list = no_texts();
    push_text(&mut list, word);
    assert(list.deep_view() =~= seq![word@]);
    list
}

/// A list of field paths that holds nothing.
fn no_field_paths() -> (paths: Vec<Vec<String>>)
    ensures
        paths.deep_view() == Seq::<Seq<Seq<char>>>::empty(),
{
    let paths: Vec<Vec<String>> = Vec::new();
    assert(paths.deep_view() =~= Seq::<Seq<Seq<char>>>::empty());
    paths
}

/// The field path list that holds the one top-level field `field`.
fn one_field_path(field: &str) -> (paths: Vec<Vec<String>>)
    ensures
        paths.deep_view() == seq![seq![field@]],
{
    let mut paths: Vec<Vec<String>> = Vec::new();
    paths.push(one_text(field));
    assert(paths.deep_view() =~= seq![seq![field@]]);
    paths
}

fn alias_fields_for(platform: Platform) -> (paths: Vec<Vec<String>>)
    ensures
        paths.deep_view() == default_alias_fields(platform),
{
    match platform {
        Platform::Browser => one_field_path("browser"),
        _ => no_field_paths(),
    }
}

impl EngineConfig {
    /// A copy of this configuration with another condition list.
    pub fn with_conditions(&self, condition_names: Vec<String>) -> (derived: EngineConfig)
        ensures
            derived@ == with_condition_names(self@, condition_names.deep_view()),
    {
        let tsconfig = match &self.tsconfig {
            Some(t) => Some(Tsconfig { config_file: t.config_file.clone(), references: t.references }),
            None => None,
        };
        EngineConfig {
            tsconfig,
            alias: copy_aliases(&self.alias),
            alias_fields: copy_nested_texts(&self.alias_fields),
            condition_names,
            description_files: copy_texts(&self.description_files),
            enforce_extension: self.enforce_extension,
            exports_fields: copy_nested_texts(&self.exports_fields),
            imports_fields: copy_nested_texts(&self.imports_fields),
            extensions: copy_texts(&self.extensions),
            main_fields: copy_texts(&self.main_fields),
            main_files: copy_texts(&self.main_files),
            modules: copy_texts(&self.modules),
            symlinks: self.symlinks,
        }
    }
}

/// Derives the three engine configurations from the user's options and the
/// platform.
pub fn normalize_options(raw: RawResolveOptions, platform: Platform) -> (configs: EngineConfigs)
    ensures
        configs.default_config@ == base_config(raw@, platform),
        configs.import_config@ == with_condition_names(
            base_config(raw@, platform),
            import_conditions(base_config(raw@, platform).condition_names),
        ),
        configs.require_config@ == with_condition_names(
            base_config(raw@, platform),
            require_conditions(base_config(raw@, platform).condition_names),
        ),
{
    let lists = condition_lists(&raw.condition_names, platform);
    let tsconfig = match raw.tsconfig_filename {
        Some(file) => Some(Tsconfig { config_file: file, references: ProjectReferences::Disabled }),
        None => None,
    };
    let alias = match raw.alias {
        Some(alias) => alias,
        None => {
            let none: Vec<(String, Vec<String>)> = Vec::new();
            assert(none.deep_view() =~= Seq::<(Seq<char>, Seq<Seq<char>>)>::empty());
            none
        },
    };
    let alias_fields = match raw.alias_fields {
        Some(fields) => fields,
        None => alias_fields_for(platform),
    };
    let exports_fields = match raw.exports_fields {
        Some(fields) => fields,
        None => one_field_path("exports"),
    };
    let extensions = match raw.extensions {
        Some(extensions) => extensions,
        None => {
            let mut extensions = no_texts();
            push_text(&mut extensions, ".jsx");
            push_text(&mut extensions, ".js");
            assert(extensions.deep_view() =~= seq![".jsx"@, ".js"@]);
            extensions
        },
    };
    let main_fields = match raw.main_fields {
        Some(fields) => fields,
        None => main_fields_for(platform),
    };
    let main_files = match raw.main_files {
        Some(files) => files,
        None => one_text("index"),
    };
    let modules = match raw.modules {
        Some(modules) => modules,
        None => one_text("node_modules"),
    };
    let symlinks = match raw.symlinks {
        Some(flag) => flag,
        None => true,
    };
    let default_config = EngineConfig {
        tsconfig,
        alias,
        alias_fields,
        condition_names: lists.default_list,
        description_files: one_text("package.json"),
        enforce_extension: ExtensionPolicy::Auto,
        exports_fields,
        imports_fields: one_field_path("imports"),
        extensions,
        main_fields,
        main_files,
        modules,
        symlinks,
    };
    let import_config = default_config.with_conditions(lists.import_list);
    let require_config = default_config.with_conditions(lists.require_list);
    EngineConfigs { default_config, import_config, require_config }
}

} // verus!
