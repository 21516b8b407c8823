use oxc_resolver::{FileMetadata, FileSystem, ResolveError};
use rolldown_resolver::attempts::{select_condition_set, ConditionSet, Stage, Step};
use rolldown_resolver::engine::read_outcome;
use rolldown_resolver::outcome::{EngineFailure, ErrorKind, Outcome, ResolutionError};
use rolldown_resolver::{
    ImportKind, ModuleType, Platform, RawResolveOptions, ResolveReturn, Resolver,
};
use std::collections::BTreeMap;
use std::io;
use std::path::{Path, PathBuf};

/// Files held in memory, each by its absolute path.
#[derive(Default)]
struct MemoryFs {
    files: BTreeMap<PathBuf, String>,
}

impl MemoryFs {
    fn with(files: &[(&str, &str)]) -> MemoryFs {
        let mut fs = MemoryFs::default();
        for (path, content) in files {
            fs.files.insert(PathBuf::from(path), content.to_string());
        }
        fs
    }

    fn stat(&self, path: &Path) -> io::Result<FileMetadata> {
        if self.files.contains_key(path) {
            Ok(FileMetadata::new(true, false, false))
        } else if self.files.keys().any(|file| file != path && file.starts_with(path)) {
            Ok(FileMetadata::new(false, true, false))
        } else {
            Err(io::Error::new(io::ErrorKind::NotFound, "no such file"))
        }
    }
}

impl FileSystem for MemoryFs {
    fn read_to_string(&self, path: &Path) -> io::Result<String> {
        match self.files.get(path) {
            Some(content) => Ok(content.clone()),
            None => Err(io::Error::new(io::ErrorKind::NotFound, "no such file")),
        }
    }

    fn metadata(&self, path: &Path) -> io::Result<FileMetadata> {
        self.stat(path)
    }

    fn symlink_metadata(&self, path: &Path) -> io::Result<FileMetadata> {
        self.stat(path)
    }

    fn canonicalize(&self, path: &Path) -> io::Result<PathBuf> {
        self.stat(path).map(|_| path.to_path_buf())
    }
}

fn unset() -> RawResolveOptions {
    RawResolveOptions {
        alias: None,
        alias_fields: None,
        condition_names: None,
        exports_fields: None,
        extensions: None,
        main_fields: None,
        main_files: None,
        modules: None,
        symlinks: None,
        tsconfig_filename: None,
    }
}

fn words(list: &[&str]) -> Vec<String> {
    list.iter().map(|s| s.to_string()).collect()
}

fn resolver(platform: Platform, files: &[(&str, &str)]) -> Resolver<MemoryFs> {
    Resolver::new(unset(), platform, "/proj".to_string(), MemoryFs::with(files))
}

fn resolved(
    resolver: &Resolver<MemoryFs>,
    importer: Option<&str>,
    specifier: &str,
    kind: ImportKind,
) -> Result<ResolveReturn, ResolutionError> {
    let engine = resolver.engine(select_condition_set(kind));
    let mut attempt = resolver.first_lookup(importer, specifier).unwrap();
    let mut stage = Stage::First;
    loop {
        let outcome = read_outcome(engine.resolve(&attempt.context, &attempt.specifier));
        match resolver.after_lookup(importer, specifier, stage, outcome) {
            Step::Look(next) => {
                attempt = next;
                stage = Stage::Fallback;
            }
            Step::Report(report) => return report.unwrap(),
        }
    }
}

#[test]
fn new_keeps_the_working_directory() {
    let resolver = resolver(Platform::Node, &[]);
    assert_eq!(resolver.cwd(), "/proj");
}

#[test]
fn new_builds_the_three_condition_lists() {
    let raw = RawResolveOptions { condition_names: Some(words(&["dev", "dev"])), ..unset() };
    let resolver = Resolver::new(raw, Platform::Node, "/proj".to_string(), MemoryFs::default());
    assert_eq!(
        resolver.config(ConditionSet::Default).condition_names,
        words(&["dev", "default", "node"])
    );
    assert_eq!(
        resolver.config(ConditionSet::Import).condition_names,
        words(&["import", "dev", "default", "node"])
    );
    assert_eq!(
        resolver.config(ConditionSet::Require).condition_names,
        words(&["require", "dev", "default", "node"])
    );
    assert_eq!(resolver.config(ConditionSet::Import).main_fields, words(&["main", "module"]));
    assert_eq!(resolver.config(ConditionSet::Require).extensions, words(&[".jsx", ".js"]));
}

#[test]
fn relative_import_resolves_from_the_importers_directory() {
    let resolver = resolver(Platform::Node, &[("/proj/src/util.js", ""), ("/proj/util.js", "")]);
    let ret = resolved(&resolver, Some("/proj/src/index.js"), "./util", ImportKind::Import).unwrap();
    assert_eq!(ret.path.path, "/proj/src/util.js");
    assert!(!ret.path.ignored);
    assert_eq!(ret.module_type, ModuleType::Unknown);
}

#[test]
fn importer_itself_is_not_the_context() {
    let resolver = resolver(Platform::Node, &[("/proj/src/index.js/util.js", "")]);
    let error =
        resolved(&resolver, Some("/proj/src/index.js"), "./util", ImportKind::Import).unwrap_err();
    assert_eq!(error.kind, ErrorKind::NotFound);
}

#[test]
fn bare_entry_point_falls_back_to_a_package() {
    let resolver = resolver(
        Platform::Node,
        &[
            ("/proj/node_modules/lodash/package.json", r#"{"main": "index.js"}"#),
            ("/proj/node_modules/lodash/index.js", ""),
        ],
    );
    let ret = resolved(&resolver, None, "lodash", ImportKind::Import).unwrap();
    assert_eq!(ret.path.path, "/proj/node_modules/lodash/index.js");
    assert!(!ret.path.ignored);
}

#[test]
fn bare_entry_point_prefers_the_file_under_the_working_directory() {
    let resolver = resolver(
        Platform::Node,
        &[
            ("/proj/main.js", ""),
            ("/proj/node_modules/main/package.json", r#"{"main": "index.js"}"#),
            ("/proj/node_modules/main/index.js", ""),
        ],
    );
    let ret = resolved(&resolver, None, "main", ImportKind::Import).unwrap();
    assert_eq!(ret.path.path, "/proj/main.js");
}

#[test]
fn path_like_entry_point_does_not_fall_back() {
    let resolver = resolver(
        Platform::Node,
        &[
            ("/proj/node_modules/pkg/package.json", r#"{"main": "index.js"}"#),
            ("/proj/node_modules/pkg/index.js", ""),
        ],
    );
    let error = resolved(&resolver, None, "./pkg", ImportKind::Import).unwrap_err();
    assert_eq!(error.kind, ErrorKind::NotFound);
    let ret = resolved(&resolver, None, "pkg", ImportKind::Import).unwrap();
    assert_eq!(ret.path.path, "/proj/node_modules/pkg/index.js");
}

#[test]
fn entry_point_with_dot_segments_is_normalized() {
    let resolver = resolver(Platform::Node, &[("/proj/src/main.js", "")]);
    let ret = resolved(&resolver, None, "./lib/../src/./main", ImportKind::Import).unwrap();
    assert_eq!(ret.path.path, "/proj/src/main.js");
}

#[test]
fn mjs_is_esm_regardless_of_manifest() {
    let resolver = resolver(
        Platform::Node,
        &[("/proj/package.json", r#"{"type": "commonjs"}"#), ("/proj/foo.mjs", "")],
    );
    let ret = resolved(&resolver, Some("/proj/index.js"), "./foo.mjs", ImportKind::Import).unwrap();
    assert_eq!(ret.path.path, "/proj/foo.mjs");
    assert_eq!(ret.module_type, ModuleType::EsmMjs);
}

#[test]
fn cjs_is_commonjs() {
    let resolver = resolver(
        Platform::Node,
        &[("/proj/package.json", r#"{"type": "module"}"#), ("/proj/foo.cjs", "")],
    );
    let ret = resolved(&resolver, Some("/proj/index.js"), "./foo.cjs", ImportKind::Require).unwrap();
    assert_eq!(ret.path.path, "/proj/foo.cjs");
    assert_eq!(ret.module_type, ModuleType::CJS);
}

#[test]
fn js_takes_the_type_of_the_nearest_manifest() {
    let resolver = resolver(
        Platform::Node,
        &[
            ("/proj/package.json", r#"{"type": "module"}"#),
            ("/proj/a.js", ""),
            ("/proj/legacy/package.json", r#"{"type": "commonjs"}"#),
            ("/proj/legacy/b.js", ""),
            ("/proj/plain/package.json", r#"{"name": "plain"}"#),
            ("/proj/plain/c.js", ""),
            ("/proj/odd/package.json", r#"{"type": 7}"#),
            ("/proj/odd/d.js", ""),
        ],
    );
    let importer = Some("/proj/index.js");
    let ret = resolved(&resolver, importer, "./a", ImportKind::Import).unwrap();
    assert_eq!(ret.module_type, ModuleType::EsmPackageJson);
    let ret = resolved(&resolver, importer, "./legacy/b", ImportKind::Import).unwrap();
    assert_eq!(ret.module_type, ModuleType::CjsPackageJson);
    let ret = resolved(&resolver, importer, "./plain/c", ImportKind::Import).unwrap();
    assert_eq!(ret.module_type, ModuleType::Unknown);
    let ret = resolved(&resolver, importer, "./odd/d", ImportKind::Import).unwrap();
    assert_eq!(ret.module_type, ModuleType::Unknown);
}

#[test]
fn browser_false_mapping_is_an_ignored_success() {
    let resolver = resolver(
        Platform::Browser,
        &[
            ("/proj/package.json", r#"{"browser": {"./debug": false}}"#),
            ("/proj/debug.js", ""),
            ("/proj/index.js", ""),
        ],
    );
    let ret = resolved(&resolver, Some("/proj/index.js"), "./debug", ImportKind::Import).unwrap();
    assert!(ret.path.ignored);
    assert_eq!(ret.module_type, ModuleType::Unknown);
    assert_eq!(ret.path.path, "/proj/debug");
}

#[test]
fn ignored_entry_point_is_a_success_too() {
    let resolver = resolver(
        Platform::Browser,
        &[("/proj/package.json", r#"{"browser": {"./debug": false}}"#), ("/proj/debug.js", "")],
    );
    let ret = resolved(&resolver, None, "./debug", ImportKind::Require).unwrap();
    assert!(ret.path.ignored);
    assert_eq!(ret.path.path, "/proj/debug");
    assert_eq!(ret.module_type, ModuleType::Unknown);
}

#[test]
fn browser_false_mapping_is_not_read_on_node() {
    let resolver = resolver(
        Platform::Node,
        &[("/proj/package.json", r#"{"browser": {"./debug": false}}"#), ("/proj/debug.js", "")],
    );
    let ret = resolved(&resolver, Some("/proj/index.js"), "./debug", ImportKind::Import).unwrap();
    assert!(!ret.path.ignored);
    assert_eq!(ret.path.path, "/proj/debug.js");
}

#[test]
fn missing_package_is_a_not_found_error() {
    let resolver = resolver(Platform::Node, &[("/proj/index.js", "")]);
    let error =
        resolved(&resolver, Some("/proj/index.js"), "missing-pkg", ImportKind::Import).unwrap_err();
    assert_eq!(error.kind, ErrorKind::NotFound);
    assert_eq!(error.detail, ResolveError::NotFound("missing-pkg".to_string()));
    let error = resolved(&resolver, None, "missing-pkg", ImportKind::Import).unwrap_err();
    assert_eq!(error.kind, ErrorKind::NotFound);
    assert_eq!(error.detail, ResolveError::NotFound("missing-pkg".to_string()));
}

#[test]
fn malformed_manifest_is_a_manifest_error() {
    let resolver = resolver(
        Platform::Node,
        &[
            ("/proj/node_modules/broken/package.json", "{ not json"),
            ("/proj/node_modules/broken/index.js", ""),
        ],
    );
    let error =
        resolved(&resolver, Some("/proj/index.js"), "broken", ImportKind::Import).unwrap_err();
    assert_eq!(error.kind, ErrorKind::ManifestJson);
}

#[test]
fn import_kind_selects_the_condition_list() {
    let manifest = r#"{"exports": {"import": "./esm.mjs", "require": "./cjs.cjs"}}"#;
    let resolver = resolver(
        Platform::Node,
        &[
            ("/proj/node_modules/dual/package.json", manifest),
            ("/proj/node_modules/dual/esm.mjs", ""),
            ("/proj/node_modules/dual/cjs.cjs", ""),
        ],
    );
    let importer = Some("/proj/index.js");
    let ret = resolved(&resolver, importer, "dual", ImportKind::Import).unwrap();
    assert_eq!(ret.path.path, "/proj/node_modules/dual/esm.mjs");
    assert_eq!(ret.module_type, ModuleType::EsmMjs);
    let ret = resolved(&resolver, importer, "dual", ImportKind::DynamicImport).unwrap();
    assert_eq!(ret.path.path, "/proj/node_modules/dual/esm.mjs");
    let ret = resolved(&resolver, importer, "dual", ImportKind::Require).unwrap();
    assert_eq!(ret.path.path, "/proj/node_modules/dual/cjs.cjs");
    assert_eq!(ret.module_type, ModuleType::CJS);
}

#[test]
fn platform_condition_selects_the_export() {
    let manifest = r#"{"exports": {"browser": "./web.js", "node": "./node.js"}}"#;
    let files = [
        ("/proj/node_modules/p/package.json", manifest),
        ("/proj/node_modules/p/web.js", ""),
        ("/proj/node_modules/p/node.js", ""),
    ];
    let importer = Some("/proj/index.js");
    let ret = resolved(&resolver(Platform::Node, &files), importer, "p", ImportKind::Import);
    assert_eq!(ret.unwrap().path.path, "/proj/node_modules/p/node.js");
    let ret = resolved(&resolver(Platform::Browser, &files), importer, "p", ImportKind::Import);
    assert_eq!(ret.unwrap().path.path, "/proj/node_modules/p/web.js");
    let ret = resolved(&resolver(Platform::Neutral, &files), importer, "p", ImportKind::Import);
    assert_eq!(ret.unwrap_err().kind, ErrorKind::NotExported);
}

#[test]
fn missing_tsconfig_is_a_configuration_error() {
    let raw = RawResolveOptions { tsconfig_filename: Some("/proj/tsconfig.json".to_string()), ..unset() };
    let fs = MemoryFs::with(&[("/proj/a.js", "")]);
    let resolver = Resolver::new(raw, Platform::Node, "/proj".to_string(), fs);
    let error = resolved(&resolver, Some("/proj/index.js"), "./a", ImportKind::Import).unwrap_err();
    assert_eq!(error.kind, ErrorKind::InvalidConfiguration);
    assert_eq!(error.detail, ResolveError::TsconfigNotFound(PathBuf::from("/proj/tsconfig.json")));
}

#[test]
fn malformed_tsconfig_is_a_configuration_error() {
    let raw = RawResolveOptions { tsconfig_filename: Some("/proj/tsconfig.json".to_string()), ..unset() };
    let fs = MemoryFs::with(&[("/proj/a.js", ""), ("/proj/tsconfig.json", "{ not json")]);
    let resolver = Resolver::new(raw, Platform::Node, "/proj".to_string(), fs);
    let error = resolved(&resolver, Some("/proj/index.js"), "./a", ImportKind::Import).unwrap_err();
    assert_eq!(error.kind, ErrorKind::InvalidConfiguration);
}

#[test]
fn tsconfig_paths_are_consulted() {
    let raw = RawResolveOptions { tsconfig_filename: Some("/proj/tsconfig.json".to_string()), ..unset() };
    let tsconfig = r#"{"compilerOptions": {"baseUrl": ".", "paths": {"~/*": ["./src/*"]}}}"#;
    let fs = MemoryFs::with(&[("/proj/src/a.js", ""), ("/proj/tsconfig.json", tsconfig)]);
    let resolver = Resolver::new(raw, Platform::Node, "/proj".to_string(), fs);
    let ret = resolved(&resolver, Some("/proj/index.js"), "~/a", ImportKind::Import).unwrap();
    assert_eq!(ret.path.path, "/proj/src/a.js");
}

#[test]
fn empty_specifier_is_another_error() {
    let resolver = resolver(Platform::Node, &[("/proj/a.js", "")]);
    let error = resolved(&resolver, Some("/proj/index.js"), "", ImportKind::Import).unwrap_err();
    assert_eq!(error.kind, ErrorKind::Other);
}

#[test]
fn main_fields_follow_the_platform() {
    let manifest = r#"{"main": "./main.js", "module": "./module.js", "browser": "./browser.js"}"#;
    let files = [
        ("/proj/node_modules/p/package.json", manifest),
        ("/proj/node_modules/p/main.js", ""),
        ("/proj/node_modules/p/module.js", ""),
        ("/proj/node_modules/p/browser.js", ""),
        ("/proj/node_modules/p/index.js", ""),
    ];
    let importer = Some("/proj/index.js");
    let ret = resolved(&resolver(Platform::Node, &files), importer, "p", ImportKind::Import);
    assert_eq!(ret.unwrap().path.path, "/proj/node_modules/p/main.js");
    let ret = resolved(&resolver(Platform::Browser, &files), importer, "p", ImportKind::Import);
    assert_eq!(ret.unwrap().path.path, "/proj/node_modules/p/browser.js");
    let ret = resolved(&resolver(Platform::Neutral, &files), importer, "p", ImportKind::Import);
    assert_eq!(ret.unwrap().path.path, "/proj/node_modules/p/index.js");
}

#[test]
fn default_extensions_are_probed_in_order() {
    let resolver = resolver(Platform::Node, &[("/proj/a.js", ""), ("/proj/a.jsx", ""), ("/proj/b.ts", "")]);
    let importer = Some("/proj/index.js");
    let ret = resolved(&resolver, importer, "./a", ImportKind::Import).unwrap();
    assert_eq!(ret.path.path, "/proj/a.jsx");
    let error = resolved(&resolver, importer, "./b", ImportKind::Import).unwrap_err();
    assert_eq!(error.kind, ErrorKind::NotFound);
}

#[test]
fn user_extensions_and_alias_are_handed_to_the_engine() {
    let raw = RawResolveOptions {
        alias: Some(vec![("@".to_string(), words(&["/proj/src"]))]),
        extensions: Some(words(&[".ts"])),
        ..unset()
    };
    let fs = MemoryFs::with(&[("/proj/src/b.ts", ""), ("/proj/src/a.js", "")]);
    let resolver = Resolver::new(raw, Platform::Node, "/proj".to_string(), fs);
    let importer = Some("/proj/index.js");
    let ret = resolved(&resolver, importer, "@/b", ImportKind::Import).unwrap();
    assert_eq!(ret.path.path, "/proj/src/b.ts");
    let error = resolved(&resolver, importer, "@/a", ImportKind::Import).unwrap_err();
    assert_ne!(error.kind, ErrorKind::ManifestJson);
}

#[test]
fn query_and_fragment_stay_on_the_path() {
    let resolver = resolver(Platform::Node, &[("/proj/a.mjs", "")]);
    let ret = resolved(&resolver, Some("/proj/index.js"), "./a.mjs?raw", ImportKind::Import).unwrap();
    assert_eq!(ret.path.path, "/proj/a.mjs?raw");
    assert_eq!(ret.module_type, ModuleType::EsmMjs);
}

#[test]
fn resolving_twice_gives_the_same_outcome() {
    let resolver = resolver(
        Platform::Node,
        &[("/proj/package.json", r#"{"type": "module"}"#), ("/proj/src/util.js", "")],
    );
    let first = resolved(&resolver, Some("/proj/src/index.js"), "./util", ImportKind::Import).unwrap();
    let second = resolved(&resolver, Some("/proj/src/index.js"), "./util", ImportKind::Import).unwrap();
    assert_eq!(first.path.path, second.path.path);
    assert_eq!(first.path.ignored, second.path.ignored);
    assert_eq!(first.module_type, second.module_type);
    let first = resolved(&resolver, None, "nothing", ImportKind::Require).unwrap_err();
    let second = resolved(&resolver, None, "nothing", ImportKind::Require).unwrap_err();
    assert_eq!(first.kind, second.kind);
    assert_eq!(first.detail, second.detail);
}

#[test]
fn first_lookup_refuses_an_importer_without_parent() {
    let resolver = resolver(Platform::Node, &[("/proj/src/util.js", "")]);
    assert!(resolver.first_lookup(Some("/"), "./util").is_none());
    assert!(resolver.first_lookup(Some(""), "./util").is_none());
    let attempt = resolver.first_lookup(Some("/proj/src/index.js"), "./util").unwrap();
    assert_eq!(attempt.context, "/proj/src");
    assert_eq!(attempt.specifier, "./util");
    let attempt = resolver.first_lookup(None, "./src/../src/util").unwrap();
    assert_eq!(attempt.context, "/proj");
    assert_eq!(attempt.specifier, "/proj/src/util");
}

#[test]
fn after_lookup_plans_the_fallback_from_the_working_directory() {
    let resolver = resolver(Platform::Node, &[]);
    let missing = || Outcome::Failed(EngineFailure::NotFound, ResolveError::NotFound("x".to_string()));
    match resolver.after_lookup(None, "pkg", Stage::First, missing()) {
        Step::Look(attempt) => {
            assert_eq!(attempt.context, "/proj");
            assert_eq!(attempt.specifier, "pkg");
        }
        Step::Report(_) => panic!("a bare entry point that was not found is looked up again"),
    }
    assert!(matches!(resolver.after_lookup(None, "pkg", Stage::Fallback, missing()), Step::Report(_)));
    assert!(matches!(resolver.after_lookup(None, "./pkg", Stage::First, missing()), Step::Report(_)));
    let importer = Some("/proj/a.js");
    assert!(matches!(resolver.after_lookup(importer, "pkg", Stage::First, missing()), Step::Report(_)));
}

#[test]
fn engines_differ_by_condition_list() {
    let resolver = resolver(Platform::Node, &[]);
    let names = |set| resolver.engine(set).options().condition_names.clone();
    assert_eq!(names(ConditionSet::Default), words(&["default", "node"]));
    assert_eq!(names(ConditionSet::Import), words(&["import", "default", "node"]));
    assert_eq!(names(ConditionSet::Require), words(&["require", "default", "node"]));
}

#[test]
fn read_outcome_reads_a_found_file_and_a_failure() {
    let resolver = resolver(
        Platform::Node,
        &[("/proj/package.json", r#"{"type": "module"}"#), ("/proj/a.js", "")],
    );
    let engine = resolver.engine(ConditionSet::Import);
    match read_outcome(engine.resolve("/proj", "./a.js?x#y")) {
        Outcome::Found(found) => {
            assert_eq!(found.path, Some("/proj/a.js".to_string()));
            assert_eq!(found.full_path, Some("/proj/a.js?x#y".to_string()));
            assert_eq!(found.manifest_type, Some("module".to_string()));
        }
        Outcome::Failed(..) => panic!("the file is there"),
    }
    match read_outcome(engine.resolve("/proj", "./b")) {
        Outcome::Failed(failure, detail) => {
            assert!(matches!(failure, EngineFailure::NotFound));
            assert_eq!(detail, ResolveError::NotFound("./b".to_string()));
        }
        Outcome::Found(_) => panic!("the file is not there"),
    }
    match read_outcome(engine.resolve("/proj", "")) {
        Outcome::Failed(failure, _) => assert!(matches!(failure, EngineFailure::Specifier)),
        Outcome::Found(_) => panic!("an empty specifier names nothing"),
    }
}
